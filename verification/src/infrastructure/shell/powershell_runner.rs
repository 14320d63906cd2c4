use vstd::prelude::*;
use crate::infrastructure::shell::command_line::{CommandLine, CommandLineView, ProcessStatus};
use crate::infrastructure::text::{from_utf8_lossy, trimmed, trimmed_text, utf8_lossy};

verus! {

/// What stands before the error output in the error of a failed command.
pub const COMMAND_FAILED: &'static str = "Command failed: ";

/// The error of a command that could not be started.
pub const COMMAND_NOT_STARTED: &'static str = "Failed to execute PowerShell command";

/// The PowerShell that commands are run with: PowerShell 7 (`pwsh`) or
/// Windows PowerShell (`powershell`).
pub struct PowerShellRunner {
    shell: String,
}

impl View for PowerShellRunner {
    type V = Seq<char>;

    /// The name of the shell's executable.
    closed spec fn view(&self) -> Seq<char> {
        self.shell@
    }
}

/// What a finished command amounts to: its trimmed output where it ended in
/// success, and otherwise an error that carries its error output.
pub open spec fn command_result(status: ProcessStatus, stdout: Seq<u8>, stderr: Seq<u8>) -> Result<
    Seq<char>,
    Seq<char>,
> {
    match status {
        ProcessStatus::NotStarted => Err(COMMAND_NOT_STARTED@),
        ProcessStatus::Exited { success } => if success {
            Ok(trimmed(utf8_lossy(stdout)))
        } else {
            Err(COMMAND_FAILED@ + utf8_lossy(stderr))
        },
    }
}

impl PowerShellRunner {
    /// A runner for PowerShell 7 where `use_pwsh` holds, for Windows
    /// PowerShell where it does not.
    pub fn new(use_pwsh: bool) -> (runner: PowerShellRunner)
        ensures
            runner@ == (if use_pwsh {
                "pwsh"@
            } else {
                "powershell"@
            }),
    {
        PowerShellRunner {
            shell: if use_pwsh {
                String::from_str("pwsh")
            } else {
                String::from_str("powershell")
            },
        }
    }

    /// A runner for PowerShell 7.
    pub fn pwsh() -> (runner: PowerShellRunner)
        ensures
            runner@ == "pwsh"@,
    {
        PowerShellRunner::new(true)
    }

    /// A runner for Windows PowerShell.
    pub fn powershell() -> (runner: PowerShellRunner)
        ensures
            runner@ == "powershell"@,
    {
        PowerShellRunner::new(false)
    }

    /// The name of the shell's executable.
    pub fn shell_name(&self) -> (name: &str)
        ensures
            name@ == self@,
    {
        self.shell.as_str()
    }

    /// The command line that runs `cmd` in the shell.
    pub fn command_line(&self, cmd: &str) -> (line: CommandLine)
        ensures
            line@ == (CommandLineView { program: self@, arguments: seq!["-Command"@, cmd@] }),
    {
        let mut arguments: Vec<&str> = Vec::new();
        arguments.push("-Command");
        arguments.push(cmd);
        let line = CommandLine::new(self.shell.as_str(), arguments);
        assert(line@.arguments =~= seq!["-Command"@, cmd@]);
        line
    }

    /// The command line whose start shows that an executable exists.
    pub fn probe_line(command: &str) -> (line: CommandLine)
        ensures
            line@ == (CommandLineView { program: command@, arguments: seq!["-Version"@] }),
    {
        let mut arguments: Vec<&str> = Vec::new();
        arguments.push("-Version");
        let line = CommandLine::new(command, arguments);
        assert(line@.arguments =~= seq!["-Version"@]);
        line
    }

    /// What a finished command amounts to: its output, read as UTF-8 and
    /// trimmed, where it ended in success; an error with its error output
    /// where it did not; an error where it could not be started.
    pub fn interpret(status: ProcessStatus, stdout: &[u8], stderr: &[u8]) -> (result: Result<
        String,
        String,
    >)
        ensures
            match command_result(status, stdout@, stderr@) {
                Ok(output) => result is Ok && result->Ok_0@ == output,
                Err(message) => result is Err && result->Err_0@ == message,
            },
    {
        match status {
            ProcessStatus::NotStarted => Err(String::from_str(COMMAND_NOT_STARTED)),
            ProcessStatus::Exited { success } => if success {
                let output = from_utf8_lossy(stdout);
                Ok(trimmed_text(output.as_str()))
            } else {
                let errors = from_utf8_lossy(stderr);
                let mut message = String::from_str(COMMAND_FAILED);
                message.append(errors.as_str());
                Err(message)
            },
        }
    }
}

} // verus!
