use vstd::prelude::*;
use crate::infrastructure::shell::command_line::{
    installation_result, probe_result, CommandLine, CommandLineView, ProcessStatus,
};

verus! {

/// The error of an installation whose package manager could not be started.
pub const WINGET_NOT_STARTED: &'static str = "Failed to execute winget";

/// The error of an installation that the package manager did not complete.
pub const FZF_INSTALL_FAILED: &'static str = "winget install fzf failed";

/// The installer of fzf, which the PSFzf module needs, through winget.
pub struct FzfInstaller {}

impl FzfInstaller {
    pub fn new() -> (installer: FzfInstaller) {
        FzfInstaller {  }
    }

    /// The name by which plugins are matched to this installer.
    pub fn component_name(&self) -> (name: &'static str)
        ensures
            name@ == "fzf"@,
    {
        "fzf"
    }

    /// The command line that installs fzf.
    pub fn install_line(&self) -> (line: CommandLine)
        ensures
            line@ == (CommandLineView {
                program: "winget"@,
                arguments: seq![
                    "install"@,
                    "fzf"@,
                    "-s"@,
                    "winget"@,
                    "--accept-source-agreements"@,
                ],
            }),
    {
        let mut arguments: Vec<&str> = Vec::new();
        arguments.push("install");
        arguments.push("fzf");
        arguments.push("-s");
        arguments.push("winget");
        arguments.push("--accept-source-agreements");
        let line = CommandLine::new("winget", arguments);
        assert(line@.arguments =~= seq![
            "install"@,
            "fzf"@,
            "-s"@,
            "winget"@,
            "--accept-source-agreements"@,
        ]);
        line
    }

    /// The command line whose start shows that fzf is present.
    pub fn probe_line(&self) -> (line: CommandLine)
        ensures
            line@ == (CommandLineView { program: "fzf"@, arguments: seq!["--version"@] }),
    {
        let mut arguments: Vec<&str> = Vec::new();
        arguments.push("--version");
        let line = CommandLine::new("fzf", arguments);
        assert(line@.arguments =~= seq!["--version"@]);
        line
    }

    /// The result of the installation, from what became of its process.
    pub fn install_result(&self, status: ProcessStatus) -> (result: Result<(), String>)
        ensures
            result is Ok == (status == ProcessStatus::Exited { success: true }),
            status is NotStarted ==> result is Err && result->Err_0@ == WINGET_NOT_STARTED@,
            status == (ProcessStatus::Exited { success: false }) ==> result is Err
                && result->Err_0@ == FZF_INSTALL_FAILED@,
    {
        installation_result(status, WINGET_NOT_STARTED, FZF_INSTALL_FAILED)
    }

    /// Whether fzf is present, from what became of the probe's process.
    pub fn is_installed(&self, status: ProcessStatus) -> (present: bool)
        ensures
            present == (status is Exited),
    {
        probe_result(status)
    }
}

impl Default for FzfInstaller {
    fn default() -> (installer: FzfInstaller) {
        FzfInstaller::new()
    }
}

} // verus!
