use vstd::prelude::*;
use crate::domain::interfaces::installer::Installer;
use crate::domain::interfaces::shell::ShellRunner;
use crate::infrastructure::text::{is_blank, trimmed};

verus! {

/// What stands before the module's name in the command that installs it.
pub const INSTALL_PREFIX: &'static str = "Install-Module ";

/// What stands after the module's name in the command that installs it.
pub const INSTALL_SUFFIX: &'static str = " -Force -Scope CurrentUser -AllowClobber";

/// What stands before the module's name in the command that looks for it.
pub const PROBE_PREFIX: &'static str = "Get-Module -ListAvailable -Name ";

/// The installer of a PowerShell module, through the shell.
pub struct ModuleInstaller<'a> {
    module_name: String,
    /// The shell. It is held in a tuple of one, which is stored as it is:
    /// Verus then knows the stored reference to be the one handed in.
    shell: (&'a dyn ShellRunner, ),
}

impl<'a> View for ModuleInstaller<'a> {
    type V = Seq<char>;

    /// The name of the module.
    closed spec fn view(&self) -> Seq<char> {
        self.module_name@
    }
}

/// The command that installs a module.
pub open spec fn install_command_of(module: Seq<char>) -> Seq<char> {
    INSTALL_PREFIX@ + module + INSTALL_SUFFIX@
}

/// The command that lists a module where it is available.
pub open spec fn probe_command_of(module: Seq<char>) -> Seq<char> {
    PROBE_PREFIX@ + module
}

/// Whether the answer to the probe shows the module: it does where the
/// command succeeded and printed more than whitespace.
pub open spec fn shows_module(answer: Result<String, String>) -> bool {
    match answer {
        Ok(output) => trimmed(output@).len() > 0,
        Err(_) => false,
    }
}

/// The result of an installation, from the shell's answer: success where the
/// command succeeded, and the shell's own error where it did not.
pub open spec fn install_result_of(answer: Result<String, String>) -> Result<(), String> {
    match answer {
        Ok(_) => Ok(()),
        Err(message) => Err(message),
    }
}

impl<'a> ModuleInstaller<'a> {
    /// Whether `answer` is one that the installer's shell may give to `cmd`.
    pub closed spec fn shell_may_answer(&self, cmd: Seq<char>, answer: Result<String, String>) -> bool {
        self.shell.0.may_answer(cmd, answer)
    }

    /// The installer of the module of this name, which runs its commands in
    /// `shell`.
    pub fn new(module_name: &str, shell: &'a dyn ShellRunner) -> (installer: ModuleInstaller<'a>)
        ensures
            installer@ == module_name@,
            forall|cmd: Seq<char>, answer: Result<String, String>|
                #[trigger] installer.shell_may_answer(cmd, answer) == shell.may_answer(cmd, answer),
    {
        let held = (shell, );
        ModuleInstaller { module_name: String::from_str(module_name), shell: held }
    }

    /// The command that installs the module.
    pub fn install_command(&self) -> (command: String)
        ensures
            command@ == install_command_of(self@),
    {
        let mut command = String::from_str(INSTALL_PREFIX);
        command.append(self.module_name.as_str());
        command.append(INSTALL_SUFFIX);
        command
    }

    /// The command that lists the module where it is available.
    pub fn probe_command(&self) -> (command: String)
        ensures
            command@ == probe_command_of(self@),
    {
        let mut command = String::from_str(PROBE_PREFIX);
        command.append(self.module_name.as_str());
        command
    }

    /// Whether the shell's answer to the probe shows the module. A probe
    /// that failed shows nothing.
    pub fn probe_answer(answer: &Result<String, String>) -> (present: bool)
        ensures
            present == shows_module(*answer),
    {
        match answer {
            Ok(output) => !is_blank(output.as_str()),
            Err(_) => false,
        }
    }

    /// The result of the installation, from the shell's answer: the shell's
    /// error where it failed.
    pub fn install_answer(answer: Result<String, String>) -> (result: Result<(), String>)
        ensures
            result == install_result_of(answer),
    {
        match answer {
            Ok(_) => Ok(()),
            Err(message) => Err(message),
        }
    }
}

impl<'a> Installer for ModuleInstaller<'a> {
    /// The installation ends as the shell's answer to the command that
    /// installs the module makes it end.
    open spec fn may_install(&self, result: Result<(), String>) -> bool {
        exists|answer: Result<String, String>|
            #[trigger] self.shell_may_answer(install_command_of(self@), answer) && result
                == install_result_of(answer)
    }

    /// The module is present where the shell's answer to the command that
    /// lists the module shows it.
    open spec fn may_report(&self, present: bool) -> bool {
        exists|answer: Result<String, String>|
            #[trigger] self.shell_may_answer(probe_command_of(self@), answer) && present
                == shows_module(answer)
    }

    /// The component has the module's name.
    open spec fn may_be_named(&self, name: Seq<char>) -> bool {
        name == self@
    }

    /// Installs the module: the shell is handed the command that installs
    /// it, and the result is what its answer amounts to.
    fn install(&self) -> (result: Result<(), String>) {
        let command = self.install_command();
        let answer = self.shell.0.run(command.as_str());
        let result = ModuleInstaller::install_answer(answer);
        assert(self.shell_may_answer(install_command_of(self@), answer) && result
            == install_result_of(answer));
        result
    }

    /// Whether the module is present: the shell is handed the command that
    /// lists the module, and the module is present where the answer shows it.
    fn is_installed(&self) -> (present: bool) {
        let command = self.probe_command();
        let answer = self.shell.0.run(command.as_str());
        let present = ModuleInstaller::probe_answer(&answer);
        assert(self.shell_may_answer(probe_command_of(self@), answer) && present == shows_module(
            answer,
        ));
        present
    }

    fn component_name(&self) -> (name: &str) {
        self.module_name.as_str()
    }
}

} // verus!
