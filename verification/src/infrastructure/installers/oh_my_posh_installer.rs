use vstd::prelude::*;
use crate::infrastructure::installers::fzf_installer::WINGET_NOT_STARTED;
use crate::infrastructure::shell::command_line::{
    installation_result, probe_result, CommandLine, CommandLineView, ProcessStatus,
};

verus! {

/// The error of an installation that the package manager did not complete.
pub const OH_MY_POSH_INSTALL_FAILED: &'static str = "winget install oh-my-posh failed";

/// The installer of the prompt theme engine oh-my-posh, through winget.
pub struct OhMyPoshInstaller {}

impl OhMyPoshInstaller {
    pub fn new() -> (installer: OhMyPoshInstaller) {
        OhMyPoshInstaller {  }
    }

    /// The name by which plugins are matched to this installer.
    pub fn component_name(&self) -> (name: &'static str)
        ensures
            name@ == "oh-my-posh"@,
    {
        "oh-my-posh"
    }

    /// The command line that installs oh-my-posh.
    pub fn install_line(&self) -> (line: CommandLine)
        ensures
            line@ == (CommandLineView {
                program: "winget"@,
                arguments: seq!["install"@, "JanDeDobbeleer.OhMyPosh"@, "-s"@, "winget"@],
            }),
    {
        let mut arguments: Vec<&str> = Vec::new();
        arguments.push("install");
        arguments.push("JanDeDobbeleer.OhMyPosh");
        arguments.push("-s");
        arguments.push("winget");
        let line = CommandLine::new("winget", arguments);
        assert(line@.arguments =~= seq!["install"@, "JanDeDobbeleer.OhMyPosh"@, "-s"@, "winget"@]);
        line
    }

    /// The command line whose start shows that oh-my-posh is present.
    pub fn probe_line(&self) -> (line: CommandLine)
        ensures
            line@ == (CommandLineView { program: "oh-my-posh"@, arguments: seq!["version"@] }),
    {
        let mut arguments: Vec<&str> = Vec::new();
        arguments.push("version");
        let line = CommandLine::new("oh-my-posh", arguments);
        assert(line@.arguments =~= seq!["version"@]);
        line
    }

    /// The result of the installation, from what became of its process.
    pub fn install_result(&self, status: ProcessStatus) -> (result: Result<(), String>)
        ensures
            result is Ok == (status == ProcessStatus::Exited { success: true }),
            status is NotStarted ==> result is Err && result->Err_0@ == WINGET_NOT_STARTED@,
            status == (ProcessStatus::Exited { success: false }) ==> result is Err
                && result->Err_0@ == OH_MY_POSH_INSTALL_FAILED@,
    {
        installation_result(status, WINGET_NOT_STARTED, OH_MY_POSH_INSTALL_FAILED)
    }

    /// Whether oh-my-posh is present, from what became of the probe's process.
    pub fn is_installed(&self, status: ProcessStatus) -> (present: bool)
        ensures
            present == (status is Exited),
    {
        probe_result(status)
    }
}

impl Default for OhMyPoshInstaller {
    fn default() -> (installer: OhMyPoshInstaller) {
        OhMyPoshInstaller::new()
    }
}

} // verus!
