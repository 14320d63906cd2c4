use pwsh_setup::domain::interfaces::downloader::Downloader;
use pwsh_setup::domain::interfaces::installer::Installer;
use pwsh_setup::domain::interfaces::shell::ShellRunner;
use pwsh_setup::infrastructure::filesystem::profile_fs_writer::{ProfileFsWriter, WriteStatus};
use pwsh_setup::infrastructure::installers::font_installer::FontInstaller;
use pwsh_setup::infrastructure::installers::fzf_installer::FzfInstaller;
use pwsh_setup::infrastructure::installers::module_installer::ModuleInstaller;
use pwsh_setup::infrastructure::installers::oh_my_posh_installer::OhMyPoshInstaller;
use pwsh_setup::infrastructure::installers::pwsh_installer::{PwshInstaller, GITHUB_RELEASES};
use pwsh_setup::infrastructure::network::http_status::{accepts, status_result};
use pwsh_setup::infrastructure::shell::command_line::{
    installation_result, probe_result, CommandLine, ProcessStatus,
};
use pwsh_setup::infrastructure::shell::powershell_runner::PowerShellRunner;
use pwsh_setup::infrastructure::terminal::windows_terminal_config::WindowsTerminalConfig;
use pwsh_setup::infrastructure::text::{is_blank, last_segment, strip_leading, trimmed_text};
use std::cell::RefCell;

fn names(list: &[&str]) -> Vec<String> {
    list.iter().map(|s| s.to_string()).collect()
}

fn line(program: &str, arguments: &[&str]) -> CommandLine {
    CommandLine { program: program.to_string(), arguments: names(arguments) }
}

struct ScriptedShell {
    answer: Result<String, String>,
    commands: RefCell<Vec<String>>,
}

impl ScriptedShell {
    fn answering(answer: Result<&str, &str>) -> ScriptedShell {
        ScriptedShell {
            answer: answer.map(|s| s.to_string()).map_err(|s| s.to_string()),
            commands: RefCell::new(Vec::new()),
        }
    }
}

impl ShellRunner for ScriptedShell {
    fn run(&self, cmd: &str) -> Result<String, String> {
        self.commands.borrow_mut().push(cmd.to_string());
        self.answer.clone()
    }

    fn command_exists(&self, _command: &str) -> bool {
        false
    }

    fn shell_name(&self) -> &str {
        "pwsh"
    }
}

struct RecordingDownloader {
    calls: RefCell<Vec<(String, String)>>,
    result: Result<(), String>,
}

impl Downloader for RecordingDownloader {
    fn download(&self, url: &str, path: &str) -> Result<(), String> {
        self.calls.borrow_mut().push((url.to_string(), path.to_string()));
        self.result.clone()
    }
}

#[test]
fn test_shell_name() {
    let runner = PowerShellRunner::pwsh();
    assert_eq!(runner.shell_name(), "pwsh");

    let runner = PowerShellRunner::powershell();
    assert_eq!(runner.shell_name(), "powershell");
}

#[test]
fn test_component_name() {
    let shell = PowerShellRunnerShell(PowerShellRunner::pwsh());
    let installer = ModuleInstaller::new("TestModule", &shell);
    assert_eq!(installer.component_name(), "TestModule");
}

struct PowerShellRunnerShell(PowerShellRunner);

impl ShellRunner for PowerShellRunnerShell {
    fn run(&self, _cmd: &str) -> Result<String, String> {
        Err("not run in tests".to_string())
    }

    fn command_exists(&self, _command: &str) -> bool {
        false
    }

    fn shell_name(&self) -> &str {
        self.0.shell_name()
    }
}

#[test]
fn test_profile_writer_creation() {
    let shell = PowerShellRunnerShell(PowerShellRunner::pwsh());
    let writer = ProfileFsWriter::new(&shell);
    assert!(std::mem::size_of_val(&writer) > 0);
}

#[test]
fn runner_new_selects_the_shell() {
    assert_eq!(PowerShellRunner::new(true).shell_name(), "pwsh");
    assert_eq!(PowerShellRunner::new(false).shell_name(), "powershell");
}

#[test]
fn runner_command_lines() {
    let runner = PowerShellRunner::pwsh();
    assert_eq!(runner.command_line("Get-Date"), line("pwsh", &["-Command", "Get-Date"]));
    assert_eq!(
        PowerShellRunner::powershell().command_line("$PROFILE"),
        line("powershell", &["-Command", "$PROFILE"])
    );
    assert_eq!(PowerShellRunner::probe_line("winget"), line("winget", &["-Version"]));
}

#[test]
fn runner_interprets_output() {
    let ok = ProcessStatus::Exited { success: true };
    let failed = ProcessStatus::Exited { success: false };
    assert_eq!(
        PowerShellRunner::interpret(ok, b"  C:\\profile.ps1\r\n", b"ignored"),
        Ok("C:\\profile.ps1".to_string())
    );
    assert_eq!(
        PowerShellRunner::interpret(failed, b"out", b"boom\n"),
        Err("Command failed: boom\n".to_string())
    );
    assert_eq!(
        PowerShellRunner::interpret(ProcessStatus::NotStarted, b"", b""),
        Err("Failed to execute PowerShell command".to_string())
    );
    assert_eq!(PowerShellRunner::interpret(ok, &[0x61, 0xff, 0x62], b""), Ok("a\u{fffd}b".to_string()));
}

#[test]
fn text_helpers() {
    assert_eq!(trimmed_text("  a b \n"), "a b");
    assert_eq!(trimmed_text("\u{2003}x\u{a0}"), "x");
    assert_eq!(trimmed_text(" \t\r\n"), "");
    assert_eq!(trimmed_text(""), "");
    assert!(is_blank(" \n\t"));
    assert!(is_blank(""));
    assert!(!is_blank(" . "));
    assert_eq!(last_segment("a/b/c", '/'), "c");
    assert_eq!(last_segment("abc", '/'), "abc");
    assert_eq!(last_segment("abc/", '/'), "");
    assert_eq!(last_segment("", '/'), "");
    assert_eq!(strip_leading("v7.4.1", 'v'), "7.4.1");
    assert_eq!(strip_leading("7.4.1", 'v'), "7.4.1");
    assert_eq!(strip_leading("vv1", 'v'), "v1");
    assert_eq!(strip_leading("", 'v'), "");
}

#[test]
fn process_results() {
    let ok = ProcessStatus::Exited { success: true };
    let failed = ProcessStatus::Exited { success: false };
    assert_eq!(installation_result(ok, "a", "b"), Ok(()));
    assert_eq!(installation_result(failed, "a", "b"), Err("b".to_string()));
    assert_eq!(installation_result(ProcessStatus::NotStarted, "a", "b"), Err("a".to_string()));
    assert!(probe_result(ok));
    assert!(probe_result(failed));
    assert!(!probe_result(ProcessStatus::NotStarted));
}

#[test]
fn fzf_installer_commands() {
    let installer = FzfInstaller::new();
    assert_eq!(installer.component_name(), "fzf");
    assert_eq!(
        installer.install_line(),
        line("winget", &["install", "fzf", "-s", "winget", "--accept-source-agreements"])
    );
    assert_eq!(installer.probe_line(), line("fzf", &["--version"]));
    assert_eq!(installer.install_result(ProcessStatus::Exited { success: true }), Ok(()));
    assert_eq!(
        installer.install_result(ProcessStatus::Exited { success: false }),
        Err("winget install fzf failed".to_string())
    );
    assert_eq!(
        installer.install_result(ProcessStatus::NotStarted),
        Err("Failed to execute winget".to_string())
    );
    assert!(installer.is_installed(ProcessStatus::Exited { success: false }));
    assert!(!installer.is_installed(ProcessStatus::NotStarted));
}

#[test]
fn oh_my_posh_installer_commands() {
    let installer = OhMyPoshInstaller::new();
    assert_eq!(installer.component_name(), "oh-my-posh");
    assert_eq!(
        installer.install_line(),
        line("winget", &["install", "JanDeDobbeleer.OhMyPosh", "-s", "winget"])
    );
    assert_eq!(installer.probe_line(), line("oh-my-posh", &["version"]));
    assert_eq!(
        installer.install_result(ProcessStatus::Exited { success: false }),
        Err("winget install oh-my-posh failed".to_string())
    );
    assert_eq!(
        installer.install_result(ProcessStatus::NotStarted),
        Err("Failed to execute winget".to_string())
    );
    assert_eq!(installer.install_result(ProcessStatus::Exited { success: true }), Ok(()));
    assert!(installer.is_installed(ProcessStatus::Exited { success: true }));
    assert!(!installer.is_installed(ProcessStatus::NotStarted));
}

#[test]
fn font_installer_commands_and_probe() {
    let installer = FontInstaller::meslo();
    assert_eq!(installer.component_name(), "Meslo Nerd Font");
    assert_eq!(installer.install_line(), line("oh-my-posh", &["font", "install", "meslo"]));
    assert_eq!(
        FontInstaller::new("hack").install_line(),
        line("oh-my-posh", &["font", "install", "hack"])
    );
    assert_eq!(
        installer.install_result(ProcessStatus::Exited { success: false }),
        Err("oh-my-posh font install failed".to_string())
    );
    assert_eq!(
        installer.install_result(ProcessStatus::NotStarted),
        Err("Failed to execute oh-my-posh font install".to_string())
    );
    assert_eq!(installer.install_result(ProcessStatus::Exited { success: true }), Ok(()));
    assert!(installer.is_installed(&names(&["arial.ttf", "MesloLGMNerdFont-Regular.ttf"])));
    assert!(installer.is_installed(&names(&["xMeslo.ttf"])));
    assert!(!installer.is_installed(&names(&["meslo.ttf", "MESLO.ttf", "Mesl"])));
    assert!(!installer.is_installed(&names(&[])));
}

#[test]
fn module_installer_runs_its_commands() {
    let shell = ScriptedShell::answering(Ok("ModuleType Version Name\n"));
    let installer = ModuleInstaller::new("posh-git", &shell);
    assert_eq!(
        installer.install_command(),
        "Install-Module posh-git -Force -Scope CurrentUser -AllowClobber"
    );
    assert_eq!(installer.probe_command(), "Get-Module -ListAvailable -Name posh-git");
    assert!(installer.is_installed());
    assert_eq!(installer.install(), Ok(()));
    assert_eq!(
        *shell.commands.borrow(),
        vec![
            "Get-Module -ListAvailable -Name posh-git".to_string(),
            "Install-Module posh-git -Force -Scope CurrentUser -AllowClobber".to_string(),
        ]
    );
}

#[test]
fn module_probe_degrades_to_absent() {
    let blank = ScriptedShell::answering(Ok("  \r\n"));
    assert!(!ModuleInstaller::new("z", &blank).is_installed());
    let empty = ScriptedShell::answering(Ok(""));
    assert!(!ModuleInstaller::new("z", &empty).is_installed());
    let failing = ScriptedShell::answering(Err("no shell"));
    let installer = ModuleInstaller::new("z", &failing);
    assert!(!installer.is_installed());
    assert_eq!(installer.install(), Err("no shell".to_string()));
    assert!(ModuleInstaller::probe_answer(&Ok("x".to_string())));
    assert!(!ModuleInstaller::probe_answer(&Err("x".to_string())));
    assert_eq!(ModuleInstaller::install_answer(Ok("anything".to_string())), Ok(()));
}

#[test]
fn pwsh_installer_release_names() {
    assert_eq!(GITHUB_RELEASES, "https://github.com/PowerShell/PowerShell/releases/latest");
    let location = "https://github.com/PowerShell/PowerShell/releases/tag/v7.4.1";
    assert_eq!(PwshInstaller::release_tag(location), "v7.4.1");
    assert_eq!(PwshInstaller::package_name("v7.4.1"), "PowerShell-7.4.1-win-x64.msi");
    assert_eq!(PwshInstaller::package_name("7.4.1"), "PowerShell-7.4.1-win-x64.msi");
    assert_eq!(
        PwshInstaller::package_url("v7.4.1"),
        "https://github.com/PowerShell/PowerShell/releases/download/v7.4.1/PowerShell-7.4.1-win-x64.msi"
    );
    assert_eq!(
        PwshInstaller::install_line("C:\\Temp\\p.msi"),
        line("msiexec", &["/i", "C:\\Temp\\p.msi", "/quiet", "/norestart"])
    );
    assert_eq!(PwshInstaller::install_result(ProcessStatus::Exited { success: true }, "0"), Ok(()));
    assert_eq!(
        PwshInstaller::install_result(ProcessStatus::Exited { success: false }, "exit code: 1603"),
        Err("Installation failed with status: exit code: 1603".to_string())
    );
    assert_eq!(
        PwshInstaller::install_result(ProcessStatus::NotStarted, "not found"),
        Err("not found".to_string())
    );
}

#[test]
fn pwsh_installer_downloads_the_package() {
    let downloader = RecordingDownloader { calls: RefCell::new(Vec::new()), result: Ok(()) };
    let installer = PwshInstaller::new(&downloader);
    assert_eq!(installer.component_name(), "PowerShell 7");
    assert_eq!(installer.probe_line(), line("pwsh", &["-Version"]));
    assert!(installer.is_installed(ProcessStatus::Exited { success: false }));
    assert!(!installer.is_installed(ProcessStatus::NotStarted));
    assert_eq!(installer.download_package("v7.5.0", "C:\\Temp\\x.msi"), Ok(()));
    assert_eq!(
        *downloader.calls.borrow(),
        vec![(
            "https://github.com/PowerShell/PowerShell/releases/download/v7.5.0/PowerShell-7.5.0-win-x64.msi"
                .to_string(),
            "C:\\Temp\\x.msi".to_string()
        )]
    );
    let failing =
        RecordingDownloader { calls: RefCell::new(Vec::new()), result: Err("HTTP 404".to_string()) };
    assert_eq!(
        PwshInstaller::new(&failing).download_package("v1", "p"),
        Err("HTTP 404".to_string())
    );
}

#[test]
fn profile_writer_resolves_and_trims() {
    let shell = ScriptedShell::answering(Ok("  C:\\Users\\me\\Documents\\profile.ps1 \r\n"));
    let writer = ProfileFsWriter::new(&shell);
    assert_eq!(writer.get_profile_path(), Ok("C:\\Users\\me\\Documents\\profile.ps1".to_string()));
    assert_eq!(*shell.commands.borrow(), vec!["$PROFILE".to_string()]);
    let failing = ScriptedShell::answering(Err("no shell"));
    assert_eq!(ProfileFsWriter::new(&failing).get_profile_path(), Err("no shell".to_string()));
    assert_eq!(ProfileFsWriter::persisted_text("\n# a\n$b = 1\n\n"), "# a\n$b = 1");
    assert_eq!(ProfileFsWriter::profile_path(Ok(" p ".to_string())), Ok("p".to_string()));
    assert_eq!(ProfileFsWriter::write_result(WriteStatus::Written), Ok(()));
    assert_eq!(
        ProfileFsWriter::write_result(WriteStatus::DirectoryNotCreated),
        Err("Failed to create profile directory".to_string())
    );
    assert_eq!(
        ProfileFsWriter::write_result(WriteStatus::NotWritten),
        Err("Failed to write profile".to_string())
    );
}

#[test]
fn persisted_profile_ends_with_environment_line() {
    let text = pwsh_setup::generate_profile_content("pure", &names(&["PSReadLine"]), false);
    let persisted = ProfileFsWriter::persisted_text(&text);
    assert!(persisted.starts_with("# ==========================="));
    assert!(persisted.ends_with("$env:POSH_GIT_ENABLED = $true"));
    assert_eq!(persisted.len() + 1, text.len());
}

#[test]
fn download_status_check() {
    assert!(accepts(200));
    assert!(accepts(204));
    assert!(accepts(299));
    assert!(!accepts(199));
    assert!(!accepts(300));
    assert!(!accepts(302));
    assert!(!accepts(404));
    assert!(!accepts(0));
    assert!(!accepts(u16::MAX));
    assert_eq!(status_result(200, "200 OK"), Ok(()));
    assert_eq!(
        status_result(404, "404 Not Found"),
        Err("Failed to download: HTTP 404 Not Found".to_string())
    );
}

#[test]
fn terminal_settings_paths() {
    let paths = WindowsTerminalConfig::get_settings_paths(Some("C:\\Users\\me\\AppData\\Local"));
    assert_eq!(
        paths,
        vec![
            "C:\\Users\\me\\AppData\\Local\\Packages\\Microsoft.WindowsTerminal_8wekyb3d8bbwe\\LocalState\\settings.json",
            "C:\\Users\\me\\AppData\\Local\\Packages\\Microsoft.WindowsTerminalPreview_8wekyb3d8bbwe\\LocalState\\settings.json",
            "C:\\Users\\me\\AppData\\Local\\Microsoft\\Windows Terminal\\settings.json",
        ]
    );
    assert!(WindowsTerminalConfig::get_settings_paths(None).is_empty());
    let config = WindowsTerminalConfig::new();
    assert!(config.is_supported(&vec![false, true, false]));
    assert!(!config.is_supported(&vec![false, false, false]));
    assert!(!config.is_supported(&vec![]));
}
