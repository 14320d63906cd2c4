use std::cell::RefCell;

use pwsh_setup::application::setup_run::{
    FatalSetupError, FontOutcome, PluginOutcome, TerminalOutcome,
};
use pwsh_setup::application::setup_run::TERMINAL_FONT;
use pwsh_setup::domain::entities::profile::ProfileConfig;
use pwsh_setup::domain::interfaces::installer::Installer;
use pwsh_setup::domain::interfaces::profile_writer::ProfileWriter;
use pwsh_setup::domain::interfaces::shell::ShellRunner;
use pwsh_setup::domain::interfaces::terminal_config::TerminalConfigurator;
use pwsh_setup::generate_profile_content;
use pwsh_setup::SetupService;

type Log = RefCell<Vec<String>>;

struct FakeInstaller<'a> {
    name: &'static str,
    installed: bool,
    fails: bool,
    log: &'a Log,
}

impl<'a> Installer for FakeInstaller<'a> {
    fn install(&self) -> Result<(), String> {
        self.log.borrow_mut().push(format!("install {}", self.name));
        if self.fails {
            Err(format!("{} broke", self.name))
        } else {
            Ok(())
        }
    }

    fn is_installed(&self) -> bool {
        self.log.borrow_mut().push(format!("probe {}", self.name));
        self.installed
    }

    fn component_name(&self) -> &str {
        self.name
    }
}

struct FakeShell;

impl ShellRunner for FakeShell {
    fn run(&self, _cmd: &str) -> Result<String, String> {
        Ok(String::new())
    }

    fn command_exists(&self, _command: &str) -> bool {
        true
    }

    fn shell_name(&self) -> &str {
        "pwsh"
    }
}

struct FakeTerminal<'a> {
    supported: bool,
    fails: bool,
    log: &'a Log,
}

impl<'a> TerminalConfigurator for FakeTerminal<'a> {
    fn configure_font(&self, font_name: &str) -> Result<(), String> {
        self.log.borrow_mut().push(format!("configure {}", font_name));
        if self.fails {
            Err("settings locked".to_string())
        } else {
            Ok(())
        }
    }

    fn is_supported(&self) -> bool {
        self.log.borrow_mut().push("supported?".to_string());
        self.supported
    }
}

struct FakeWriter<'a> {
    path: Result<String, String>,
    write_fails: bool,
    written: RefCell<Vec<(String, String)>>,
    log: &'a Log,
}

impl<'a> ProfileWriter for FakeWriter<'a> {
    fn write(&self, path: &str, content: &str) -> Result<(), String> {
        self.log.borrow_mut().push(format!("write {}", path));
        if self.write_fails {
            return Err("disk full".to_string());
        }
        self.written.borrow_mut().push((path.to_string(), content.to_string()));
        Ok(())
    }

    fn get_profile_path(&self) -> Result<String, String> {
        self.log.borrow_mut().push("path?".to_string());
        self.path.clone()
    }
}

fn names(list: &[&str]) -> Vec<String> {
    list.iter().map(|s| s.to_string()).collect()
}

fn writer(log: &Log) -> FakeWriter<'_> {
    FakeWriter {
        path: Ok("C:\\Users\\me\\profile.ps1".to_string()),
        write_fails: false,
        written: RefCell::new(Vec::new()),
        log,
    }
}

fn installer<'a>(name: &'static str, installed: bool, fails: bool, log: &'a Log) -> FakeInstaller<'a> {
    FakeInstaller { name, installed, fails, log }
}

fn logged(log: &Log) -> Vec<String> {
    log.borrow().clone()
}

#[test]
fn full_run_installs_in_order_and_writes_profile() {
    let log = Log::default();
    let shell = FakeShell;
    let pwsh = installer("PowerShell 7", true, false, &log);
    let font = installer("Meslo Nerd Font", false, false, &log);
    let terminal = FakeTerminal { supported: true, fails: false, log: &log };
    let store = writer(&log);
    let readline = installer("PSReadLine", true, false, &log);
    let git = installer("posh-git", false, false, &log);
    let modules: Vec<&dyn Installer> = vec![&readline, &git];
    let service = SetupService::new(&shell, &pwsh, &font, &terminal, &store, modules);
    let config = ProfileConfig::new("pure".to_string(), names(&["PSReadLine", "posh-git"]))
        .with_include_aliases(false);

    let report = service.run_setup(&config).unwrap();

    assert_eq!(report.font, FontOutcome::Installed);
    assert_eq!(report.terminal, TerminalOutcome::Configured);
    assert_eq!(report.plugins, vec![PluginOutcome::AlreadyInstalled, PluginOutcome::Installed]);
    assert_eq!(report.profile_path, "C:\\Users\\me\\profile.ps1");
    assert_eq!(
        logged(&log),
        vec![
            "probe Meslo Nerd Font",
            "install Meslo Nerd Font",
            "supported?",
            "configure MesloLGM Nerd Font",
            "probe PSReadLine",
            "probe posh-git",
            "install posh-git",
            "path?",
            "write C:\\Users\\me\\profile.ps1",
        ]
    );
    let written = store.written.borrow();
    assert_eq!(written.len(), 1);
    assert_eq!(written[0].0, "C:\\Users\\me\\profile.ps1");
    assert_eq!(written[0].1, generate_profile_content("pure", &config.plugins, false));
    assert_eq!(TERMINAL_FONT, "MesloLGM Nerd Font");
}

#[test]
fn present_components_are_never_installed() {
    let log = Log::default();
    let shell = FakeShell;
    let pwsh = installer("PowerShell 7", true, false, &log);
    let font = installer("Meslo Nerd Font", true, true, &log);
    let terminal = FakeTerminal { supported: false, fails: false, log: &log };
    let store = writer(&log);
    let readline = installer("PSReadLine", true, true, &log);
    let icons = installer("Terminal-Icons", true, true, &log);
    let modules: Vec<&dyn Installer> = vec![&readline, &icons];
    let service = SetupService::new(&shell, &pwsh, &font, &terminal, &store, modules);
    let config = ProfileConfig::new("pure".to_string(), names(&["PSReadLine", "Terminal-Icons"]));

    let report = service.run_setup(&config).unwrap();

    assert_eq!(report.font, FontOutcome::AlreadyInstalled);
    assert_eq!(report.terminal, TerminalOutcome::Unsupported);
    assert_eq!(
        report.plugins,
        vec![PluginOutcome::AlreadyInstalled, PluginOutcome::AlreadyInstalled]
    );
    assert!(logged(&log).iter().all(|entry| !entry.starts_with("install")));
    assert!(logged(&log).iter().all(|entry| !entry.starts_with("configure")));
}

#[test]
fn unmatched_plugin_is_skipped_and_batch_continues() {
    let log = Log::default();
    let shell = FakeShell;
    let pwsh = installer("PowerShell 7", true, false, &log);
    let font = installer("Meslo Nerd Font", true, false, &log);
    let terminal = FakeTerminal { supported: false, fails: false, log: &log };
    let store = writer(&log);
    let z = installer("z", false, false, &log);
    let modules: Vec<&dyn Installer> = vec![&z];
    let service = SetupService::new(&shell, &pwsh, &font, &terminal, &store, modules);
    let config = ProfileConfig::new("pure".to_string(), names(&["unknown", "Z", "z", "other"]));

    let report = service.run_setup(&config).unwrap();

    assert_eq!(
        report.plugins,
        vec![
            PluginOutcome::Skipped,
            PluginOutcome::Skipped,
            PluginOutcome::Installed,
            PluginOutcome::Skipped,
        ]
    );
    assert_eq!(
        logged(&log),
        vec![
            "probe Meslo Nerd Font",
            "supported?",
            "probe z",
            "install z",
            "path?",
            "write C:\\Users\\me\\profile.ps1",
        ]
    );
}

#[test]
fn failing_plugin_does_not_stop_later_plugins_or_the_profile() {
    let log = Log::default();
    let shell = FakeShell;
    let pwsh = installer("PowerShell 7", true, false, &log);
    let font = installer("Meslo Nerd Font", true, false, &log);
    let terminal = FakeTerminal { supported: false, fails: false, log: &log };
    let store = writer(&log);
    let git = installer("posh-git", false, true, &log);
    let z = installer("z", false, false, &log);
    let modules: Vec<&dyn Installer> = vec![&git, &z];
    let service = SetupService::new(&shell, &pwsh, &font, &terminal, &store, modules);
    let config = ProfileConfig::new("pure".to_string(), names(&["posh-git", "z"]));

    let report = service.run_setup(&config).unwrap();

    assert_eq!(
        report.plugins,
        vec![PluginOutcome::Warned("posh-git broke".to_string()), PluginOutcome::Installed]
    );
    let entries = logged(&log);
    assert!(entries.contains(&"install z".to_string()));
    assert!(entries.contains(&"write C:\\Users\\me\\profile.ps1".to_string()));
    assert_eq!(store.written.borrow().len(), 1);
}

#[test]
fn failing_core_installer_prevents_the_profile_write() {
    let log = Log::default();
    let shell = FakeShell;
    let pwsh = installer("PowerShell 7", true, false, &log);
    let font = installer("Meslo Nerd Font", false, true, &log);
    let terminal = FakeTerminal { supported: true, fails: false, log: &log };
    let store = writer(&log);
    let z = installer("z", false, false, &log);
    let modules: Vec<&dyn Installer> = vec![&z];
    let service = SetupService::new(&shell, &pwsh, &font, &terminal, &store, modules);
    let config = ProfileConfig::new("pure".to_string(), names(&["z"]));

    let result = service.run_setup(&config);

    assert_eq!(result, Err(FatalSetupError::CoreInstall("Meslo Nerd Font broke".to_string())));
    assert_eq!(logged(&log), vec!["probe Meslo Nerd Font", "install Meslo Nerd Font"]);
    assert!(store.written.borrow().is_empty());
}

#[test]
fn failing_dependency_installer_warns_once_and_dependent_is_still_attempted() {
    let log = Log::default();
    let shell = FakeShell;
    let pwsh = installer("PowerShell 7", true, false, &log);
    let font = installer("Meslo Nerd Font", true, false, &log);
    let terminal = FakeTerminal { supported: false, fails: false, log: &log };
    let store = writer(&log);
    let fzf = installer("fzf", false, true, &log);
    let psfzf = installer("PSFzf", false, false, &log);
    let modules: Vec<&dyn Installer> = vec![&fzf, &psfzf];
    let service = SetupService::new(&shell, &pwsh, &font, &terminal, &store, modules);
    let config = ProfileConfig::new("paradox".to_string(), names(&["fzf", "PSFzf"]));

    let report = service.run_setup(&config).unwrap();

    let warnings = report.plugins.iter().filter(|o| matches!(o, PluginOutcome::Warned(_))).count();
    assert_eq!(warnings, 1);
    assert_eq!(
        report.plugins,
        vec![PluginOutcome::Warned("fzf broke".to_string()), PluginOutcome::Installed]
    );
    let entries = logged(&log);
    assert!(entries.contains(&"install fzf".to_string()));
    assert!(entries.contains(&"install PSFzf".to_string()));
}

#[test]
fn terminal_failure_is_only_a_warning() {
    let log = Log::default();
    let shell = FakeShell;
    let pwsh = installer("PowerShell 7", true, false, &log);
    let font = installer("Meslo Nerd Font", true, false, &log);
    let terminal = FakeTerminal { supported: true, fails: true, log: &log };
    let store = writer(&log);
    let modules: Vec<&dyn Installer> = vec![];
    let service = SetupService::new(&shell, &pwsh, &font, &terminal, &store, modules);
    let config = ProfileConfig::new("pure".to_string(), names(&[]));

    let report = service.run_setup(&config).unwrap();

    assert_eq!(report.terminal, TerminalOutcome::Warned("settings locked".to_string()));
    assert!(report.plugins.is_empty());
    assert_eq!(store.written.borrow().len(), 1);
}

#[test]
fn profile_path_failure_is_fatal() {
    let log = Log::default();
    let shell = FakeShell;
    let pwsh = installer("PowerShell 7", true, false, &log);
    let font = installer("Meslo Nerd Font", true, false, &log);
    let terminal = FakeTerminal { supported: false, fails: false, log: &log };
    let mut store = writer(&log);
    store.path = Err("no shell".to_string());
    let modules: Vec<&dyn Installer> = vec![];
    let service = SetupService::new(&shell, &pwsh, &font, &terminal, &store, modules);
    let config = ProfileConfig::new("pure".to_string(), names(&[]));

    let result = service.run_setup(&config);

    assert_eq!(result, Err(FatalSetupError::ProfilePath("no shell".to_string())));
    assert!(logged(&log).iter().all(|entry| !entry.starts_with("write")));
}

#[test]
fn profile_write_failure_is_fatal() {
    let log = Log::default();
    let shell = FakeShell;
    let pwsh = installer("PowerShell 7", true, false, &log);
    let font = installer("Meslo Nerd Font", true, false, &log);
    let terminal = FakeTerminal { supported: false, fails: false, log: &log };
    let mut store = writer(&log);
    store.write_fails = true;
    let modules: Vec<&dyn Installer> = vec![];
    let service = SetupService::new(&shell, &pwsh, &font, &terminal, &store, modules);
    let config = ProfileConfig::new("pure".to_string(), names(&[]));

    let result = service.run_setup(&config);

    assert_eq!(result, Err(FatalSetupError::ProfileWrite("disk full".to_string())));
}

#[test]
fn first_installer_of_a_name_serves_it() {
    let log = Log::default();
    let shell = FakeShell;
    let pwsh = installer("PowerShell 7", true, false, &log);
    let font = installer("Meslo Nerd Font", true, false, &log);
    let terminal = FakeTerminal { supported: false, fails: false, log: &log };
    let store = writer(&log);
    let first = installer("z", true, false, &log);
    let second = installer("z", false, true, &log);
    let modules: Vec<&dyn Installer> = vec![&first, &second];
    let service = SetupService::new(&shell, &pwsh, &font, &terminal, &store, modules);
    let config = ProfileConfig::new("pure".to_string(), names(&["z"]));

    let report = service.run_setup(&config).unwrap();

    assert_eq!(report.plugins, vec![PluginOutcome::AlreadyInstalled]);
    assert_eq!(logged(&log).iter().filter(|e| e.as_str() == "probe z").count(), 1);
}

#[test]
fn service_generates_the_same_text_as_the_generator() {
    let log = Log::default();
    let shell = FakeShell;
    let pwsh = installer("PowerShell 7", true, false, &log);
    let font = installer("Meslo Nerd Font", true, false, &log);
    let terminal = FakeTerminal { supported: false, fails: false, log: &log };
    let store = writer(&log);
    let service = SetupService::new(&shell, &pwsh, &font, &terminal, &store, vec![]);
    let config = ProfileConfig::new("tokyo".to_string(), names(&["z", "posh-git"]));
    assert_eq!(
        service.generate_profile_content(&config),
        generate_profile_content("tokyo", &config.plugins, true)
    );
    assert_eq!(service.installer_names(), Vec::<String>::new());
}
