use pwsh_setup::cli::setup_cli::SetupCli;
use pwsh_setup::infrastructure::installers::font_installer::FontInstaller;
use pwsh_setup::infrastructure::installers::fzf_installer::FzfInstaller;
use pwsh_setup::infrastructure::installers::oh_my_posh_installer::OhMyPoshInstaller;
use pwsh_setup::infrastructure::installers::pwsh_installer::{
    PwshInstallAnswer, PwshInstallStage, NO_REDIRECT,
};
use pwsh_setup::infrastructure::shell::command_line::ProcessStatus;
use pwsh_setup::infrastructure::terminal::settings_json::TerminalConfigError;
use pwsh_setup::infrastructure::terminal::windows_terminal_config::{
    FontUpdate, FontUpdateAnswer, FontUpdateStage, WindowsTerminalConfig,
};
use pwsh_setup::infrastructure::text::{is_blank, trimmed_text};

fn location(text: &str) -> PwshInstallAnswer {
    PwshInstallAnswer::Location(Ok(text.to_string()))
}

fn downloaded(path: &str, result: Result<(), &str>) -> PwshInstallAnswer {
    PwshInstallAnswer::Downloaded {
        package_path: path.to_string(),
        result: result.map_err(|e| e.to_string()),
    }
}

fn exited(status: ProcessStatus, wording: &str) -> PwshInstallAnswer {
    PwshInstallAnswer::Exited { status, wording: wording.to_string() }
}

#[test]
fn pwsh_installation_walks_its_stages() {
    let stage = PwshInstallStage::start();
    assert_eq!(stage, PwshInstallStage::ResolvingRelease);
    assert_eq!(stage.result(), None);
    let stage = stage.step(location("https://github.com/PowerShell/PowerShell/releases/tag/v7.4.1"));
    assert_eq!(stage, PwshInstallStage::Downloading { tag: "v7.4.1".to_string() });
    let stage = stage.step(downloaded("C:\\T\\p.msi", Ok(())));
    assert_eq!(stage, PwshInstallStage::Installing { package_path: "C:\\T\\p.msi".to_string() });
    assert_eq!(stage.result(), None);
    let stage = stage.step(exited(ProcessStatus::Exited { success: true }, "exit code: 0"));
    assert_eq!(stage, PwshInstallStage::Done);
    assert_eq!(stage.result(), Some(Ok(())));
}

#[test]
fn pwsh_installation_stops_at_the_first_failure() {
    let stage = PwshInstallStage::start()
        .step(PwshInstallAnswer::Location(Err(NO_REDIRECT.to_string())));
    assert_eq!(stage, PwshInstallStage::Failed("No redirect location found".to_string()));
    assert_eq!(stage.result(), Some(Err("No redirect location found".to_string())));
    let stage = stage.step(downloaded("p", Ok(())));
    assert_eq!(stage, PwshInstallStage::Failed("No redirect location found".to_string()));

    let stage = PwshInstallStage::start().step(location("x/v1")).step(downloaded("p", Err("HTTP 404")));
    assert_eq!(stage, PwshInstallStage::Failed("HTTP 404".to_string()));
    let stage = stage.step(exited(ProcessStatus::Exited { success: true }, "0"));
    assert_eq!(stage, PwshInstallStage::Failed("HTTP 404".to_string()));

    let installing = || PwshInstallStage::start().step(location("x/v1")).step(downloaded("p", Ok(())));
    assert_eq!(
        installing().step(exited(ProcessStatus::Exited { success: false }, "exit code: 1603")),
        PwshInstallStage::Failed("Installation failed with status: exit code: 1603".to_string())
    );
    assert_eq!(
        installing().step(exited(ProcessStatus::NotStarted, "program not found")),
        PwshInstallStage::Failed("program not found".to_string())
    );
}

#[test]
fn pwsh_installation_ignores_what_it_does_not_wait_for() {
    let start = PwshInstallStage::start();
    assert_eq!(start.clone().step(downloaded("p", Ok(()))), start);
    assert_eq!(start.clone().step(exited(ProcessStatus::NotStarted, "x")), start);
    let downloading = start.step(location("v2"));
    assert_eq!(downloading, PwshInstallStage::Downloading { tag: "v2".to_string() });
    assert_eq!(downloading.clone().step(location("v3")), downloading);
    assert_eq!(PwshInstallStage::Done.step(location("v3")), PwshInstallStage::Done);
}

fn content(text: &str) -> FontUpdateAnswer {
    FontUpdateAnswer::Content(Some(text.to_string()))
}

#[test]
fn font_update_passes_over_missing_files_and_updates_the_rest() {
    let mut update = FontUpdate::start("Hack", 3);
    assert_eq!(*update.stage(), FontUpdateStage::Checking { position: 0 });
    assert_eq!(update.result(), None);
    update.step(FontUpdateAnswer::Exists(false));
    assert_eq!(*update.stage(), FontUpdateStage::Checking { position: 1 });
    update.step(FontUpdateAnswer::Exists(true));
    assert_eq!(*update.stage(), FontUpdateStage::Reading { position: 1 });
    update.step(content(r#"{"profiles":{}}"#));
    assert_eq!(
        *update.stage(),
        FontUpdateStage::Writing {
            position: 1,
            text: "{\n  \"profiles\": {\n    \"defaults\": {\n      \"font\": {\n        \"face\": \"Hack\"\n      }\n    }\n  }\n}"
                .to_string(),
        }
    );
    update.step(FontUpdateAnswer::Written(true));
    assert_eq!(*update.stage(), FontUpdateStage::Checking { position: 2 });
    update.step(FontUpdateAnswer::Exists(false));
    assert_eq!(*update.stage(), FontUpdateStage::Done);
    assert_eq!(update.result(), Some(Ok(())));
    update.step(FontUpdateAnswer::Exists(true));
    assert_eq!(*update.stage(), FontUpdateStage::Done);
}

#[test]
fn font_update_without_a_file_is_not_found() {
    let mut update = FontUpdate::start("Hack", 2);
    update.step(FontUpdateAnswer::Exists(false));
    update.step(FontUpdateAnswer::Exists(false));
    assert_eq!(update.result(), Some(Err(TerminalConfigError::NotFound)));
    let none = FontUpdate::start("Hack", 0);
    assert_eq!(*none.stage(), FontUpdateStage::Failed(TerminalConfigError::NotFound));
}

#[test]
fn font_update_stops_at_the_first_failure() {
    let mut update = FontUpdate::start("Hack", 3);
    update.step(FontUpdateAnswer::Exists(true));
    update.step(FontUpdateAnswer::Content(None));
    assert_eq!(update.result(), Some(Err(TerminalConfigError::Read)));
    update.step(FontUpdateAnswer::Exists(true));
    assert_eq!(update.result(), Some(Err(TerminalConfigError::Read)));

    let mut update = FontUpdate::start("Hack", 3);
    update.step(FontUpdateAnswer::Exists(true));
    update.step(content("{ no json"));
    assert_eq!(update.result(), Some(Err(TerminalConfigError::Parse)));

    let mut update = FontUpdate::start("Hack", 3);
    update.step(FontUpdateAnswer::Exists(true));
    update.step(content("{}"));
    update.step(FontUpdateAnswer::Written(true));
    update.step(FontUpdateAnswer::Exists(true));
    update.step(content("[]"));
    update.step(FontUpdateAnswer::Written(false));
    assert_eq!(update.result(), Some(Err(TerminalConfigError::Write)));
}

#[test]
fn font_update_ignores_what_it_does_not_wait_for() {
    let mut update = FontUpdate::start("Hack", 1);
    update.step(FontUpdateAnswer::Written(true));
    update.step(content("{}"));
    assert_eq!(*update.stage(), FontUpdateStage::Checking { position: 0 });
    update.step(FontUpdateAnswer::Exists(true));
    update.step(FontUpdateAnswer::Exists(false));
    update.step(FontUpdateAnswer::Written(true));
    assert_eq!(*update.stage(), FontUpdateStage::Reading { position: 0 });
}

#[test]
fn defaults_are_the_plain_constructors() {
    let _cli: SetupCli = Default::default();
    let _fzf: FzfInstaller = Default::default();
    let _terminal: WindowsTerminalConfig = Default::default();
    assert_eq!(OhMyPoshInstaller::default().component_name(), "oh-my-posh");
    assert_eq!(
        FontInstaller::default().install_line(),
        FontInstaller::meslo().install_line()
    );
    assert_eq!(FontInstaller::default().install_line().arguments[2], "meslo");
}

#[test]
fn whitespace_is_the_unicode_property() {
    let spaces = [
        '\u{9}', '\u{a}', '\u{b}', '\u{c}', '\u{d}', ' ', '\u{85}', '\u{a0}', '\u{1680}',
        '\u{2000}', '\u{2005}', '\u{200a}', '\u{2028}', '\u{2029}', '\u{202f}', '\u{205f}',
        '\u{3000}',
    ];
    for space in spaces {
        assert!(space.is_whitespace());
        assert!(is_blank(&space.to_string()));
        assert_eq!(trimmed_text(&format!("{}x{}", space, space)), "x");
    }
    let others = ['\u{8}', '\u{e}', '\u{1f}', '\u{180e}', '\u{200b}', '\u{2060}', '\u{feff}', 'x'];
    for other in others {
        assert!(!other.is_whitespace());
        assert!(!is_blank(&other.to_string()));
        assert_eq!(trimmed_text(&format!(" {} ", other)), other.to_string());
    }
    let mut count = 0;
    for code in 0..=0x10ffff_u32 {
        if let Some(c) = char::from_u32(code) {
            if c.is_whitespace() {
                count += 1;
                assert!(spaces.contains(&c) || ('\u{2000}'..='\u{200a}').contains(&c));
            }
        }
    }
    assert_eq!(count, 25);
}
