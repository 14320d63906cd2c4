use pwsh_setup::application::shell_selection::{ShellAnswer, ShellSelection, NO_SHELL};
use pwsh_setup::application::setup_summary::{join, summary_lines};
use pwsh_setup::cli::setup_cli::{labels, SetupCli, DEFAULT_PRESET, DEFAULT_THEME};
use pwsh_setup::domain::entities::preset::ProfilePreset;
use pwsh_setup::domain::entities::profile::ProfileConfig;

fn names(list: &[&str]) -> Vec<String> {
    list.iter().map(|s| s.to_string()).collect()
}

#[test]
fn theme_catalog_is_complete() {
    let themes = SetupCli::themes();
    assert_eq!(themes.len(), 20);
    assert_eq!(themes[0], ("paradox", "Clean and informative with git status"));
    assert_eq!(themes[10], ("jandedobbeleer", "Oh-My-Posh author's theme"));
    assert_eq!(themes[15], ("pure", "Minimal pure theme"));
    assert_eq!(themes[19], ("tokyo", "Tokyo Night theme"));
    let listed: Vec<&str> = themes.iter().map(|entry| entry.0).collect();
    assert_eq!(
        listed,
        vec![
            "paradox", "agnoster", "atomic", "blue-owl", "bubbles", "capr4n", "clean-detailed",
            "craver", "dracula", "gruvbox", "jandedobbeleer", "material", "montys", "night-owl",
            "powerlevel10k_rainbow", "pure", "robbyrussell", "sonicboom_dark", "star", "tokyo",
        ]
    );
}

#[test]
fn plugin_catalog_is_complete() {
    let plugins = SetupCli::plugins();
    assert_eq!(
        plugins,
        vec![
            ("PSReadLine", "Enhanced command line editing (core)"),
            ("posh-git", "Git status in prompt (core)"),
            ("Terminal-Icons", "File and folder icons in listings"),
            ("PSFzf", "Fuzzy finder integration (auto-installs fzf)"),
            ("z", "Quick directory jumping"),
        ]
    );
    assert_eq!(SetupCli::plugin_defaults(), vec![true, true, false, false, false]);
    assert_eq!(DEFAULT_PRESET, 1);
    assert_eq!(DEFAULT_THEME, 0);
}

#[test]
fn menu_lines_join_name_and_description() {
    let cli = SetupCli::new();
    let themes = cli.theme_items();
    assert_eq!(themes.len(), 20);
    assert_eq!(themes[0], "paradox - Clean and informative with git status");
    assert_eq!(themes[19], "tokyo - Tokyo Night theme");
    let plugins = cli.plugin_items();
    assert_eq!(plugins.len(), 5);
    assert_eq!(plugins[4], "z - Quick directory jumping");
    assert_eq!(
        cli.preset_items(),
        vec![
            "Minimal - Basic setup with essential features only",
            "Developer - Full-featured setup for developers",
            "Work - Professional setup with productivity tools",
            "Custom - Choose your own theme and plugins",
        ]
    );
    assert_eq!(labels(&vec![("a", "b")]), vec!["a - b"]);
    assert!(labels(&vec![]).is_empty());
}

#[test]
fn selections_follow_the_menu_positions() {
    let cli = SetupCli::new();
    assert_eq!(cli.select_theme(0), "paradox");
    assert_eq!(cli.select_theme(15), "pure");
    assert_eq!(cli.select_theme(19), "tokyo");
    assert_eq!(cli.select_plugins(&vec![0, 1]), names(&["PSReadLine", "posh-git"]));
    assert_eq!(cli.select_plugins(&vec![4, 2, 4]), names(&["z", "Terminal-Icons", "z"]));
    assert!(cli.select_plugins(&vec![]).is_empty());
    assert_eq!(
        cli.select_custom_configuration(18, &vec![3]),
        ("star".to_string(), names(&["PSFzf"]))
    );
    assert_eq!(cli.select_preset(0).name, "Minimal");
    assert_eq!(cli.select_preset(1).name, "Developer");
    assert_eq!(cli.select_preset(2).name, "Work");
    assert_eq!(cli.select_preset(3).name, "Custom");
    for (index, preset) in ProfilePreset::all().iter().enumerate() {
        assert_eq!(cli.select_preset(index).name, preset.name);
        assert_eq!(cli.select_preset(index).plugins, preset.plugins);
    }
}

#[test]
fn config_from_catalog_preset() {
    let cli = SetupCli::new();
    let config = cli.build_config_from_preset(&ProfilePreset::minimal(), None).unwrap();
    assert_eq!(config.theme, "pure");
    assert_eq!(config.plugins, names(&["PSReadLine", "posh-git"]));
    assert!(!config.include_aliases);
    let config = cli
        .build_config_from_preset(
            &ProfilePreset::developer(),
            Some(("ignored".to_string(), names(&["ignored"]))),
        )
        .unwrap();
    assert_eq!(config.theme, "paradox");
    assert_eq!(config.plugins, names(&["PSReadLine", "posh-git", "Terminal-Icons", "PSFzf", "z"]));
    assert!(config.include_aliases);
    let config = cli.build_config_from_preset(&ProfilePreset::work(), None).unwrap();
    assert_eq!(config.theme, "jandedobbeleer");
    assert_eq!(config.plugins, names(&["PSReadLine", "posh-git", "Terminal-Icons", "PSFzf"]));
    assert!(config.include_aliases);
}

#[test]
fn config_from_custom_preset_needs_a_selection() {
    let cli = SetupCli::new();
    let custom = ProfilePreset::custom();
    assert!(SetupCli::is_custom(&custom));
    assert!(!SetupCli::is_custom(&ProfilePreset::work()));
    assert!(cli.build_config_from_preset(&custom, None).is_none());
    let selection = cli.select_custom_configuration(8, &vec![0, 4]);
    let config = cli.build_config_from_preset(&custom, Some(selection)).unwrap();
    assert_eq!(config.theme, "dracula");
    assert_eq!(config.plugins, names(&["PSReadLine", "z"]));
    assert!(config.include_aliases);
    let mut plain = ProfilePreset::custom();
    plain.include_aliases = false;
    let config = cli
        .build_config_from_preset(&plain, Some(("pure".to_string(), Vec::new())))
        .unwrap();
    assert!(!config.include_aliases);
    assert!(config.plugins.is_empty());
}

#[test]
fn summary_lists_theme_plugins_path_and_shell() {
    let config = ProfileConfig::new("pure".to_string(), names(&["PSReadLine", "posh-git", "z"]));
    assert_eq!(
        summary_lines(&config, "C:\\p.ps1", "pwsh"),
        vec![
            "Setup completed successfully!",
            "Theme: pure",
            "Plugins: PSReadLine, posh-git, z",
            "Profile written to: C:\\p.ps1",
            "Restart pwsh to see the changes.",
        ]
    );
    let empty = ProfileConfig::new(String::new(), Vec::new());
    assert_eq!(summary_lines(&empty, "", "powershell")[2], "Plugins: ");
    assert_eq!(join(&names(&["a"]), ", "), "a");
    assert_eq!(join(&names(&["a", "", "b"]), "-"), "a--b");
    assert_eq!(join(&names(&[]), ", "), "");
}

#[test]
fn shell_selection_paths() {
    let start = ShellSelection::start();
    assert_eq!(start, ShellSelection::ProbingPwsh);
    assert!(!start.settled());
    assert_eq!(start.step(ShellAnswer::Found(true)), ShellSelection::Selected { use_pwsh: true });
    let asking = start.step(ShellAnswer::Found(false));
    assert_eq!(asking, ShellSelection::AskingToInstall);
    let declined = asking.step(ShellAnswer::Accepted(false));
    assert_eq!(declined, ShellSelection::ProbingPowerShell);
    assert_eq!(
        declined.step(ShellAnswer::Found(true)),
        ShellSelection::Selected { use_pwsh: false }
    );
    assert_eq!(declined.step(ShellAnswer::Found(false)), ShellSelection::NoShell);
    let installing = asking.step(ShellAnswer::Accepted(true));
    assert_eq!(installing, ShellSelection::Installing);
    assert_eq!(installing.step(ShellAnswer::Installed(false)), ShellSelection::InstallFailed);
    let installed = installing.step(ShellAnswer::Installed(true));
    assert_eq!(installed, ShellSelection::ProbingInstalledPwsh);
    assert_eq!(installed.step(ShellAnswer::Found(true)), ShellSelection::Selected { use_pwsh: true });
    assert_eq!(installed.step(ShellAnswer::Found(false)), ShellSelection::RestartRequired);
    assert_eq!(NO_SHELL, "No PowerShell version found");
}

#[test]
fn shell_selection_ignores_what_it_does_not_wait_for() {
    let start = ShellSelection::start();
    assert_eq!(start.step(ShellAnswer::Accepted(true)), start);
    assert_eq!(start.step(ShellAnswer::Installed(true)), start);
    let asking = ShellSelection::AskingToInstall;
    assert_eq!(asking.step(ShellAnswer::Found(true)), asking);
    for settled in [
        ShellSelection::Selected { use_pwsh: true },
        ShellSelection::Selected { use_pwsh: false },
        ShellSelection::RestartRequired,
        ShellSelection::NoShell,
        ShellSelection::InstallFailed,
    ] {
        assert!(settled.settled());
        for answer in [
            ShellAnswer::Found(true),
            ShellAnswer::Found(false),
            ShellAnswer::Accepted(true),
            ShellAnswer::Accepted(false),
            ShellAnswer::Installed(true),
            ShellAnswer::Installed(false),
        ] {
            assert_eq!(settled.step(answer), settled);
        }
    }
}
