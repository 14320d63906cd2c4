use pwsh_setup::application::profile_content::generate_profile_content;
use pwsh_setup::domain::entities::profile::ProfileConfig;
use pwsh_setup::domain::entities::preset::ProfilePreset;

fn names(list: &[&str]) -> Vec<String> {
    list.iter().map(|s| s.to_string()).collect()
}

const MINIMAL_TEXT: &str = "# ===========================
# Modern PowerShell 7 Profile
# ===========================

# --- Import Modules ---
Import-Module PSReadLine
Import-Module posh-git

# Oh-My-Posh prompt theme
if (Get-Command oh-my-posh -ErrorAction SilentlyContinue) {
    $configPath = \"$env:POSH_THEMES_PATH\\pure.omp.json\"
    if (Test-Path $configPath) {
        oh-my-posh init pwsh --config $configPath | Invoke-Expression
    } else {
        oh-my-posh init pwsh | Invoke-Expression
    }
}

# --- PSReadLine Settings ---
Set-PSReadLineOption -PredictionSource History
Set-PSReadLineOption -PredictionViewStyle InlineView
Set-PSReadLineOption -Colors @{ \"InlinePrediction\" = 'Cyan' }
Set-PSReadLineOption -EditMode Windows

# History search with arrow keys
Set-PSReadLineKeyHandler -Key UpArrow -Function HistorySearchBackward
Set-PSReadLineKeyHandler -Key DownArrow -Function HistorySearchForward

# Syntax colors
Set-PSReadLineOption -Colors @{
    \"Command\"   = 'Yellow'
    \"Parameter\" = 'Green'
    \"String\"    = 'Magenta'
    \"Operator\"  = 'DarkCyan'
    \"Variable\"  = 'White'
}

# --- Environment ---
$env:POSH_GIT_ENABLED = $true
";

#[test]
fn minimal_profile_is_exact() {
    let text = generate_profile_content("pure", &names(&["PSReadLine", "posh-git"]), false);
    assert_eq!(text, MINIMAL_TEXT);
}

#[test]
fn minimal_scenario_has_two_unconditional_imports_and_no_aliases() {
    let text = generate_profile_content("pure", &names(&["PSReadLine", "posh-git"]), false);
    assert!(text.contains("Import-Module PSReadLine\nImport-Module posh-git\n"));
    assert_eq!(text.matches("Import-Module").count(), 2);
    assert!(!text.contains("Get-Module -ListAvailable"));
    assert!(text.contains("$configPath = \"$env:POSH_THEMES_PATH\\pure.omp.json\""));
    assert!(!text.contains("# --- Aliases ---"));
    assert!(!text.contains("Set-Alias"));
    assert!(!text.contains("# --- Git Shortcuts ---"));
    assert!(text.ends_with("# --- Environment ---\n$env:POSH_GIT_ENABLED = $true\n"));
}

#[test]
fn generation_is_deterministic() {
    let plugins = names(&["PSReadLine", "Terminal-Icons", "z"]);
    let first = generate_profile_content("paradox", &plugins, true);
    let second = generate_profile_content("paradox", &plugins.clone(), true);
    assert_eq!(first, second);
    assert_eq!(first.as_bytes(), second.as_bytes());
}

#[test]
fn one_import_per_plugin_in_order() {
    let plugins = names(&["z", "PSReadLine", "PSFzf", "posh-git", "Terminal-Icons"]);
    let text = generate_profile_content("paradox", &plugins, true);
    let section = "# --- Import Modules ---\n\
if (Get-Module -ListAvailable -Name z) { Import-Module z }\n\
Import-Module PSReadLine\n\
if (Get-Module -ListAvailable -Name PSFzf) { Import-Module PSFzf }\n\
Import-Module posh-git\n\
if (Get-Module -ListAvailable -Name Terminal-Icons) { Import-Module Terminal-Icons }\n\
\n# Oh-My-Posh prompt theme\n";
    assert!(text.contains(section));
    assert_eq!(text.matches("Import-Module ").count(), 5);
}

#[test]
fn repeated_plugin_is_imported_each_time() {
    let text = generate_profile_content("pure", &names(&["z", "z"]), false);
    assert_eq!(text.matches("if (Get-Module -ListAvailable -Name z) { Import-Module z }\n").count(), 2);
}

#[test]
fn no_plugins_gives_empty_import_section() {
    let text = generate_profile_content("pure", &names(&[]), false);
    assert!(text.contains("# --- Import Modules ---\n\n# Oh-My-Posh prompt theme\n"));
    assert!(!text.contains("Import-Module"));
}

#[test]
fn core_names_are_case_sensitive() {
    let text = generate_profile_content("pure", &names(&["psreadline", "Posh-Git"]), false);
    assert!(text.contains("if (Get-Module -ListAvailable -Name psreadline) { Import-Module psreadline }\n"));
    assert!(text.contains("if (Get-Module -ListAvailable -Name Posh-Git) { Import-Module Posh-Git }\n"));
}

#[test]
fn alias_block_appears_once_when_asked_for() {
    let plugins = names(&["PSReadLine"]);
    let with = generate_profile_content("pure", &plugins, true);
    let without = generate_profile_content("pure", &plugins, false);
    assert_eq!(with.matches("# --- Aliases ---").count(), 1);
    assert_eq!(with.matches("# --- Git Shortcuts ---").count(), 1);
    assert_eq!(with.matches("function gs { git status }").count(), 1);
    assert_eq!(without.matches("# --- Aliases ---").count(), 0);
    let block = "# --- Aliases ---\nSet-Alias ll Get-ChildItem\nfunction la { Get-ChildItem -Force }\n\n\
# --- Git Shortcuts ---\nfunction gs { git status }\nfunction gcom { git commit @args }\n\
function gpush { git push @args }\nfunction gl { git log --oneline --graph --decorate --all }\n\
function gco { git checkout @args }\nfunction gb { git branch @args }\nfunction gd { git diff @args }\n\n";
    assert_eq!(with.replacen(block, "", 1), without);
    assert!(with.ends_with("}\n\n# --- Environment ---\n$env:POSH_GIT_ENABLED = $true\n"));
}

#[test]
fn blocks_come_in_fixed_order() {
    let text = generate_profile_content("tokyo", &names(&["z"]), true);
    let header = text.find("# Modern PowerShell 7 Profile").unwrap();
    let imports = text.find("# --- Import Modules ---").unwrap();
    let theme = text.find("# Oh-My-Posh prompt theme").unwrap();
    let readline = text.find("# --- PSReadLine Settings ---").unwrap();
    let aliases = text.find("# --- Aliases ---").unwrap();
    let environment = text.find("# --- Environment ---").unwrap();
    assert!(header < imports && imports < theme && theme < readline);
    assert!(readline < aliases && aliases < environment);
    assert!(text.starts_with("# ===========================\n"));
}

#[test]
fn config_defaults_to_aliases() {
    let config = ProfileConfig::new("pure".to_string(), names(&["z"]));
    assert!(config.include_aliases);
    let config = config.with_include_aliases(false);
    assert!(!config.include_aliases);
    assert_eq!(config.theme, "pure");
    assert_eq!(config.plugins, names(&["z"]));
    let copy = config.duplicate();
    assert_eq!(copy.theme, config.theme);
    assert_eq!(copy.plugins, config.plugins);
    assert_eq!(copy.include_aliases, config.include_aliases);
}

#[test]
fn preset_catalog_is_stable() {
    let first = ProfilePreset::all();
    let second = ProfilePreset::all();
    assert_eq!(first.len(), 4);
    let listed: Vec<&str> = first.iter().map(|p| p.name).collect();
    assert_eq!(listed, vec!["Minimal", "Developer", "Work", "Custom"]);
    for (a, b) in first.iter().zip(second.iter()) {
        assert_eq!(a.name, b.name);
        assert_eq!(a.theme, b.theme);
        assert_eq!(a.plugins, b.plugins);
        assert_eq!(a.include_aliases, b.include_aliases);
    }
    assert_eq!(first[0].theme, "pure");
    assert_eq!(first[0].plugins, vec!["PSReadLine", "posh-git"]);
    assert!(!first[0].include_aliases);
    assert_eq!(first[1].description, "Full-featured setup for developers");
    assert_eq!(first[1].plugins, vec!["PSReadLine", "posh-git", "Terminal-Icons", "PSFzf", "z"]);
    assert_eq!(first[2].theme, "jandedobbeleer");
    assert_eq!(first[2].plugins, vec!["PSReadLine", "posh-git", "Terminal-Icons", "PSFzf"]);
    assert_eq!(first[3].theme, "");
    assert!(first[3].plugins.is_empty());
    assert!(first[3].include_aliases);
}

fn places(text: &str, needle: &str) -> Vec<usize> {
    (0..text.len()).filter(|&at| text.is_char_boundary(at) && text[at..].starts_with(needle)).collect()
}

#[test]
fn import_word_stands_once_per_entry_in_list_order() {
    let plugins = names(&["z", "posh-git", "z", "PSReadLine", "Import", "Module x", "a)b", "-"]);
    for aliases in [false, true] {
        let text = generate_profile_content("Import", &plugins, aliases);
        let found = places(&text, "Import-Module ");
        assert_eq!(found.len(), plugins.len());
        let mut start = "# ===========================\n# Modern PowerShell 7 Profile\n# ===========================\n\n# --- Import Modules ---\n".len();
        for (plugin, at) in plugins.iter().zip(found.iter()) {
            let core = plugin == "PSReadLine" || plugin == "posh-git";
            let statement = if core {
                format!("Import-Module {}\n", plugin)
            } else {
                format!("if (Get-Module -ListAvailable -Name {}) {{ Import-Module {} }}\n", plugin, plugin)
            };
            assert!(text[start..].starts_with(&statement));
            let offset = if core { 0 } else { 36 + plugin.len() + 4 };
            assert_eq!(*at, start + offset);
            start += statement.len();
        }
    }
    assert!(places(&generate_profile_content("pure", &names(&[]), true), "Import-Module ").is_empty());
}

#[test]
fn a_name_with_the_import_word_adds_occurrences() {
    let text = generate_profile_content("pure", &names(&["Import-Module"]), false);
    assert_eq!(places(&text, "Import-Module ").len(), 2);
}

#[test]
fn alias_marks_are_absent_without_the_flag() {
    let plugins = names(&["z", "posh-git", "# x", "#", "Set-Alia", "unction", "# --"]);
    let text = generate_profile_content("# -- theme", &plugins, false);
    for mark in ["# --- Aliases ---", "# --- Git Shortcuts ---", "Set-Alias", "function"] {
        assert!(places(&text, mark).is_empty(), "{}", mark);
    }
}

#[test]
fn alias_marks_stand_once_with_the_flag() {
    let plugins = names(&["z", "posh-git", "# x", "#", "Set-Alia", "unction", "# --"]);
    let with = generate_profile_content("# -- theme", &plugins, true);
    let without = generate_profile_content("# -- theme", &plugins, false);
    let block = without.len() - "# --- Environment ---\n$env:POSH_GIT_ENABLED = $true\n".len();
    assert_eq!(places(&with, "# --- Aliases ---"), vec![block]);
    assert_eq!(places(&with, "Set-Alias ll Get-ChildItem"), vec![block + 18]);
    assert_eq!(places(&with, "# --- Git Shortcuts ---"), vec![block + 83]);
    assert_eq!(places(&with, "function gs { git status }"), vec![block + 107]);
}

#[test]
fn a_plugin_named_like_a_mark_brings_the_mark() {
    let text = generate_profile_content("pure", &names(&["function"]), false);
    assert!(text.contains("function "));
    let text = generate_profile_content("# --- Aliases ---", &names(&[]), false);
    assert!(text.contains("# --- Aliases ---"));
}
