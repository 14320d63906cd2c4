use vstd::prelude::*;
use crate::domain::entities::profile::{names_of, ProfileConfigView};

verus! {

/// The banner at the top of every profile.
pub const HEADER_BLOCK: &'static str = r#"# ===========================
# Modern PowerShell 7 Profile
# ===========================

"#;

/// The title line of the import section.
pub const IMPORT_TITLE: &'static str = "# --- Import Modules ---\n";

/// What stands before the plugin's name in an unconditional import.
pub const IMPORT_PREFIX: &'static str = "Import-Module ";

/// What stands before the plugin's name in a guarded import.
pub const GUARD_PREFIX: &'static str = "if (Get-Module -ListAvailable -Name ";

/// What stands between the two occurrences of the name in a guarded import.
pub const GUARD_MIDDLE: &'static str = ") { Import-Module ";

/// What closes a guarded import.
pub const GUARD_SUFFIX: &'static str = " }\n";

/// The theme block up to the theme's name.
pub const THEME_PREFIX: &'static str = r#"# Oh-My-Posh prompt theme
if (Get-Command oh-my-posh -ErrorAction SilentlyContinue) {
    $configPath = "$env:POSH_THEMES_PATH\"#;

/// The theme block after the theme's name.
pub const THEME_SUFFIX: &'static str = r#".omp.json"
    if (Test-Path $configPath) {
        oh-my-posh init pwsh --config $configPath | Invoke-Expression
    } else {
        oh-my-posh init pwsh | Invoke-Expression
    }
}

"#;

/// The fixed key-binding and colour settings of the line editor.
pub const READLINE_BLOCK: &'static str = r#"# --- PSReadLine Settings ---
Set-PSReadLineOption -PredictionSource History
Set-PSReadLineOption -PredictionViewStyle InlineView
Set-PSReadLineOption -Colors @{ "InlinePrediction" = 'Cyan' }
Set-PSReadLineOption -EditMode Windows

# History search with arrow keys
Set-PSReadLineKeyHandler -Key UpArrow -Function HistorySearchBackward
Set-PSReadLineKeyHandler -Key DownArrow -Function HistorySearchForward

# Syntax colors
Set-PSReadLineOption -Colors @{
    "Command"   = 'Yellow'
    "Parameter" = 'Green'
    "String"    = 'Magenta'
    "Operator"  = 'DarkCyan'
    "Variable"  = 'White'
}

"#;

/// The aliases and git shortcuts, present only on request.
pub const ALIAS_BLOCK: &'static str = r#"# --- Aliases ---
Set-Alias ll Get-ChildItem
function la { Get-ChildItem -Force }

# --- Git Shortcuts ---
function gs { git status }
function gcom { git commit @args }
function gpush { git push @args }
function gl { git log --oneline --graph --decorate --all }
function gco { git checkout @args }
function gb { git branch @args }
function gd { git diff @args }

"#;

/// The environment assignment that ends every profile.
pub const ENVIRONMENT_BLOCK: &'static str = r#"# --- Environment ---
$env:POSH_GIT_ENABLED = $true
"#;

/// The two plugins that are imported without a guard.
pub open spec fn is_core_plugin(plugin: Seq<char>) -> bool {
    plugin == "PSReadLine"@ || plugin == "posh-git"@
}

/// The import that needs no guard.
pub open spec fn unconditional_import(plugin: Seq<char>) -> Seq<char> {
    IMPORT_PREFIX@ + plugin + "\n"@
}

/// The import that first asks whether the module is available.
pub open spec fn guarded_import(plugin: Seq<char>) -> Seq<char> {
    GUARD_PREFIX@ + plugin + GUARD_MIDDLE@ + plugin + GUARD_SUFFIX@
}

/// The load statement of one plugin.
pub open spec fn import_line(plugin: Seq<char>) -> Seq<char> {
    if is_core_plugin(plugin) {
        unconditional_import(plugin)
    } else {
        guarded_import(plugin)
    }
}

/// The load statements of the plugins, one after the other in list order.
pub open spec fn import_lines(plugins: Seq<Seq<char>>) -> Seq<char>
    decreases plugins.len(),
{
    if plugins.len() == 0 {
        Seq::empty()
    } else {
        import_lines(plugins.drop_last()) + import_line(plugins.last())
    }
}

/// The import section: its title, the load statements and an empty line.
pub open spec fn import_block(plugins: Seq<Seq<char>>) -> Seq<char> {
    IMPORT_TITLE@ + import_lines(plugins) + "\n"@
}

/// The block that activates the named theme where its file exists.
pub open spec fn theme_block(theme: Seq<char>) -> Seq<char> {
    THEME_PREFIX@ + theme + THEME_SUFFIX@
}

/// The alias section as the flag asks for it.
pub open spec fn alias_section(include_aliases: bool) -> Seq<char> {
    if include_aliases {
        ALIAS_BLOCK@
    } else {
        Seq::empty()
    }
}

/// Everything that precedes the alias section.
pub open spec fn profile_prelude(theme: Seq<char>, plugins: Seq<Seq<char>>) -> Seq<char> {
    HEADER_BLOCK@ + import_block(plugins) + theme_block(theme) + READLINE_BLOCK@
}

/// The text of the profile: the blocks in their fixed order.
pub open spec fn profile_text(
    theme: Seq<char>,
    plugins: Seq<Seq<char>>,
    include_aliases: bool,
) -> Seq<char> {
    profile_prelude(theme, plugins) + alias_section(include_aliases) + ENVIRONMENT_BLOCK@
}

/// The text of the profile that a configuration asks for.
pub open spec fn config_profile_text(config: ProfileConfigView) -> Seq<char> {
    profile_text(config.theme, config.plugins, config.include_aliases)
}

/// Whether the plugin is one of the two that are imported unconditionally.
pub fn is_core(plugin: &String) -> (core: bool)
    ensures
        core == is_core_plugin(plugin@),
{
    let readline = String::from_str("PSReadLine");
    let git = String::from_str("posh-git");
    *plugin == readline || *plugin == git
}

/// Appends the load statement of one plugin.
pub fn push_import_line(content: &mut String, plugin: &String)
    ensures
        final(content)@ == old(content)@ + import_line(plugin@),
{
    if is_core(plugin) {
        content.append(IMPORT_PREFIX);
        content.append(plugin.as_str());
        content.append("\n");
        assert(content@ =~= old(content)@ + unconditional_import(plugin@));
    } else {
        content.append(GUARD_PREFIX);
        content.append(plugin.as_str());
        content.append(GUARD_MIDDLE);
        content.append(plugin.as_str());
        content.append(GUARD_SUFFIX);
        assert(content@ =~= old(content)@ + guarded_import(plugin@));
    }
}

/// The profile text for a theme, a plugin list and the alias flag. The result
/// is a function of the three arguments alone.
pub fn generate_profile_content(theme: &str, plugins: &Vec<String>, include_aliases: bool) -> (content:
    String)
    ensures
        content@ == profile_text(theme@, names_of(plugins@), include_aliases),
{
    let ghost names = names_of(plugins@);
    let mut content = String::from_str(HEADER_BLOCK);
    content.append(IMPORT_TITLE);
    let mut i: usize = 0;
    while i < plugins.len()
        invariant
            i <= plugins@.len(),
            names == names_of(plugins@),
            content@ == HEADER_BLOCK@ + IMPORT_TITLE@ + import_lines(names.take(i as int)),
        decreases plugins@.len() - i,
    {
        push_import_line(&mut content, &plugins[i]);
        proof {
            let next = names.take(i + 1);
            assert(next.drop_last() =~= names.take(i as int));
            assert(next.last() == plugins@[i as int]@);
            assert(content@ =~= HEADER_BLOCK@ + IMPORT_TITLE@ + import_lines(next));
        }
        i = i + 1;
    }
    assert(names.take(i as int) =~= names);
    content.append("\n");
    content.append(THEME_PREFIX);
    content.append(theme);
    content.append(THEME_SUFFIX);
    content.append(READLINE_BLOCK);
    assert(content@ =~= profile_prelude(theme@, names));
    if include_aliases {
        content.append(ALIAS_BLOCK);
    }
    assert(content@ =~= profile_prelude(theme@, names) + alias_section(include_aliases));
    content.append(ENVIRONMENT_BLOCK);
    content
}

} // verus!
