use vstd::prelude::*;
use crate::application::profile_content::{
    guarded_import, import_block, import_line, import_lines, is_core_plugin, profile_prelude,
    profile_text, theme_block, unconditional_import, ALIAS_BLOCK, ENVIRONMENT_BLOCK,
    GUARD_MIDDLE, GUARD_PREFIX, GUARD_SUFFIX, HEADER_BLOCK, IMPORT_PREFIX, IMPORT_TITLE,
    READLINE_BLOCK, THEME_PREFIX, THEME_SUFFIX,
};
use crate::infrastructure::occurrences::{
    begins_not, begins_nowhere, begins_only_at, differs_within, found, lemma_behind_clean_piece,
    lemma_behind_name, lemma_clean_piece_alone, lemma_longer_needle, lemma_piece_with_the_needle,
    moved,
};
use crate::infrastructure::text::{contains_text, occurs_at};

verus! {

/// The title of the alias block.
pub open spec fn alias_title() -> Seq<char> {
    "# --- Aliases ---"@
}

/// The title of the git shortcuts.
pub open spec fn git_title() -> Seq<char> {
    "# --- Git Shortcuts ---"@
}

/// The word that sets an alias.
pub open spec fn alias_word() -> Seq<char> {
    "Set-Alias"@
}

/// The word that begins a shortcut.
pub open spec fn function_word() -> Seq<char> {
    "function"@
}

/// The alias that the alias block sets.
pub open spec fn alias_statement() -> Seq<char> {
    "Set-Alias ll Get-ChildItem"@
}

/// The first of the git shortcuts.
pub open spec fn status_shortcut() -> Seq<char> {
    "function gs { git status }"@
}

/// The line break that ends an unconditional import and the import section.
pub open spec fn line_break() -> Seq<char> {
    "\n"@
}

/// Whether no occurrence of `needle` begins in one of the fixed pieces of a
/// profile without aliases, whatever follows the piece.
pub open spec fn fixed_pieces_are_clean(needle: Seq<char>) -> bool {
    &&& begins_nowhere(HEADER_BLOCK@, needle)
    &&& begins_nowhere(IMPORT_TITLE@, needle)
    &&& begins_nowhere(IMPORT_PREFIX@, needle)
    &&& begins_nowhere(GUARD_PREFIX@, needle)
    &&& begins_nowhere(GUARD_MIDDLE@, needle)
    &&& begins_nowhere(GUARD_SUFFIX@, needle)
    &&& begins_nowhere(THEME_PREFIX@, needle)
    &&& begins_nowhere(THEME_SUFFIX@, needle)
    &&& begins_nowhere(READLINE_BLOCK@, needle)
    &&& begins_nowhere(ENVIRONMENT_BLOCK@, needle)
    &&& begins_nowhere(line_break(), needle)
}

/// Whether the needle cannot go on behind a name that ends with less than
/// its first `core` characters: of these, none after the first is a line
/// break, a bracket or a dot, and a space among them is not followed by the
/// closing brace that follows the space behind a name.
pub open spec fn core_is_unbroken(needle: Seq<char>, core: int) -> bool {
    &&& 0 < core <= needle.len()
    &&& forall|l: int|
        1 <= l < core ==> {
            &&& (#[trigger] needle[l]) != '\n'
            &&& needle[l] != ')'
            &&& needle[l] != '.'
            &&& needle[l] == ' ' ==> l + 1 < needle.len() && needle[l + 1] != '}'
        }
}

/// Whether neither the theme nor a plugin name holds `word`.
pub open spec fn names_are_free_of(theme: Seq<char>, plugins: Seq<Seq<char>>, word: Seq<char>) -> bool {
    &&& !contains_text(theme, word)
    &&& forall|k: int| 0 <= k < plugins.len() ==> !contains_text(#[trigger] plugins[k], word)
}

/// The beginning of the titles of the profile.
pub open spec fn title_beginning() -> Seq<char> {
    "# --- "@
}

/// Whether neither the theme nor a plugin name holds the beginning of a
/// title, the word that sets an alias, or the word that begins a shortcut.
pub open spec fn names_are_unmarked(theme: Seq<char>, plugins: Seq<Seq<char>>) -> bool {
    &&& names_are_free_of(theme, plugins, title_beginning())
    &&& names_are_free_of(theme, plugins, alias_word())
    &&& names_are_free_of(theme, plugins, function_word())
}

/// Reveals the four marks.
proof fn lemma_marks()
    ensures
        alias_title().len() == 17,
        alias_title()[0] == '#',
        alias_title()[2] == '-',
        alias_title()[6] == 'A',
        git_title().len() == 23,
        git_title()[0] == '#',
        git_title()[2] == '-',
        git_title()[6] == 'G',
        alias_word().len() == 9,
        alias_word()[0] == 'S',
        alias_word()[1] == 'e',
        alias_word()[4] == 'A',
        function_word().len() == 8,
        function_word()[0] == 'f',
        function_word()[1] == 'u',
{
    reveal_strlit("# --- Aliases ---");
    reveal_strlit("# --- Git Shortcuts ---");
    reveal_strlit("Set-Alias");
    reveal_strlit("function");
}

/// No mark begins in the banner.
proof fn lemma_scan_header()
    ensures
        begins_nowhere(HEADER_BLOCK@, alias_title()),
        begins_nowhere(HEADER_BLOCK@, git_title()),
        begins_nowhere(HEADER_BLOCK@, alias_word()),
        begins_nowhere(HEADER_BLOCK@, function_word()),
{
    lemma_marks();
    reveal_strlit(
        r#"# ===========================
# Modern PowerShell 7 Profile
# ===========================

"#,
    );
    let piece = HEADER_BLOCK@;
    assert forall|at: int| 0 <= at < piece.len() implies #[trigger] begins_not(
        piece,
        alias_title(),
        at,
    ) by {
        if piece[at] == '#' {
            assert(differs_within(piece, alias_title(), at, 2) || differs_within(piece, alias_title(), at, 6));
        } else {
            assert(differs_within(piece, alias_title(), at, 0));
        }
    }
    assert forall|at: int| 0 <= at < piece.len() implies #[trigger] begins_not(
        piece,
        git_title(),
        at,
    ) by {
        if piece[at] == '#' {
            assert(differs_within(piece, git_title(), at, 2) || differs_within(piece, git_title(), at, 6));
        } else {
            assert(differs_within(piece, git_title(), at, 0));
        }
    }
    assert forall|at: int| 0 <= at < piece.len() implies #[trigger] begins_not(
        piece,
        alias_word(),
        at,
    ) by {
        if piece[at] == 'S' {
            assert(differs_within(piece, alias_word(), at, 1) || differs_within(piece, alias_word(), at, 4));
        } else {
            assert(differs_within(piece, alias_word(), at, 0));
        }
    }
    assert forall|at: int| 0 <= at < piece.len() implies #[trigger] begins_not(
        piece,
        function_word(),
        at,
    ) by {
        if piece[at] == 'f' {
            assert(differs_within(piece, function_word(), at, 1));
        } else {
            assert(differs_within(piece, function_word(), at, 0));
        }
    }
}

/// No mark begins in the title of the import section.
proof fn lemma_scan_import_title()
    ensures
        begins_nowhere(IMPORT_TITLE@, alias_title()),
        begins_nowhere(IMPORT_TITLE@, git_title()),
        begins_nowhere(IMPORT_TITLE@, alias_word()),
        begins_nowhere(IMPORT_TITLE@, function_word()),
{
    lemma_marks();
    reveal_strlit("# --- Import Modules ---\n");
    let piece = IMPORT_TITLE@;
    assert forall|at: int| 0 <= at < piece.len() implies #[trigger] begins_not(
        piece,
        alias_title(),
        at,
    ) by {
        if piece[at] == '#' {
            assert(differs_within(piece, alias_title(), at, 2) || differs_within(piece, alias_title(), at, 6));
        } else {
            assert(differs_within(piece, alias_title(), at, 0));
        }
    }
    assert forall|at: int| 0 <= at < piece.len() implies #[trigger] begins_not(
        piece,
        git_title(),
        at,
    ) by {
        if piece[at] == '#' {
            assert(differs_within(piece, git_title(), at, 2) || differs_within(piece, git_title(), at, 6));
        } else {
            assert(differs_within(piece, git_title(), at, 0));
        }
    }
    assert forall|at: int| 0 <= at < piece.len() implies #[trigger] begins_not(
        piece,
        alias_word(),
        at,
    ) by {
        if piece[at] == 'S' {
            assert(differs_within(piece, alias_word(), at, 1) || differs_within(piece, alias_word(), at, 4));
        } else {
            assert(differs_within(piece, alias_word(), at, 0));
        }
    }
    assert forall|at: int| 0 <= at < piece.len() implies #[trigger] begins_not(
        piece,
        function_word(),
        at,
    ) by {
        if piece[at] == 'f' {
            assert(differs_within(piece, function_word(), at, 1));
        } else {
            assert(differs_within(piece, function_word(), at, 0));
        }
    }
}

/// No mark begins in the beginning of an unconditional import.
proof fn lemma_scan_import_prefix()
    ensures
        begins_nowhere(IMPORT_PREFIX@, alias_title()),
        begins_nowhere(IMPORT_PREFIX@, git_title()),
        begins_nowhere(IMPORT_PREFIX@, alias_word()),
        begins_nowhere(IMPORT_PREFIX@, function_word()),
{
    lemma_marks();
    reveal_strlit("Import-Module ");
    let piece = IMPORT_PREFIX@;
    assert forall|at: int| 0 <= at < piece.len() implies #[trigger] begins_not(
        piece,
        alias_title(),
        at,
    ) by {
        if piece[at] == '#' {
            assert(differs_within(piece, alias_title(), at, 2) || differs_within(piece, alias_title(), at, 6));
        } else {
            assert(differs_within(piece, alias_title(), at, 0));
        }
    }
    assert forall|at: int| 0 <= at < piece.len() implies #[trigger] begins_not(
        piece,
        git_title(),
        at,
    ) by {
        if piece[at] == '#' {
            assert(differs_within(piece, git_title(), at, 2) || differs_within(piece, git_title(), at, 6));
        } else {
            assert(differs_within(piece, git_title(), at, 0));
        }
    }
    assert forall|at: int| 0 <= at < piece.len() implies #[trigger] begins_not(
        piece,
        alias_word(),
        at,
    ) by {
        if piece[at] == 'S' {
            assert(differs_within(piece, alias_word(), at, 1) || differs_within(piece, alias_word(), at, 4));
        } else {
            assert(differs_within(piece, alias_word(), at, 0));
        }
    }
    assert forall|at: int| 0 <= at < piece.len() implies #[trigger] begins_not(
        piece,
        function_word(),
        at,
    ) by {
        if piece[at] == 'f' {
            assert(differs_within(piece, function_word(), at, 1));
        } else {
            assert(differs_within(piece, function_word(), at, 0));
        }
    }
}

/// No mark begins in the beginning of a guarded import.
proof fn lemma_scan_guard_prefix()
    ensures
        begins_nowhere(GUARD_PREFIX@, alias_title()),
        begins_nowhere(GUARD_PREFIX@, git_title()),
        begins_nowhere(GUARD_PREFIX@, alias_word()),
        begins_nowhere(GUARD_PREFIX@, function_word()),
{
    lemma_marks();
    reveal_strlit("if (Get-Module -ListAvailable -Name ");
    let piece = GUARD_PREFIX@;
    assert forall|at: int| 0 <= at < piece.len() implies #[trigger] begins_not(
        piece,
        alias_title(),
        at,
    ) by {
        if piece[at] == '#' {
            assert(differs_within(piece, alias_title(), at, 2) || differs_within(piece, alias_title(), at, 6));
        } else {
            assert(differs_within(piece, alias_title(), at, 0));
        }
    }
    assert forall|at: int| 0 <= at < piece.len() implies #[trigger] begins_not(
        piece,
        git_title(),
        at,
    ) by {
        if piece[at] == '#' {
            assert(differs_within(piece, git_title(), at, 2) || differs_within(piece, git_title(), at, 6));
        } else {
            assert(differs_within(piece, git_title(), at, 0));
        }
    }
    assert forall|at: int| 0 <= at < piece.len() implies #[trigger] begins_not(
        piece,
        alias_word(),
        at,
    ) by {
        if piece[at] == 'S' {
            assert(differs_within(piece, alias_word(), at, 1) || differs_within(piece, alias_word(), at, 4));
        } else {
            assert(differs_within(piece, alias_word(), at, 0));
        }
    }
    assert forall|at: int| 0 <= at < piece.len() implies #[trigger] begins_not(
        piece,
        function_word(),
        at,
    ) by {
        if piece[at] == 'f' {
            assert(differs_within(piece, function_word(), at, 1));
        } else {
            assert(differs_within(piece, function_word(), at, 0));
        }
    }
}

/// No mark begins in the middle of a guarded import.
proof fn lemma_scan_guard_middle()
    ensures
        begins_nowhere(GUARD_MIDDLE@, alias_title()),
        begins_nowhere(GUARD_MIDDLE@, git_title()),
        begins_nowhere(GUARD_MIDDLE@, alias_word()),
        begins_nowhere(GUARD_MIDDLE@, function_word()),
        GUARD_MIDDLE@.len() > 0,
        GUARD_MIDDLE@[0] == ')',
{
    lemma_marks();
    reveal_strlit(") { Import-Module ");
    let piece = GUARD_MIDDLE@;
    assert forall|at: int| 0 <= at < piece.len() implies #[trigger] begins_not(
        piece,
        alias_title(),
        at,
    ) by {
        if piece[at] == '#' {
            assert(differs_within(piece, alias_title(), at, 2) || differs_within(piece, alias_title(), at, 6));
        } else {
            assert(differs_within(piece, alias_title(), at, 0));
        }
    }
    assert forall|at: int| 0 <= at < piece.len() implies #[trigger] begins_not(
        piece,
        git_title(),
        at,
    ) by {
        if piece[at] == '#' {
            assert(differs_within(piece, git_title(), at, 2) || differs_within(piece, git_title(), at, 6));
        } else {
            assert(differs_within(piece, git_title(), at, 0));
        }
    }
    assert forall|at: int| 0 <= at < piece.len() implies #[trigger] begins_not(
        piece,
        alias_word(),
        at,
    ) by {
        if piece[at] == 'S' {
            assert(differs_within(piece, alias_word(), at, 1) || differs_within(piece, alias_word(), at, 4));
        } else {
            assert(differs_within(piece, alias_word(), at, 0));
        }
    }
    assert forall|at: int| 0 <= at < piece.len() implies #[trigger] begins_not(
        piece,
        function_word(),
        at,
    ) by {
        if piece[at] == 'f' {
            assert(differs_within(piece, function_word(), at, 1));
        } else {
            assert(differs_within(piece, function_word(), at, 0));
        }
    }
}

/// No mark begins in the end of a guarded import.
proof fn lemma_scan_guard_suffix()
    ensures
        begins_nowhere(GUARD_SUFFIX@, alias_title()),
        begins_nowhere(GUARD_SUFFIX@, git_title()),
        begins_nowhere(GUARD_SUFFIX@, alias_word()),
        begins_nowhere(GUARD_SUFFIX@, function_word()),
        GUARD_SUFFIX@.len() > 0,
        GUARD_SUFFIX@[0] == ' ',
{
    lemma_marks();
    reveal_strlit(" }\n");
    let piece = GUARD_SUFFIX@;
    assert forall|at: int| 0 <= at < piece.len() implies #[trigger] begins_not(
        piece,
        alias_title(),
        at,
    ) by {
        if piece[at] == '#' {
            assert(differs_within(piece, alias_title(), at, 2) || differs_within(piece, alias_title(), at, 6));
        } else {
            assert(differs_within(piece, alias_title(), at, 0));
        }
    }
    assert forall|at: int| 0 <= at < piece.len() implies #[trigger] begins_not(
        piece,
        git_title(),
        at,
    ) by {
        if piece[at] == '#' {
            assert(differs_within(piece, git_title(), at, 2) || differs_within(piece, git_title(), at, 6));
        } else {
            assert(differs_within(piece, git_title(), at, 0));
        }
    }
    assert forall|at: int| 0 <= at < piece.len() implies #[trigger] begins_not(
        piece,
        alias_word(),
        at,
    ) by {
        if piece[at] == 'S' {
            assert(differs_within(piece, alias_word(), at, 1) || differs_within(piece, alias_word(), at, 4));
        } else {
            assert(differs_within(piece, alias_word(), at, 0));
        }
    }
    assert forall|at: int| 0 <= at < piece.len() implies #[trigger] begins_not(
        piece,
        function_word(),
        at,
    ) by {
        if piece[at] == 'f' {
            assert(differs_within(piece, function_word(), at, 1));
        } else {
            assert(differs_within(piece, function_word(), at, 0));
        }
    }
}

/// No mark begins in the beginning of the theme block.
proof fn lemma_scan_theme_prefix()
    ensures
        begins_nowhere(THEME_PREFIX@, alias_title()),
        begins_nowhere(THEME_PREFIX@, git_title()),
        begins_nowhere(THEME_PREFIX@, alias_word()),
        begins_nowhere(THEME_PREFIX@, function_word()),
{
    lemma_marks();
    reveal_strlit(
        r#"# Oh-My-Posh prompt theme
if (Get-Command oh-my-posh -ErrorAction SilentlyContinue) {
    $configPath = "$env:POSH_THEMES_PATH\"#,
    );
    let piece = THEME_PREFIX@;
    assert forall|at: int| 0 <= at < piece.len() implies #[trigger] begins_not(
        piece,
        alias_title(),
        at,
    ) by {
        if piece[at] == '#' {
            assert(differs_within(piece, alias_title(), at, 2) || differs_within(piece, alias_title(), at, 6));
        } else {
            assert(differs_within(piece, alias_title(), at, 0));
        }
    }
    assert forall|at: int| 0 <= at < piece.len() implies #[trigger] begins_not(
        piece,
        git_title(),
        at,
    ) by {
        if piece[at] == '#' {
            assert(differs_within(piece, git_title(), at, 2) || differs_within(piece, git_title(), at, 6));
        } else {
            assert(differs_within(piece, git_title(), at, 0));
        }
    }
    assert forall|at: int| 0 <= at < piece.len() implies #[trigger] begins_not(
        piece,
        alias_word(),
        at,
    ) by {
        if piece[at] == 'S' {
            assert(differs_within(piece, alias_word(), at, 1) || differs_within(piece, alias_word(), at, 4));
        } else {
            assert(differs_within(piece, alias_word(), at, 0));
        }
    }
    assert forall|at: int| 0 <= at < piece.len() implies #[trigger] begins_not(
        piece,
        function_word(),
        at,
    ) by {
        if piece[at] == 'f' {
            assert(differs_within(piece, function_word(), at, 1));
        } else {
            assert(differs_within(piece, function_word(), at, 0));
        }
    }
}

/// No mark begins in the end of the theme block.
proof fn lemma_scan_theme_suffix()
    ensures
        begins_nowhere(THEME_SUFFIX@, alias_title()),
        begins_nowhere(THEME_SUFFIX@, git_title()),
        begins_nowhere(THEME_SUFFIX@, alias_word()),
        begins_nowhere(THEME_SUFFIX@, function_word()),
        THEME_SUFFIX@.len() > 0,
        THEME_SUFFIX@[0] == '.',
{
    lemma_marks();
    reveal_strlit(
        r#".omp.json"
    if (Test-Path $configPath) {
        oh-my-posh init pwsh --config $configPath | Invoke-Expression
    } else {
        oh-my-posh init pwsh | Invoke-Expression
    }
}

"#,
    );
    let piece = THEME_SUFFIX@;
    assert forall|at: int| 0 <= at < piece.len() implies #[trigger] begins_not(
        piece,
        alias_title(),
        at,
    ) by {
        if piece[at] == '#' {
            assert(differs_within(piece, alias_title(), at, 2) || differs_within(piece, alias_title(), at, 6));
        } else {
            assert(differs_within(piece, alias_title(), at, 0));
        }
    }
    assert forall|at: int| 0 <= at < piece.len() implies #[trigger] begins_not(
        piece,
        git_title(),
        at,
    ) by {
        if piece[at] == '#' {
            assert(differs_within(piece, git_title(), at, 2) || differs_within(piece, git_title(), at, 6));
        } else {
            assert(differs_within(piece, git_title(), at, 0));
        }
    }
    assert forall|at: int| 0 <= at < piece.len() implies #[trigger] begins_not(
        piece,
        alias_word(),
        at,
    ) by {
        if piece[at] == 'S' {
            assert(differs_within(piece, alias_word(), at, 1) || differs_within(piece, alias_word(), at, 4));
        } else {
            assert(differs_within(piece, alias_word(), at, 0));
        }
    }
    assert forall|at: int| 0 <= at < piece.len() implies #[trigger] begins_not(
        piece,
        function_word(),
        at,
    ) by {
        if piece[at] == 'f' {
            assert(differs_within(piece, function_word(), at, 1));
        } else {
            assert(differs_within(piece, function_word(), at, 0));
        }
    }
}

/// No mark begins in the line-editor settings.
proof fn lemma_scan_readline()
    ensures
        begins_nowhere(READLINE_BLOCK@, alias_title()),
        begins_nowhere(READLINE_BLOCK@, git_title()),
        begins_nowhere(READLINE_BLOCK@, alias_word()),
        begins_nowhere(READLINE_BLOCK@, function_word()),
{
    lemma_marks();
    reveal_strlit(
        r#"# --- PSReadLine Settings ---
Set-PSReadLineOption -PredictionSource History
Set-PSReadLineOption -PredictionViewStyle InlineView
Set-PSReadLineOption -Colors @{ "InlinePrediction" = 'Cyan' }
Set-PSReadLineOption -EditMode Windows

# History search with arrow keys
Set-PSReadLineKeyHandler -Key UpArrow -Function HistorySearchBackward
Set-PSReadLineKeyHandler -Key DownArrow -Function HistorySearchForward

# Syntax colors
Set-PSReadLineOption -Colors @{
    "Command"   = 'Yellow'
    "Parameter" = 'Green'
    "String"    = 'Magenta'
    "Operator"  = 'DarkCyan'
    "Variable"  = 'White'
}

"#,
    );
    let piece = READLINE_BLOCK@;
    assert forall|at: int| 0 <= at < piece.len() implies #[trigger] begins_not(
        piece,
        alias_title(),
        at,
    ) by {
        if piece[at] == '#' {
            assert(differs_within(piece, alias_title(), at, 2) || differs_within(piece, alias_title(), at, 6));
        } else {
            assert(differs_within(piece, alias_title(), at, 0));
        }
    }
    assert forall|at: int| 0 <= at < piece.len() implies #[trigger] begins_not(
        piece,
        git_title(),
        at,
    ) by {
        if piece[at] == '#' {
            assert(differs_within(piece, git_title(), at, 2) || differs_within(piece, git_title(), at, 6));
        } else {
            assert(differs_within(piece, git_title(), at, 0));
        }
    }
    assert forall|at: int| 0 <= at < piece.len() implies #[trigger] begins_not(
        piece,
        alias_word(),
        at,
    ) by {
        if piece[at] == 'S' {
            assert(differs_within(piece, alias_word(), at, 1) || differs_within(piece, alias_word(), at, 4));
        } else {
            assert(differs_within(piece, alias_word(), at, 0));
        }
    }
    assert forall|at: int| 0 <= at < piece.len() implies #[trigger] begins_not(
        piece,
        function_word(),
        at,
    ) by {
        if piece[at] == 'f' {
            assert(differs_within(piece, function_word(), at, 1));
        } else {
            assert(differs_within(piece, function_word(), at, 0));
        }
    }
}

/// No mark begins in the environment assignment.
proof fn lemma_scan_environment()
    ensures
        begins_nowhere(ENVIRONMENT_BLOCK@, alias_title()),
        begins_nowhere(ENVIRONMENT_BLOCK@, git_title()),
        begins_nowhere(ENVIRONMENT_BLOCK@, alias_word()),
        begins_nowhere(ENVIRONMENT_BLOCK@, function_word()),
{
    lemma_marks();
    reveal_strlit(
        r#"# --- Environment ---
$env:POSH_GIT_ENABLED = $true
"#,
    );
    let piece = ENVIRONMENT_BLOCK@;
    assert forall|at: int| 0 <= at < piece.len() implies #[trigger] begins_not(
        piece,
        alias_title(),
        at,
    ) by {
        if piece[at] == '#' {
            assert(differs_within(piece, alias_title(), at, 2) || differs_within(piece, alias_title(), at, 6));
        } else {
            assert(differs_within(piece, alias_title(), at, 0));
        }
    }
    assert forall|at: int| 0 <= at < piece.len() implies #[trigger] begins_not(
        piece,
        git_title(),
        at,
    ) by {
        if piece[at] == '#' {
            assert(differs_within(piece, git_title(), at, 2) || differs_within(piece, git_title(), at, 6));
        } else {
            assert(differs_within(piece, git_title(), at, 0));
        }
    }
    assert forall|at: int| 0 <= at < piece.len() implies #[trigger] begins_not(
        piece,
        alias_word(),
        at,
    ) by {
        if piece[at] == 'S' {
            assert(differs_within(piece, alias_word(), at, 1) || differs_within(piece, alias_word(), at, 4));
        } else {
            assert(differs_within(piece, alias_word(), at, 0));
        }
    }
    assert forall|at: int| 0 <= at < piece.len() implies #[trigger] begins_not(
        piece,
        function_word(),
        at,
    ) by {
        if piece[at] == 'f' {
            assert(differs_within(piece, function_word(), at, 1));
        } else {
            assert(differs_within(piece, function_word(), at, 0));
        }
    }
}

/// No mark begins in a line break.
proof fn lemma_scan_line_break()
    ensures
        begins_nowhere(line_break(), alias_title()),
        begins_nowhere(line_break(), git_title()),
        begins_nowhere(line_break(), alias_word()),
        begins_nowhere(line_break(), function_word()),
        line_break().len() == 1,
        line_break()[0] == '\n',
{
    lemma_marks();
    reveal_strlit("\n");
    let piece = line_break();
    assert forall|at: int| 0 <= at < piece.len() implies #[trigger] begins_not(piece, alias_title(), at) by {
        assert(differs_within(piece, alias_title(), at, 0));
    }
    assert forall|at: int| 0 <= at < piece.len() implies #[trigger] begins_not(piece, git_title(), at) by {
        assert(differs_within(piece, git_title(), at, 0));
    }
    assert forall|at: int| 0 <= at < piece.len() implies #[trigger] begins_not(piece, alias_word(), at) by {
        assert(differs_within(piece, alias_word(), at, 0));
    }
    assert forall|at: int| 0 <= at < piece.len() implies #[trigger] begins_not(piece, function_word(), at) by {
        assert(differs_within(piece, function_word(), at, 0));
    }
}

/// No mark begins in a fixed piece of a profile without aliases.
pub proof fn lemma_fixed_pieces_are_clean()
    ensures
        fixed_pieces_are_clean(alias_title()),
        fixed_pieces_are_clean(git_title()),
        fixed_pieces_are_clean(alias_word()),
        fixed_pieces_are_clean(function_word()),
{
    lemma_scan_header();
    lemma_scan_import_title();
    lemma_scan_import_prefix();
    lemma_scan_guard_prefix();
    lemma_scan_guard_middle();
    lemma_scan_guard_suffix();
    lemma_scan_theme_prefix();
    lemma_scan_theme_suffix();
    lemma_scan_readline();
    lemma_scan_environment();
    lemma_scan_line_break();
}

/// What follows a name in a profile: a line break after an unconditional
/// import, a bracket and a space with a brace after the names of a guarded
/// import, and a dot after the theme.
pub proof fn lemma_followers()
    ensures
        GUARD_MIDDLE@.len() > 0,
        GUARD_SUFFIX@.len() > 1,
        GUARD_SUFFIX@[0] == ' ',
        GUARD_SUFFIX@[1] == '}',
        THEME_SUFFIX@.len() > 0,
        THEME_SUFFIX@[0] == '.',
        GUARD_MIDDLE@[0] == ')',
        line_break().len() == 1,
        line_break()[0] == '\n',
{
    reveal_strlit(" }\n");
    lemma_scan_guard_middle();
    lemma_scan_guard_suffix();
    lemma_scan_theme_suffix();
    lemma_scan_line_break();
}

/// Where no occurrence of the beginning of a needle begins in a fixed piece,
/// none of the needle does.
proof fn lemma_longer_mark(beginning: Seq<char>, needle: Seq<char>)
    requires
        beginning.len() <= needle.len(),
        needle.take(beginning.len() as int) == beginning,
        fixed_pieces_are_clean(beginning),
    ensures
        fixed_pieces_are_clean(needle),
{
    lemma_longer_needle(HEADER_BLOCK@, beginning, needle);
    lemma_longer_needle(IMPORT_TITLE@, beginning, needle);
    lemma_longer_needle(IMPORT_PREFIX@, beginning, needle);
    lemma_longer_needle(GUARD_PREFIX@, beginning, needle);
    lemma_longer_needle(GUARD_MIDDLE@, beginning, needle);
    lemma_longer_needle(GUARD_SUFFIX@, beginning, needle);
    lemma_longer_needle(THEME_PREFIX@, beginning, needle);
    lemma_longer_needle(THEME_SUFFIX@, beginning, needle);
    lemma_longer_needle(READLINE_BLOCK@, beginning, needle);
    lemma_longer_needle(ENVIRONMENT_BLOCK@, beginning, needle);
    lemma_longer_needle(line_break(), beginning, needle);
}

/// The load statement of a plugin whose name does not hold the core of the
/// needle leaves the occurrences of what follows as they are, moved behind
/// the statement.
proof fn lemma_behind_statement(
    name: Seq<char>,
    rest: Seq<char>,
    needle: Seq<char>,
    core: int,
    place: Option<int>,
)
    requires
        fixed_pieces_are_clean(needle),
        core_is_unbroken(needle, core),
        !contains_text(name, needle.take(core)),
        found(rest, needle, place),
        place is Some ==> place->Some_0 >= 0,
    ensures
        found(import_line(name) + rest, needle, moved(place, import_line(name).len())),
{
    lemma_followers();
    if is_core_plugin(name) {
        let after_break = line_break() + rest;
        lemma_behind_clean_piece(line_break(), rest, needle, place);
        let after_name = name + after_break;
        lemma_behind_name(name, after_break, needle, core, moved(place, line_break().len()));
        let whole = IMPORT_PREFIX@ + after_name;
        lemma_behind_clean_piece(
            IMPORT_PREFIX@,
            after_name,
            needle,
            moved(moved(place, line_break().len()), name.len()),
        );
        assert(unconditional_import(name) + rest =~= whole);
    } else {
        let after_suffix = GUARD_SUFFIX@ + rest;
        lemma_behind_clean_piece(GUARD_SUFFIX@, rest, needle, place);
        let first = moved(place, GUARD_SUFFIX@.len());
        let after_second_name = name + after_suffix;
        lemma_behind_name(name, after_suffix, needle, core, first);
        let second = moved(first, name.len());
        let after_middle = GUARD_MIDDLE@ + after_second_name;
        lemma_behind_clean_piece(GUARD_MIDDLE@, after_second_name, needle, second);
        let third = moved(second, GUARD_MIDDLE@.len());
        let after_first_name = name + after_middle;
        lemma_behind_name(name, after_middle, needle, core, third);
        let fourth = moved(third, name.len());
        let whole = GUARD_PREFIX@ + after_first_name;
        lemma_behind_clean_piece(GUARD_PREFIX@, after_first_name, needle, fourth);
        assert(guarded_import(name) + rest =~= whole);
    }
}

/// The load statements of plugins whose names do not hold the core of the
/// needle leave the occurrences of what follows as they are, moved behind
/// the statements.
proof fn lemma_behind_imports(
    plugins: Seq<Seq<char>>,
    rest: Seq<char>,
    needle: Seq<char>,
    core: int,
    place: Option<int>,
)
    requires
        fixed_pieces_are_clean(needle),
        core_is_unbroken(needle, core),
        forall|k: int| 0 <= k < plugins.len() ==> !contains_text(#[trigger] plugins[k], needle.take(core)),
        found(rest, needle, place),
        place is Some ==> place->Some_0 >= 0,
    ensures
        found(import_lines(plugins) + rest, needle, moved(place, import_lines(plugins).len())),
    decreases plugins.len(),
{
    if plugins.len() == 0 {
        assert(import_lines(plugins) + rest =~= rest);
    } else {
        let last = plugins.last();
        let earlier = plugins.drop_last();
        let behind = import_line(last) + rest;
        assert(!contains_text(plugins[plugins.len() - 1], needle.take(core)));
        lemma_behind_statement(last, rest, needle, core, place);
        assert forall|k: int| 0 <= k < earlier.len() implies !contains_text(
            #[trigger] earlier[k],
            needle.take(core),
        ) by {
            assert(earlier[k] == plugins[k]);
        }
        lemma_behind_imports(earlier, behind, needle, core, moved(place, import_line(last).len()));
        assert(import_lines(plugins) + rest =~= import_lines(earlier) + behind);
    }
}

/// Everything before the alias section of a profile whose names do not hold
/// the core of the needle leaves the occurrences of what follows as they are,
/// moved behind it.
proof fn lemma_behind_prelude(
    theme: Seq<char>,
    plugins: Seq<Seq<char>>,
    rest: Seq<char>,
    needle: Seq<char>,
    core: int,
    place: Option<int>,
)
    requires
        fixed_pieces_are_clean(needle),
        core_is_unbroken(needle, core),
        names_are_free_of(theme, plugins, needle.take(core)),
        found(rest, needle, place),
        place is Some ==> place->Some_0 >= 0,
    ensures
        found(
            profile_prelude(theme, plugins) + rest,
            needle,
            moved(place, profile_prelude(theme, plugins).len()),
        ),
{
    lemma_followers();
    let after_settings = READLINE_BLOCK@ + rest;
    lemma_behind_clean_piece(READLINE_BLOCK@, rest, needle, place);
    let first = moved(place, READLINE_BLOCK@.len());
    let after_suffix = THEME_SUFFIX@ + after_settings;
    lemma_behind_clean_piece(THEME_SUFFIX@, after_settings, needle, first);
    let second = moved(first, THEME_SUFFIX@.len());
    let after_theme = theme + after_suffix;
    lemma_behind_name(theme, after_suffix, needle, core, second);
    let third = moved(second, theme.len());
    let after_prefix = THEME_PREFIX@ + after_theme;
    lemma_behind_clean_piece(THEME_PREFIX@, after_theme, needle, third);
    let fourth = moved(third, THEME_PREFIX@.len());
    let after_break = line_break() + after_prefix;
    lemma_behind_clean_piece(line_break(), after_prefix, needle, fourth);
    let fifth = moved(fourth, line_break().len());
    let after_imports = import_lines(plugins) + after_break;
    lemma_behind_imports(plugins, after_break, needle, core, fifth);
    let sixth = moved(fifth, import_lines(plugins).len());
    let after_title = IMPORT_TITLE@ + after_imports;
    lemma_behind_clean_piece(IMPORT_TITLE@, after_imports, needle, sixth);
    let seventh = moved(sixth, IMPORT_TITLE@.len());
    let whole = HEADER_BLOCK@ + after_title;
    lemma_behind_clean_piece(HEADER_BLOCK@, after_title, needle, seventh);
    assert(profile_prelude(theme, plugins) + rest =~= whole);
    assert(import_block(plugins).len() == IMPORT_TITLE@.len() + import_lines(plugins).len()
        + line_break().len());
    assert(theme_block(theme).len() == THEME_PREFIX@.len() + theme.len() + THEME_SUFFIX@.len());
}

/// A needle that begins in no fixed piece, and whose core the names do not
/// hold, does not occur in a profile without aliases; and where it begins at
/// one place of the alias block only, it occurs in a profile with aliases
/// at that place of the block and nowhere else.
proof fn lemma_mark_in_profile(
    theme: Seq<char>,
    plugins: Seq<Seq<char>>,
    needle: Seq<char>,
    core: int,
    place: int,
)
    requires
        fixed_pieces_are_clean(needle),
        core_is_unbroken(needle, core),
        names_are_free_of(theme, plugins, needle.take(core)),
        begins_only_at(ALIAS_BLOCK@, needle, place),
    ensures
        found(profile_text(theme, plugins, false), needle, None),
        found(
            profile_text(theme, plugins, true),
            needle,
            Some(profile_prelude(theme, plugins).len() + place),
        ),
{
    let prelude = profile_prelude(theme, plugins);
    lemma_clean_piece_alone(ENVIRONMENT_BLOCK@, needle);
    lemma_behind_prelude(theme, plugins, ENVIRONMENT_BLOCK@, needle, core, None);
    assert(profile_text(theme, plugins, false) =~= prelude + ENVIRONMENT_BLOCK@);
    let with_aliases = ALIAS_BLOCK@ + ENVIRONMENT_BLOCK@;
    lemma_piece_with_the_needle(ALIAS_BLOCK@, ENVIRONMENT_BLOCK@, needle, place);
    lemma_behind_prelude(theme, plugins, with_aliases, needle, core, Some(place));
    assert(profile_text(theme, plugins, true) =~= prelude + with_aliases);
}

/// Where the marks stand in the alias block: the title at its beginning, the
/// alias behind the title, the title of the git shortcuts and the first
/// shortcut further on, each at one place only.
proof fn lemma_scan_aliases()
    ensures
        begins_only_at(ALIAS_BLOCK@, alias_title(), 0),
        begins_only_at(ALIAS_BLOCK@, alias_statement(), 18),
        begins_only_at(ALIAS_BLOCK@, git_title(), 83),
        begins_only_at(ALIAS_BLOCK@, status_shortcut(), 107),
{
    reveal_strlit("# --- Aliases ---");
    reveal_strlit("# --- Git Shortcuts ---");
    reveal_strlit("Set-Alias ll Get-ChildItem");
    reveal_strlit("function gs { git status }");
    reveal_strlit(
        r#"# --- Aliases ---
Set-Alias ll Get-ChildItem
function la { Get-ChildItem -Force }

# --- Git Shortcuts ---
function gs { git status }
function gcom { git commit @args }
function gpush { git push @args }
function gl { git log --oneline --graph --decorate --all }
function gco { git checkout @args }
function gb { git branch @args }
function gd { git diff @args }

"#,
    );
    let piece = ALIAS_BLOCK@;
    assert(piece.subrange(0, 17) =~= alias_title());
    assert(piece.subrange(18, 44) =~= alias_statement());
    assert(piece.subrange(83, 106) =~= git_title());
    assert(piece.subrange(107, 133) =~= status_shortcut());
    assert forall|at: int| 0 <= at < piece.len() && at != 0 implies #[trigger] begins_not(
        piece,
        alias_title(),
        at,
    ) by {
        if piece[at] == '#' {
            assert(differs_within(piece, alias_title(), at, 6));
        } else {
            assert(differs_within(piece, alias_title(), at, 0));
        }
    }
    assert forall|at: int| 0 <= at < piece.len() && at != 18 implies #[trigger] begins_not(
        piece,
        alias_statement(),
        at,
    ) by {
        if piece[at] == 'S' {
            assert(differs_within(piece, alias_statement(), at, 1));
        } else {
            assert(differs_within(piece, alias_statement(), at, 0));
        }
    }
    assert forall|at: int| 0 <= at < piece.len() && at != 83 implies #[trigger] begins_not(
        piece,
        git_title(),
        at,
    ) by {
        if piece[at] == '#' {
            assert(differs_within(piece, git_title(), at, 6));
        } else {
            assert(differs_within(piece, git_title(), at, 0));
        }
    }
    assert forall|at: int| 0 <= at < piece.len() && at != 107 implies #[trigger] begins_not(
        piece,
        status_shortcut(),
        at,
    ) by {
        if piece[at] == 'f' {
            assert(differs_within(piece, status_shortcut(), at, 9) || differs_within(
                piece,
                status_shortcut(),
                at,
                10,
            ));
        } else {
            assert(differs_within(piece, status_shortcut(), at, 0));
        }
    }
}

/// The cores of the marks: the beginning of the titles, and the two words.
proof fn lemma_cores()
    ensures
        alias_title().take(6) == title_beginning(),
        git_title().take(6) == title_beginning(),
        alias_word().take(9) == alias_word(),
        function_word().take(8) == function_word(),
        alias_statement().take(9) == alias_word(),
        status_shortcut().take(8) == function_word(),
        core_is_unbroken(alias_title(), 6),
        core_is_unbroken(git_title(), 6),
        core_is_unbroken(alias_word(), 9),
        core_is_unbroken(function_word(), 8),
        core_is_unbroken(alias_statement(), 9),
        core_is_unbroken(status_shortcut(), 8),
{
    reveal_strlit("# --- ");
    reveal_strlit("# --- Aliases ---");
    reveal_strlit("# --- Git Shortcuts ---");
    reveal_strlit("Set-Alias");
    reveal_strlit("function");
    reveal_strlit("Set-Alias ll Get-ChildItem");
    reveal_strlit("function gs { git status }");
    assert(alias_title().take(6) =~= title_beginning());
    assert(git_title().take(6) =~= title_beginning());
    assert(alias_word().take(9) =~= alias_word());
    assert(function_word().take(8) =~= function_word());
    assert(alias_statement().take(9) =~= alias_word());
    assert(status_shortcut().take(8) =~= function_word());
}

/// Without the alias flag the profile holds no mark of the alias block:
/// neither of its two titles, nor the word that sets an alias, nor the word
/// that begins a shortcut. This holds of every theme and plugin list whose
/// names hold neither the beginning of a title nor one of the two words.
pub proof fn law_no_alias_marks_without_the_flag(theme: Seq<char>, plugins: Seq<Seq<char>>)
    requires
        names_are_unmarked(theme, plugins),
    ensures
        !contains_text(profile_text(theme, plugins, false), alias_title()),
        !contains_text(profile_text(theme, plugins, false), git_title()),
        !contains_text(profile_text(theme, plugins, false), alias_word()),
        !contains_text(profile_text(theme, plugins, false), function_word()),
{
    let text = profile_text(theme, plugins, false);
    lemma_fixed_pieces_are_clean();
    lemma_cores();
    lemma_followers();
    lemma_clean_piece_alone(ENVIRONMENT_BLOCK@, alias_title());
    lemma_behind_prelude(theme, plugins, ENVIRONMENT_BLOCK@, alias_title(), 6, None);
    lemma_clean_piece_alone(ENVIRONMENT_BLOCK@, git_title());
    lemma_behind_prelude(theme, plugins, ENVIRONMENT_BLOCK@, git_title(), 6, None);
    lemma_clean_piece_alone(ENVIRONMENT_BLOCK@, alias_word());
    lemma_behind_prelude(theme, plugins, ENVIRONMENT_BLOCK@, alias_word(), 9, None);
    lemma_clean_piece_alone(ENVIRONMENT_BLOCK@, function_word());
    lemma_behind_prelude(theme, plugins, ENVIRONMENT_BLOCK@, function_word(), 8, None);
    assert(text =~= profile_prelude(theme, plugins) + ENVIRONMENT_BLOCK@);
}

/// With the alias flag each mark of the alias block stands in the profile
/// exactly once, at its place in the block: the title at the block's
/// beginning, then the alias, the title of the git shortcuts and the first
/// shortcut. This holds of every theme and plugin list whose names hold
/// neither the beginning of a title nor one of the two words.
pub proof fn law_alias_marks_once_with_the_flag(theme: Seq<char>, plugins: Seq<Seq<char>>)
    requires
        names_are_unmarked(theme, plugins),
    ensures
        forall|at: int| #[trigger]
            occurs_at(profile_text(theme, plugins, true), alias_title(), at) <==> at
                == profile_prelude(theme, plugins).len(),
        forall|at: int| #[trigger]
            occurs_at(profile_text(theme, plugins, true), alias_statement(), at) <==> at
                == profile_prelude(theme, plugins).len() + 18,
        forall|at: int| #[trigger]
            occurs_at(profile_text(theme, plugins, true), git_title(), at) <==> at
                == profile_prelude(theme, plugins).len() + 83,
        forall|at: int| #[trigger]
            occurs_at(profile_text(theme, plugins, true), status_shortcut(), at) <==> at
                == profile_prelude(theme, plugins).len() + 107,
{
    lemma_fixed_pieces_are_clean();
    lemma_cores();
    lemma_scan_aliases();
    lemma_longer_mark(alias_word(), alias_statement());
    lemma_longer_mark(function_word(), status_shortcut());
    lemma_mark_in_profile(theme, plugins, alias_title(), 6, 0);
    lemma_mark_in_profile(theme, plugins, alias_statement(), 9, 18);
    lemma_mark_in_profile(theme, plugins, git_title(), 6, 83);
    lemma_mark_in_profile(theme, plugins, status_shortcut(), 8, 107);
}

} // verus!
