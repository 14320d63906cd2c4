use vstd::prelude::*;
use crate::application::profile_content::{
    alias_section, guarded_import, import_line, import_lines, is_core_plugin, profile_text,
    unconditional_import, ALIAS_BLOCK, ENVIRONMENT_BLOCK, GUARD_MIDDLE, GUARD_PREFIX,
    GUARD_SUFFIX, HEADER_BLOCK, IMPORT_PREFIX, IMPORT_TITLE, READLINE_BLOCK, THEME_PREFIX,
    THEME_SUFFIX,
};
use crate::application::profile_marks::{
    core_is_unbroken, lemma_followers, line_break, names_are_free_of,
};
use crate::infrastructure::occurrences::{
    begins_not, begins_nowhere, begins_only_at, behind, differs_within,
    lemma_places_behind_clean_piece, lemma_places_behind_name,
    lemma_places_behind_piece_with_the_needle, lemma_places_in_clean_piece, occurs_where,
    with_place,
};
use crate::infrastructure::text::{contains_text, occurs_at};

verus! {

/// The word that loads a module, with the space behind it.
pub open spec fn import_word() -> Seq<char> {
    "Import-Module "@
}

/// The word that loads a module.
pub open spec fn import_name() -> Seq<char> {
    "Import-Module"@
}

/// Where the import word stands in the load statement of a plugin: at its
/// beginning in an unconditional import, and behind the guard in a guarded
/// one.
pub open spec fn word_offset(name: Seq<char>) -> int {
    if is_core_plugin(name) {
        0
    } else {
        (GUARD_PREFIX@.len() + name.len() + 4) as int
    }
}

/// Where the import word of the entry at `position` stands in the load
/// statements of a plugin list.
pub open spec fn word_place(plugins: Seq<Seq<char>>, position: int) -> int {
    import_lines(plugins.take(position)).len() + word_offset(plugins[position])
}

/// Whether `at` is where the import word of an entry stands in the load
/// statements of a plugin list.
pub open spec fn is_word_place(plugins: Seq<Seq<char>>, at: int) -> bool {
    exists|position: int|
        0 <= position < plugins.len() && at == #[trigger] word_place(plugins, position)
}

/// Where the load statements begin in a profile.
pub open spec fn statements_begin() -> int {
    (HEADER_BLOCK@.len() + IMPORT_TITLE@.len()) as int
}

/// The import word.
proof fn lemma_import_word()
    ensures
        import_word().len() == 14,
        import_word()[0] == 'I',
        import_word()[1] == 'm',
        import_word()[6] == '-',
        import_word() == IMPORT_PREFIX@,
        import_word().take(13) == import_name(),
        core_is_unbroken(import_word(), 13),
{
    reveal_strlit("Import-Module ");
    reveal_strlit("Import-Module");
    assert(import_word().take(13) =~= import_name());
}

/// The import word begins nowhere in the banner.
proof fn lemma_word_scan_header()
    ensures
        begins_nowhere(HEADER_BLOCK@, import_word()),
{
    lemma_import_word();
    reveal_strlit(
        r#"# ===========================
# Modern PowerShell 7 Profile
# ===========================

"#,
    );
    let piece = HEADER_BLOCK@;
    assert forall|at: int| 0 <= at < piece.len() implies #[trigger] begins_not(
        piece,
        import_word(),
        at,
    ) by {
        if piece[at] == 'I' {
            assert(differs_within(piece, import_word(), at, 1) || differs_within(
                piece,
                import_word(),
                at,
                6,
            ));
        } else {
            assert(differs_within(piece, import_word(), at, 0));
        }
    }
}

/// The import word begins nowhere in the title of the import section.
proof fn lemma_word_scan_import_title()
    ensures
        begins_nowhere(IMPORT_TITLE@, import_word()),
{
    lemma_import_word();
    reveal_strlit("# --- Import Modules ---\n");
    let piece = IMPORT_TITLE@;
    assert forall|at: int| 0 <= at < piece.len() implies #[trigger] begins_not(
        piece,
        import_word(),
        at,
    ) by {
        if piece[at] == 'I' {
            assert(differs_within(piece, import_word(), at, 1) || differs_within(
                piece,
                import_word(),
                at,
                6,
            ));
        } else {
            assert(differs_within(piece, import_word(), at, 0));
        }
    }
}

/// The import word begins nowhere in the beginning of a guarded import.
proof fn lemma_word_scan_guard_prefix()
    ensures
        begins_nowhere(GUARD_PREFIX@, import_word()),
{
    lemma_import_word();
    reveal_strlit("if (Get-Module -ListAvailable -Name ");
    let piece = GUARD_PREFIX@;
    assert forall|at: int| 0 <= at < piece.len() implies #[trigger] begins_not(
        piece,
        import_word(),
        at,
    ) by {
        if piece[at] == 'I' {
            assert(differs_within(piece, import_word(), at, 1) || differs_within(
                piece,
                import_word(),
                at,
                6,
            ));
        } else {
            assert(differs_within(piece, import_word(), at, 0));
        }
    }
}

/// The import word begins nowhere in the end of a guarded import.
proof fn lemma_word_scan_guard_suffix()
    ensures
        begins_nowhere(GUARD_SUFFIX@, import_word()),
{
    lemma_import_word();
    reveal_strlit(" }\n");
    let piece = GUARD_SUFFIX@;
    assert forall|at: int| 0 <= at < piece.len() implies #[trigger] begins_not(
        piece,
        import_word(),
        at,
    ) by {
        if piece[at] == 'I' {
            assert(differs_within(piece, import_word(), at, 1) || differs_within(
                piece,
                import_word(),
                at,
                6,
            ));
        } else {
            assert(differs_within(piece, import_word(), at, 0));
        }
    }
}

/// The import word begins nowhere in the beginning of the theme block.
proof fn lemma_word_scan_theme_prefix()
    ensures
        begins_nowhere(THEME_PREFIX@, import_word()),
{
    lemma_import_word();
    reveal_strlit(
        r#"# Oh-My-Posh prompt theme
if (Get-Command oh-my-posh -ErrorAction SilentlyContinue) {
    $configPath = "$env:POSH_THEMES_PATH\"#,
    );
    let piece = THEME_PREFIX@;
    assert forall|at: int| 0 <= at < piece.len() implies #[trigger] begins_not(
        piece,
        import_word(),
        at,
    ) by {
        if piece[at] == 'I' {
            assert(differs_within(piece, import_word(), at, 1) || differs_within(
                piece,
                import_word(),
                at,
                6,
            ));
        } else {
            assert(differs_within(piece, import_word(), at, 0));
        }
    }
}

/// The import word begins nowhere in the end of the theme block.
proof fn lemma_word_scan_theme_suffix()
    ensures
        begins_nowhere(THEME_SUFFIX@, import_word()),
{
    lemma_import_word();
    reveal_strlit(
        r#".omp.json"
    if (Test-Path $configPath) {
        oh-my-posh init pwsh --config $configPath | Invoke-Expression
    } else {
        oh-my-posh init pwsh | Invoke-Expression
    }
}

"#,
    );
    let piece = THEME_SUFFIX@;
    assert forall|at: int| 0 <= at < piece.len() implies #[trigger] begins_not(
        piece,
        import_word(),
        at,
    ) by {
        if piece[at] == 'I' {
            assert(differs_within(piece, import_word(), at, 1) || differs_within(
                piece,
                import_word(),
                at,
                6,
            ));
        } else {
            assert(differs_within(piece, import_word(), at, 0));
        }
    }
}

/// The import word begins nowhere in the line-editor settings.
proof fn lemma_word_scan_readline()
    ensures
        begins_nowhere(READLINE_BLOCK@, import_word()),
{
    lemma_import_word();
    reveal_strlit(
        r#"# --- PSReadLine Settings ---
Set-PSReadLineOption -PredictionSource History
Set-PSReadLineOption -PredictionViewStyle InlineView
Set-PSReadLineOption -Colors @{ "InlinePrediction" = 'Cyan' }
Set-PSReadLineOption -EditMode Windows

# History search with arrow keys
Set-PSReadLineKeyHandler -Key UpArrow -Function HistorySearchBackward
Set-PSReadLineKeyHandler -Key DownArrow -Function HistorySearchForward

# Syntax colors
Set-PSReadLineOption -Colors @{
    "Command"   = 'Yellow'
    "Parameter" = 'Green'
    "String"    = 'Magenta'
    "Operator"  = 'DarkCyan'
    "Variable"  = 'White'
}

"#,
    );
    let piece = READLINE_BLOCK@;
    assert forall|at: int| 0 <= at < piece.len() implies #[trigger] begins_not(
        piece,
        import_word(),
        at,
    ) by {
        if piece[at] == 'I' {
            assert(differs_within(piece, import_word(), at, 1) || differs_within(
                piece,
                import_word(),
                at,
                6,
            ));
        } else {
            assert(differs_within(piece, import_word(), at, 0));
        }
    }
}

/// The import word begins nowhere in the alias block.
proof fn lemma_word_scan_aliases()
    ensures
        begins_nowhere(ALIAS_BLOCK@, import_word()),
{
    lemma_import_word();
    reveal_strlit(
        r#"# --- Aliases ---
Set-Alias ll Get-ChildItem
function la { Get-ChildItem -Force }

# --- Git Shortcuts ---
function gs { git status }
function gcom { git commit @args }
function gpush { git push @args }
function gl { git log --oneline --graph --decorate --all }
function gco { git checkout @args }
function gb { git branch @args }
function gd { git diff @args }

"#,
    );
    let piece = ALIAS_BLOCK@;
    assert forall|at: int| 0 <= at < piece.len() implies #[trigger] begins_not(
        piece,
        import_word(),
        at,
    ) by {
        if piece[at] == 'I' {
            assert(differs_within(piece, import_word(), at, 1) || differs_within(
                piece,
                import_word(),
                at,
                6,
            ));
        } else {
            assert(differs_within(piece, import_word(), at, 0));
        }
    }
}

/// The import word begins nowhere in the environment assignment.
proof fn lemma_word_scan_environment()
    ensures
        begins_nowhere(ENVIRONMENT_BLOCK@, import_word()),
{
    lemma_import_word();
    reveal_strlit(
        r#"# --- Environment ---
$env:POSH_GIT_ENABLED = $true
"#,
    );
    let piece = ENVIRONMENT_BLOCK@;
    assert forall|at: int| 0 <= at < piece.len() implies #[trigger] begins_not(
        piece,
        import_word(),
        at,
    ) by {
        if piece[at] == 'I' {
            assert(differs_within(piece, import_word(), at, 1) || differs_within(
                piece,
                import_word(),
                at,
                6,
            ));
        } else {
            assert(differs_within(piece, import_word(), at, 0));
        }
    }
}

/// The import word begins nowhere in a line break.
proof fn lemma_word_scan_line_break()
    ensures
        begins_nowhere(line_break(), import_word()),
{
    lemma_import_word();
    reveal_strlit("\n");
    let piece = line_break();
    assert forall|at: int| 0 <= at < piece.len() implies #[trigger] begins_not(
        piece,
        import_word(),
        at,
    ) by {
        assert(differs_within(piece, import_word(), at, 0));
    }
}

/// The import word is the beginning of an unconditional import.
proof fn lemma_word_scan_import_prefix()
    ensures
        begins_only_at(IMPORT_PREFIX@, import_word(), 0),
        IMPORT_PREFIX@.len() == 14,
{
    reveal_strlit("Import-Module ");
    let piece = IMPORT_PREFIX@;
    assert(piece.subrange(0, 14) =~= import_word());
    assert forall|at: int| 0 <= at < piece.len() && at != 0 implies #[trigger] begins_not(
        piece,
        import_word(),
        at,
    ) by {
        assert(piece[at] != 'I');
        assert(differs_within(piece, import_word(), at, 0));
    }
}

/// The import word stands once in the middle of a guarded import.
proof fn lemma_word_scan_guard_middle()
    ensures
        begins_only_at(GUARD_MIDDLE@, import_word(), 4),
        GUARD_MIDDLE@.len() == 18,
{
    reveal_strlit("Import-Module ");
    reveal_strlit(") { Import-Module ");
    let piece = GUARD_MIDDLE@;
    let word = import_word();
    assert(piece.len() == 18);
    assert(piece.subrange(4, 18).len() == word.len());
    assert forall|k: int| 0 <= k < 14 implies piece.subrange(4, 18)[k] == word[k] by {
        assert(piece[4 + k] == word[k]);
    }
    assert(piece.subrange(4, 18) =~= word);
    assert forall|at: int| 0 <= at < piece.len() && at != 4 implies #[trigger] begins_not(
        piece,
        word,
        at,
    ) by {
        assert(piece[at] != 'I');
        assert(differs_within(piece, word, at, 0));
    }
}

/// In the load statement of a plugin whose name does not hold the import
/// word, the word stands once, at its place in the statement; the places
/// of what follows stay, moved behind the statement.
proof fn lemma_word_in_statement(name: Seq<char>, rest: Seq<char>, places: spec_fn(int) -> bool)
    requires
        !contains_text(name, import_name()),
        occurs_where(rest, import_word(), places),
    ensures
        occurs_where(
            import_line(name) + rest,
            import_word(),
            |at: int|
                at == word_offset(name) || (at >= import_line(name).len() && places(
                    at - import_line(name).len(),
                )),
        ),
{
    lemma_import_word();
    lemma_followers();
    lemma_word_scan_line_break();
    lemma_word_scan_import_prefix();
    lemma_word_scan_guard_middle();
    lemma_word_scan_guard_prefix();
    lemma_word_scan_guard_suffix();
    let word = import_word();
    let statement = import_line(name);
    if is_core_plugin(name) {
        let after_break = line_break() + rest;
        lemma_places_behind_clean_piece(line_break(), rest, word, places);
        let first = behind(places, line_break().len());
        let after_name = name + after_break;
        lemma_places_behind_name(name, after_break, word, 13, first);
        let second = behind(first, name.len());
        let whole = IMPORT_PREFIX@ + after_name;
        lemma_places_behind_piece_with_the_needle(IMPORT_PREFIX@, after_name, word, 0, second);
        let third = with_place(0, behind(second, IMPORT_PREFIX@.len()));
        assert(unconditional_import(name) + rest =~= whole);
        assert forall|at: int| #[trigger]
            occurs_at(statement + rest, word, at) <==> (at == word_offset(name) || (at
                >= statement.len() && places(at - statement.len()))) by {
            assert(occurs_at(whole, word, at) <==> third(at));
        }
    } else {
        let after_suffix = GUARD_SUFFIX@ + rest;
        lemma_places_behind_clean_piece(GUARD_SUFFIX@, rest, word, places);
        let first = behind(places, GUARD_SUFFIX@.len());
        let after_second_name = name + after_suffix;
        lemma_places_behind_name(name, after_suffix, word, 13, first);
        let second = behind(first, name.len());
        let after_middle = GUARD_MIDDLE@ + after_second_name;
        lemma_places_behind_piece_with_the_needle(
            GUARD_MIDDLE@,
            after_second_name,
            word,
            4,
            second,
        );
        let third = with_place(4, behind(second, GUARD_MIDDLE@.len()));
        let after_first_name = name + after_middle;
        lemma_places_behind_name(name, after_middle, word, 13, third);
        let fourth = behind(third, name.len());
        let whole = GUARD_PREFIX@ + after_first_name;
        lemma_places_behind_clean_piece(GUARD_PREFIX@, after_first_name, word, fourth);
        let fifth = behind(fourth, GUARD_PREFIX@.len());
        assert(guarded_import(name) + rest =~= whole);
        assert forall|at: int| #[trigger]
            occurs_at(statement + rest, word, at) <==> (at == word_offset(name) || (at
                >= statement.len() && places(at - statement.len()))) by {
            assert(occurs_at(whole, word, at) <==> fifth(at));
            assert(occurs_at(rest, word, at - statement.len()) <==> places(at - statement.len()));
        }
    }
}

/// The import word of an entry stands within the entry's statement.
proof fn lemma_word_offset(name: Seq<char>)
    ensures
        0 <= word_offset(name) < import_line(name).len(),
{
    lemma_word_scan_import_prefix();
    lemma_word_scan_guard_middle();
}

/// In the load statements of plugins whose names do not hold the import
/// word, the word stands once for each entry, at the entry's statement; the
/// places of what follows stay, moved behind the statements.
proof fn lemma_words_in_imports(plugins: Seq<Seq<char>>, rest: Seq<char>, places: spec_fn(int) -> bool)
    requires
        forall|k: int| 0 <= k < plugins.len() ==> !contains_text(#[trigger] plugins[k], import_name()),
        occurs_where(rest, import_word(), places),
    ensures
        occurs_where(
            import_lines(plugins) + rest,
            import_word(),
            |at: int|
                is_word_place(plugins, at) || (at >= import_lines(plugins).len() && places(
                    at - import_lines(plugins).len(),
                )),
        ),
    decreases plugins.len(),
{
    let word = import_word();
    if plugins.len() == 0 {
        assert(import_lines(plugins) + rest =~= rest);
        assert forall|at: int| #[trigger]
            occurs_at(import_lines(plugins) + rest, word, at) <==> (is_word_place(plugins, at) || (
            at >= import_lines(plugins).len() && places(at - import_lines(plugins).len()))) by {
            assert(occurs_at(rest, word, at) <==> places(at));
        }
    } else {
        let last = plugins.last();
        let earlier = plugins.drop_last();
        let statement = import_line(last);
        let behind_earlier = statement + rest;
        let before = import_lines(earlier).len();
        assert(!contains_text(plugins[plugins.len() - 1], import_name()));
        lemma_word_in_statement(last, rest, places);
        lemma_word_offset(last);
        let later = |at: int|
            at == word_offset(last) || (at >= statement.len() && places(at - statement.len()));
        assert forall|k: int| 0 <= k < earlier.len() implies !contains_text(
            #[trigger] earlier[k],
            import_name(),
        ) by {
            assert(earlier[k] == plugins[k]);
        }
        lemma_words_in_imports(earlier, behind_earlier, later);
        assert(import_lines(plugins) + rest =~= import_lines(earlier) + behind_earlier);
        assert(plugins.take(plugins.len() - 1) =~= earlier);
        assert(word_place(plugins, plugins.len() - 1) == before + word_offset(last));
        assert forall|k: int| 0 <= k < earlier.len() implies word_place(plugins, k) == word_place(
            earlier,
            k,
        ) by {
            assert(plugins.take(k) =~= earlier.take(k));
        }
        assert forall|at: int| #[trigger]
            occurs_at(import_lines(plugins) + rest, word, at) <==> (is_word_place(plugins, at) || (
            at >= import_lines(plugins).len() && places(at - import_lines(plugins).len()))) by {
            let whole = import_lines(earlier) + behind_earlier;
            assert(occurs_at(whole, word, at) <==> (is_word_place(earlier, at) || (at >= before
                && later(at - before))));
            if is_word_place(earlier, at) {
                let k = choose|k: int| 0 <= k < earlier.len() && at == word_place(earlier, k);
                assert(at == word_place(plugins, k));
            }
            if at >= before && at - before == word_offset(last) {
                assert(at == word_place(plugins, plugins.len() - 1));
            }
            if is_word_place(plugins, at) {
                let k = choose|k: int| 0 <= k < plugins.len() && at == word_place(plugins, k);
                if k < earlier.len() {
                    assert(at == word_place(earlier, k));
                }
            }
        }
    }
}

/// The import word stands in a profile once for each entry of the plugin
/// list, at the entry's load statement, and nowhere else: at the beginning of
/// the statement of a core plugin, and behind the guard in the statement of
/// another. The words of the entries follow one another in list order. This
/// holds of every theme and plugin list whose names do not hold the import
/// word.
pub proof fn law_one_import_word_per_plugin(
    theme: Seq<char>,
    plugins: Seq<Seq<char>>,
    include_aliases: bool,
)
    requires
        names_are_free_of(theme, plugins, import_name()),
    ensures
        forall|at: int| #[trigger]
            occurs_at(profile_text(theme, plugins, include_aliases), import_word(), at)
                <==> is_word_place(plugins, at - statements_begin()),
        forall|position: int|
            0 <= position < plugins.len() - 1 ==> #[trigger] word_place(plugins, position)
                < word_place(plugins, position + 1),
        forall|position: int|
            0 <= position < plugins.len() && is_core_plugin(plugins[position])
                ==> #[trigger] word_place(plugins, position) == import_lines(
                plugins.take(position),
            ).len(),
{
    lemma_import_word();
    lemma_followers();
    lemma_word_scan_header();
    lemma_word_scan_import_title();
    lemma_word_scan_theme_prefix();
    lemma_word_scan_theme_suffix();
    lemma_word_scan_readline();
    lemma_word_scan_aliases();
    lemma_word_scan_environment();
    lemma_word_scan_line_break();
    let word = import_word();
    let text = profile_text(theme, plugins, include_aliases);
    let nowhere = |at: int| false;
    lemma_places_in_clean_piece(ENVIRONMENT_BLOCK@, word);
    let tail = alias_section(include_aliases) + ENVIRONMENT_BLOCK@;
    let in_tail = if include_aliases {
        behind(nowhere, ALIAS_BLOCK@.len())
    } else {
        nowhere
    };
    if include_aliases {
        lemma_places_behind_clean_piece(ALIAS_BLOCK@, ENVIRONMENT_BLOCK@, word, nowhere);
    } else {
        assert(tail =~= ENVIRONMENT_BLOCK@);
    }
    let after_settings = READLINE_BLOCK@ + tail;
    lemma_places_behind_clean_piece(READLINE_BLOCK@, tail, word, in_tail);
    let first = behind(in_tail, READLINE_BLOCK@.len());
    let after_suffix = THEME_SUFFIX@ + after_settings;
    lemma_places_behind_clean_piece(THEME_SUFFIX@, after_settings, word, first);
    let second = behind(first, THEME_SUFFIX@.len());
    let after_theme = theme + after_suffix;
    lemma_places_behind_name(theme, after_suffix, word, 13, second);
    let third = behind(second, theme.len());
    let after_prefix = THEME_PREFIX@ + after_theme;
    lemma_places_behind_clean_piece(THEME_PREFIX@, after_theme, word, third);
    let fourth = behind(third, THEME_PREFIX@.len());
    let after_break = line_break() + after_prefix;
    lemma_places_behind_clean_piece(line_break(), after_prefix, word, fourth);
    let fifth = behind(fourth, line_break().len());
    let after_imports = import_lines(plugins) + after_break;
    lemma_words_in_imports(plugins, after_break, fifth);
    let sixth = |at: int|
        is_word_place(plugins, at) || (at >= import_lines(plugins).len() && fifth(
            at - import_lines(plugins).len(),
        ));
    let after_title = IMPORT_TITLE@ + after_imports;
    lemma_places_behind_clean_piece(IMPORT_TITLE@, after_imports, word, sixth);
    let seventh = behind(sixth, IMPORT_TITLE@.len());
    let whole = HEADER_BLOCK@ + after_title;
    lemma_places_behind_clean_piece(HEADER_BLOCK@, after_title, word, seventh);
    let eighth = behind(seventh, HEADER_BLOCK@.len());
    assert(text =~= whole);
    assert forall|at: int| #[trigger] occurs_at(text, word, at) <==> is_word_place(
        plugins,
        at - statements_begin(),
    ) by {
        assert(occurs_at(whole, word, at) <==> eighth(at));
        if is_word_place(plugins, at - statements_begin()) {
            let k = choose|k: int|
                0 <= k < plugins.len() && at - statements_begin() == word_place(plugins, k);
            lemma_word_offset(plugins[k]);
        }
    }
    assert forall|position: int| 0 <= position < plugins.len() - 1 implies #[trigger] word_place(
        plugins,
        position,
    ) < word_place(plugins, position + 1) by {
        let longer = plugins.take(position + 1);
        assert(longer.drop_last() =~= plugins.take(position));
        assert(longer.last() == plugins[position]);
        lemma_word_offset(plugins[position]);
        lemma_word_offset(plugins[position + 1]);
    }
}

} // verus!
