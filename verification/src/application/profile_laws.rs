use vstd::prelude::*;
use crate::application::profile_content::{
    alias_section, config_profile_text, import_line, import_lines, is_core_plugin, profile_prelude,
    profile_text, unconditional_import, ALIAS_BLOCK, ENVIRONMENT_BLOCK, HEADER_BLOCK,
};
use crate::domain::entities::profile::ProfileConfig;
use crate::infrastructure::text::{contains_text, lemma_trimmed_drops_one, occurs_at, trimmed};

verus! {

/// Two configurations with the same theme, the same plugins in the same order
/// and the same alias flag have the same profile text, character for character.
pub proof fn law_generation_is_deterministic(first: ProfileConfig, second: ProfileConfig)
    requires
        first@ == second@,
    ensures
        config_profile_text(first@) == config_profile_text(second@),
{
}

/// The load statements of a list that is made of two parts are those of the
/// first part followed by those of the second.
pub proof fn law_import_lines_of_concatenation(front: Seq<Seq<char>>, back: Seq<Seq<char>>)
    ensures
        import_lines(front + back) == import_lines(front) + import_lines(back),
    decreases back.len(),
{
    if back.len() == 0 {
        assert(front + back =~= front);
        assert(import_lines(front) + import_lines(back) =~= import_lines(front));
    } else {
        let whole = front + back;
        assert(whole.drop_last() =~= front + back.drop_last());
        assert(whole.last() == back.last());
        law_import_lines_of_concatenation(front, back.drop_last());
        assert(import_lines(whole) =~= import_lines(front) + import_lines(back));
    }
}

/// The import section holds exactly one load statement for each entry of the
/// plugin list, in the list's order: it is the concatenation of the entries'
/// statements, and nothing else.
pub proof fn law_import_lines_are_the_statements_in_order(plugins: Seq<Seq<char>>)
    ensures
        import_lines(plugins) == plugins.map_values(|plugin: Seq<char>| import_line(plugin)).flatten(),
    decreases plugins.len(),
{
    let statements = plugins.map_values(|plugin: Seq<char>| import_line(plugin));
    if plugins.len() == 0 {
        assert(statements =~= Seq::<Seq<char>>::empty());
        assert(statements.flatten() =~= Seq::<char>::empty());
    } else {
        let shorter = plugins.drop_last();
        law_import_lines_are_the_statements_in_order(shorter);
        let shorter_statements = shorter.map_values(|plugin: Seq<char>| import_line(plugin));
        assert(statements =~= shorter_statements.push(import_line(plugins.last())));
        shorter_statements.lemma_flatten_push(import_line(plugins.last()));
    }
}

/// The statement of the entry at a position stands after the statements of
/// the entries before it and before those of the entries after it; for one
/// of the two core plugins it is the unconditional import.
pub proof fn law_import_line_at_position(plugins: Seq<Seq<char>>, position: int)
    requires
        0 <= position < plugins.len(),
    ensures
        import_lines(plugins) == import_lines(plugins.take(position)) + import_line(
            plugins[position],
        ) + import_lines(plugins.skip(position + 1)),
        is_core_plugin(plugins[position]) ==> import_line(plugins[position])
            == unconditional_import(plugins[position]),
{
    let front = plugins.take(position + 1);
    let back = plugins.skip(position + 1);
    assert(front + back =~= plugins);
    law_import_lines_of_concatenation(front, back);
    assert(front.drop_last() =~= plugins.take(position));
    assert(front.last() == plugins[position]);
}

/// With the alias flag set the profile holds the alias block, between the
/// line-editor settings and the environment assignment; without the flag the
/// environment assignment follows the settings directly. Nothing else in the
/// text depends on the flag: the text with the flag is the text without it
/// with the alias block put in at that one place.
pub proof fn law_alias_block_follows_the_flag(theme: Seq<char>, plugins: Seq<Seq<char>>)
    ensures
        profile_text(theme, plugins, true) == profile_prelude(theme, plugins) + ALIAS_BLOCK@
            + ENVIRONMENT_BLOCK@,
        profile_text(theme, plugins, false) == profile_prelude(theme, plugins) + ENVIRONMENT_BLOCK@,
        occurs_at(
            profile_text(theme, plugins, true),
            ALIAS_BLOCK@,
            profile_prelude(theme, plugins).len() as int,
        ),
        contains_text(profile_text(theme, plugins, true), ALIAS_BLOCK@),
        profile_text(theme, plugins, true).len() == profile_text(theme, plugins, false).len()
            + ALIAS_BLOCK@.len(),
{
    let prelude = profile_prelude(theme, plugins);
    let with_aliases = profile_text(theme, plugins, true);
    assert(alias_section(true) == ALIAS_BLOCK@);
    assert(prelude + alias_section(false) =~= prelude);
    assert(with_aliases.subrange(prelude.len() as int, (prelude.len() + ALIAS_BLOCK@.len()) as int)
        =~= ALIAS_BLOCK@);
    assert(occurs_at(with_aliases, ALIAS_BLOCK@, prelude.len() as int));
}

/// What is persisted of a profile is its text without the last line break:
/// it begins with the banner and ends with the environment assignment.
pub proof fn law_persisted_profile_ends_with_the_assignment(
    theme: Seq<char>,
    plugins: Seq<Seq<char>>,
    include_aliases: bool,
)
    ensures
        trimmed(profile_text(theme, plugins, include_aliases)) == profile_text(
            theme,
            plugins,
            include_aliases,
        ).drop_last(),
        trimmed(profile_text(theme, plugins, include_aliases)) == profile_prelude(theme, plugins)
            + alias_section(include_aliases) + ENVIRONMENT_BLOCK@.drop_last(),
{
    reveal_strlit(
        r#"# ===========================
# Modern PowerShell 7 Profile
# ===========================

"#,
    );
    reveal_strlit(
        r#"# --- Environment ---
$env:POSH_GIT_ENABLED = $true
"#,
    );
    let text = profile_text(theme, plugins, include_aliases);
    let front = profile_prelude(theme, plugins) + alias_section(include_aliases);
    assert(text.first() == HEADER_BLOCK@[0]);
    assert(text.last() == ENVIRONMENT_BLOCK@.last());
    assert(text[text.len() - 2] == ENVIRONMENT_BLOCK@[ENVIRONMENT_BLOCK@.len() - 2]);
    lemma_trimmed_drops_one(text);
    assert(text.drop_last() =~= front + ENVIRONMENT_BLOCK@.drop_last());
}

} // verus!
