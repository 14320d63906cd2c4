use vstd::prelude::*;
use crate::domain::entities::profile::{names_of, ProfileConfig, ProfileConfigView};

verus! {

/// The first line of the summary of a completed setup.
pub const SUMMARY_TITLE: &'static str = "Setup completed successfully!";

/// What stands between two plugins in the summary.
pub const PLUGIN_SEPARATOR: &'static str = ", ";

/// The names of a list, one after the other with `separator` between them.
pub open spec fn joined(names: Seq<Seq<char>>, separator: Seq<char>) -> Seq<char>
    decreases names.len(),
{
    if names.len() == 0 {
        Seq::empty()
    } else if names.len() == 1 {
        names[0]
    } else {
        joined(names.drop_last(), separator) + separator + names.last()
    }
}

/// The lines of the summary: the title, the theme, the plugins, where the
/// profile was written, and the shell to restart.
pub open spec fn summary_of(config: ProfileConfigView, profile_path: Seq<char>, shell: Seq<char>) -> Seq<
    Seq<char>,
> {
    seq![
        SUMMARY_TITLE@,
        "Theme: "@ + config.theme,
        "Plugins: "@ + joined(config.plugins, PLUGIN_SEPARATOR@),
        "Profile written to: "@ + profile_path,
        "Restart "@ + shell + " to see the changes."@,
    ]
}

/// The names of a list, one after the other with `separator` between them.
pub fn join(names: &Vec<String>, separator: &str) -> (text: String)
    ensures
        text@ == joined(names_of(names@), separator@),
{
    let ghost all = names_of(names@);
    let mut text = String::new();
    let mut i: usize = 0;
    while i < names.len()
        invariant
            i <= names@.len(),
            all == names_of(names@),
            text@ == joined(all.take(i as int), separator@),
        decreases names@.len() - i,
    {
        proof {
            let next = all.take(i + 1);
            assert(next.drop_last() =~= all.take(i as int));
            assert(next.last() == names@[i as int]@);
            if i == 0 {
                assert(all.take(0).len() == 0);
                assert(next[0] == names@[0]@);
            }
        }
        if i > 0 {
            text.append(separator);
        }
        text.append(names[i].as_str());
        proof {
            if i == 0 {
                assert(text@ =~= names@[0]@);
            }
        }
        i = i + 1;
    }
    assert(all.take(i as int) =~= all);
    text
}

/// The lines of the summary of a completed setup.
pub fn summary_lines(config: &ProfileConfig, profile_path: &str, shell: &str) -> (lines: Vec<String>)
    ensures
        names_of(lines@) == summary_of(config@, profile_path@, shell@),
{
    let mut lines: Vec<String> = Vec::new();
    lines.push(String::from_str(SUMMARY_TITLE));
    let mut theme = String::from_str("Theme: ");
    theme.append(config.theme.as_str());
    lines.push(theme);
    let mut plugins = String::from_str("Plugins: ");
    let list = join(&config.plugins, PLUGIN_SEPARATOR);
    plugins.append(list.as_str());
    lines.push(plugins);
    let mut written = String::from_str("Profile written to: ");
    written.append(profile_path);
    lines.push(written);
    let mut restart = String::from_str("Restart ");
    restart.append(shell);
    restart.append(" to see the changes.");
    lines.push(restart);
    assert(names_of(lines@) =~= summary_of(config@, profile_path@, shell@));
    lines
}

} // verus!
