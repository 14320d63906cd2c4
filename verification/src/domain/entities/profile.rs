use vstd::prelude::*;

verus! {

/// A PowerShell profile configuration: the prompt theme, the plugins in the
/// order in which they are imported, and whether the alias block is wanted.
#[derive(Debug, Clone)]
pub struct ProfileConfig {
    pub theme: String,
    pub plugins: Vec<String>,
    pub include_aliases: bool,
}

/// The mathematical value of a [`ProfileConfig`].
pub ghost struct ProfileConfigView {
    pub theme: Seq<char>,
    pub plugins: Seq<Seq<char>>,
    pub include_aliases: bool,
}

/// The plugin names of a list of strings, each as a sequence of characters.
pub open spec fn names_of(list: Seq<String>) -> Seq<Seq<char>> {
    Seq::new(list.len(), |i: int| list[i]@)
}

impl View for ProfileConfig {
    type V = ProfileConfigView;

    open spec fn view(&self) -> ProfileConfigView {
        ProfileConfigView {
            theme: self.theme@,
            plugins: names_of(self.plugins@),
            include_aliases: self.include_aliases,
        }
    }
}

/// A copy of a list of names.
pub fn copy_names(list: &Vec<String>) -> (copy: Vec<String>)
    ensures
        names_of(copy@) == names_of(list@),
{
    let mut copy: Vec<String> = Vec::new();
    let mut i: usize = 0;
    while i < list.len()
        invariant
            i <= list@.len(),
            copy@.len() == i,
            forall|j: int| 0 <= j < i ==> (#[trigger] copy@[j])@ == list@[j]@,
        decreases list@.len() - i,
    {
        copy.push(list[i].clone());
        i = i + 1;
    }
    assert(names_of(copy@) =~= names_of(list@));
    copy
}

impl ProfileConfig {
    /// A copy with the same theme, plugins and alias flag.
    pub fn duplicate(&self) -> (copy: ProfileConfig)
        ensures
            copy@ == self@,
    {
        ProfileConfig {
            theme: self.theme.clone(),
            plugins: copy_names(&self.plugins),
            include_aliases: self.include_aliases,
        }
    }

    /// A configuration with the given theme and plugins; the alias block is
    /// included unless [`ProfileConfig::with_include_aliases`] says otherwise.
    pub fn new(theme: String, plugins: Vec<String>) -> (config: ProfileConfig)
        ensures
            config.theme == theme,
            config.plugins == plugins,
            config.include_aliases,
    {
        ProfileConfig { theme, plugins, include_aliases: true }
    }

    /// The same configuration with the alias flag replaced.
    pub fn with_include_aliases(self, include_aliases: bool) -> (config: ProfileConfig)
        ensures
            config.theme == self.theme,
            config.plugins == self.plugins,
            config.include_aliases == include_aliases,
    {
        ProfileConfig { theme: self.theme, plugins: self.plugins, include_aliases }
    }
}

} // verus!
