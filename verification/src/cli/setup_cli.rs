use vstd::prelude::*;
use crate::domain::entities::preset::{preset_catalog, ProfilePreset, ProfilePresetView};
use crate::domain::entities::profile::{names_of, ProfileConfig, ProfileConfigView};

verus! {

/// What stands between a name and its description in a menu line.
pub const LABEL_SEPARATOR: &'static str = " - ";

/// The name of the preset that asks for a selection made by hand.
pub const CUSTOM_PRESET: &'static str = "Custom";

/// The position of the preset that a menu offers first.
pub const DEFAULT_PRESET: usize = 1;

/// The position of the theme that a menu offers first.
pub const DEFAULT_THEME: usize = 0;

/// The wizard's side of the setup: the catalogs that its menus show, and what
/// the answers to them select.
pub struct SetupCli {}

/// The names and descriptions of a catalog.
pub open spec fn catalog_of(entries: Seq<(&'static str, &'static str)>) -> Seq<(Seq<char>, Seq<char>)> {
    Seq::new(entries.len(), |i: int| (entries[i].0@, entries[i].1@))
}

/// The themes that can be chosen, with their descriptions.
pub open spec fn theme_catalog() -> Seq<(Seq<char>, Seq<char>)> {
    seq![
        ("paradox"@, "Clean and informative with git status"@),
        ("agnoster"@, "Classic powerline theme"@),
        ("atomic"@, "Minimal and fast"@),
        ("blue-owl"@, "Blue themed with icons"@),
        ("bubbles"@, "Colorful bubble segments"@),
        ("capr4n"@, "Compact with git info"@),
        ("clean-detailed"@, "Detailed system info"@),
        ("craver"@, "Developer focused"@),
        ("dracula"@, "Dark Dracula theme"@),
        ("gruvbox"@, "Retro groove colors"@),
        ("jandedobbeleer"@, "Oh-My-Posh author's theme"@),
        ("material"@, "Material design inspired"@),
        ("montys"@, "Monty Python themed"@),
        ("night-owl"@, "Night Owl color scheme"@),
        ("powerlevel10k_rainbow"@, "Colorful powerline"@),
        ("pure"@, "Minimal pure theme"@),
        ("robbyrussell"@, "Oh-My-Zsh classic"@),
        ("sonicboom_dark"@, "Fast and dark"@),
        ("star"@, "Star symbols theme"@),
        ("tokyo"@, "Tokyo Night theme"@),
    ]
}

/// The plugins that can be chosen, with their descriptions.
pub open spec fn plugin_catalog() -> Seq<(Seq<char>, Seq<char>)> {
    seq![
        ("PSReadLine"@, "Enhanced command line editing (core)"@),
        ("posh-git"@, "Git status in prompt (core)"@),
        ("Terminal-Icons"@, "File and folder icons in listings"@),
        ("PSFzf"@, "Fuzzy finder integration (auto-installs fzf)"@),
        ("z"@, "Quick directory jumping"@),
    ]
}

/// The menu line of a catalog entry.
pub open spec fn label_of(entry: (Seq<char>, Seq<char>)) -> Seq<char> {
    entry.0 + LABEL_SEPARATOR@ + entry.1
}

/// The menu lines of a catalog, in its order.
pub open spec fn labels_of(catalog: Seq<(Seq<char>, Seq<char>)>) -> Seq<Seq<char>> {
    Seq::new(catalog.len(), |i: int| label_of(catalog[i]))
}

/// The names of the catalog entries at the chosen positions, in the order of
/// the choice.
pub open spec fn chosen_names(catalog: Seq<(Seq<char>, Seq<char>)>, indices: Seq<usize>) -> Seq<Seq<char>> {
    Seq::new(indices.len(), |i: int| catalog[indices[i] as int].0)
}

/// The configuration that a preset and, for the custom preset, a selection
/// give: nothing where the custom preset comes without a selection.
pub open spec fn config_from_preset(
    preset: ProfilePresetView,
    selection: Option<(Seq<char>, Seq<Seq<char>>)>,
) -> Option<ProfileConfigView> {
    if preset.name == CUSTOM_PRESET@ {
        match selection {
            Some((theme, plugins)) => Some(
                ProfileConfigView { theme, plugins, include_aliases: preset.include_aliases },
            ),
            None => None,
        }
    } else {
        Some(
            ProfileConfigView {
                theme: preset.theme,
                plugins: preset.plugins,
                include_aliases: preset.include_aliases,
            },
        )
    }
}

/// The menu lines of a catalog.
pub fn labels(entries: &Vec<(&'static str, &'static str)>) -> (lines: Vec<String>)
    ensures
        names_of(lines@) == labels_of(catalog_of(entries@)),
{
    let mut lines: Vec<String> = Vec::new();
    let mut i: usize = 0;
    while i < entries.len()
        invariant
            i <= entries@.len(),
            lines@.len() == i,
            forall|j: int| 0 <= j < i ==> (#[trigger] lines@[j])@ == label_of(catalog_of(entries@)[j]),
        decreases entries@.len() - i,
    {
        let mut line = String::from_str(entries[i].0);
        line.append(LABEL_SEPARATOR);
        line.append(entries[i].1);
        lines.push(line);
        i = i + 1;
    }
    assert(names_of(lines@) =~= labels_of(catalog_of(entries@)));
    lines
}

impl SetupCli {
    pub fn new() -> (cli: SetupCli) {
        SetupCli {  }
    }

    /// The themes that can be chosen, in menu order.
    pub fn themes() -> (entries: Vec<(&'static str, &'static str)>)
        ensures
            catalog_of(entries@) == theme_catalog(),
            entries@.len() == 20,
    {
        let mut entries: Vec<(&'static str, &'static str)> = Vec::new();
        entries.push(("paradox", "Clean and informative with git status"));
        entries.push(("agnoster", "Classic powerline theme"));
        entries.push(("atomic", "Minimal and fast"));
        entries.push(("blue-owl", "Blue themed with icons"));
        entries.push(("bubbles", "Colorful bubble segments"));
        entries.push(("capr4n", "Compact with git info"));
        entries.push(("clean-detailed", "Detailed system info"));
        entries.push(("craver", "Developer focused"));
        entries.push(("dracula", "Dark Dracula theme"));
        entries.push(("gruvbox", "Retro groove colors"));
        entries.push(("jandedobbeleer", "Oh-My-Posh author's theme"));
        entries.push(("material", "Material design inspired"));
        entries.push(("montys", "Monty Python themed"));
        entries.push(("night-owl", "Night Owl color scheme"));
        entries.push(("powerlevel10k_rainbow", "Colorful powerline"));
        entries.push(("pure", "Minimal pure theme"));
        entries.push(("robbyrussell", "Oh-My-Zsh classic"));
        entries.push(("sonicboom_dark", "Fast and dark"));
        entries.push(("star", "Star symbols theme"));
        entries.push(("tokyo", "Tokyo Night theme"));
        assert(catalog_of(entries@) =~= theme_catalog());
        entries
    }

    /// The plugins that can be chosen, in menu order.
    pub fn plugins() -> (entries: Vec<(&'static str, &'static str)>)
        ensures
            catalog_of(entries@) == plugin_catalog(),
            entries@.len() == 5,
    {
        let mut entries: Vec<(&'static str, &'static str)> = Vec::new();
        entries.push(("PSReadLine", "Enhanced command line editing (core)"));
        entries.push(("posh-git", "Git status in prompt (core)"));
        entries.push(("Terminal-Icons", "File and folder icons in listings"));
        entries.push(("PSFzf", "Fuzzy finder integration (auto-installs fzf)"));
        entries.push(("z", "Quick directory jumping"));
        assert(catalog_of(entries@) =~= plugin_catalog());
        entries
    }

    /// Which plugins a menu offers as chosen: the two core plugins.
    pub fn plugin_defaults() -> (defaults: Vec<bool>)
        ensures
            defaults@ == seq![true, true, false, false, false],
    {
        let mut defaults: Vec<bool> = Vec::new();
        defaults.push(true);
        defaults.push(true);
        defaults.push(false);
        defaults.push(false);
        defaults.push(false);
        assert(defaults@ =~= seq![true, true, false, false, false]);
        defaults
    }

    /// The menu lines of the themes.
    pub fn theme_items(&self) -> (lines: Vec<String>)
        ensures
            names_of(lines@) == labels_of(theme_catalog()),
    {
        let entries = SetupCli::themes();
        labels(&entries)
    }

    /// The menu lines of the plugins.
    pub fn plugin_items(&self) -> (lines: Vec<String>)
        ensures
            names_of(lines@) == labels_of(plugin_catalog()),
    {
        let entries = SetupCli::plugins();
        labels(&entries)
    }

    /// The menu lines of the presets: each preset's name and description.
    pub fn preset_items(&self) -> (lines: Vec<String>)
        ensures
            lines@.len() == 4,
            forall|i: int|
                0 <= i < 4 ==> (#[trigger] lines@[i])@ == label_of(
                    (preset_catalog()[i].name, preset_catalog()[i].description),
                ),
    {
        let presets = ProfilePreset::all();
        let mut lines: Vec<String> = Vec::new();
        let mut i: usize = 0;
        while i < presets.len()
            invariant
                i <= presets@.len(),
                presets@.len() == 4,
                forall|k: int| 0 <= k < 4 ==> (#[trigger] presets@[k])@ == preset_catalog()[k],
                lines@.len() == i,
                forall|j: int|
                    0 <= j < i ==> (#[trigger] lines@[j])@ == label_of(
                        (preset_catalog()[j].name, preset_catalog()[j].description),
                    ),
            decreases presets@.len() - i,
        {
            assert(presets@[i as int]@ == preset_catalog()[i as int]);
            let mut line = String::from_str(presets[i].name);
            line.append(LABEL_SEPARATOR);
            line.append(presets[i].description);
            lines.push(line);
            i = i + 1;
        }
        lines
    }

    /// The preset at a position of the menu.
    pub fn select_preset(&self, index: usize) -> (preset: ProfilePreset)
        requires
            index < 4,
        ensures
            preset@ == preset_catalog()[index as int],
    {
        if index == 0 {
            ProfilePreset::minimal()
        } else if index == 1 {
            ProfilePreset::developer()
        } else if index == 2 {
            ProfilePreset::work()
        } else {
            ProfilePreset::custom()
        }
    }

    /// The name of the theme at a position of the menu.
    pub fn select_theme(&self, index: usize) -> (theme: String)
        requires
            index < theme_catalog().len(),
        ensures
            theme@ == theme_catalog()[index as int].0,
    {
        let entries = SetupCli::themes();
        assert(catalog_of(entries@)[index as int] == theme_catalog()[index as int]);
        String::from_str(entries[index].0)
    }

    /// The names of the plugins at the chosen positions of the menu, in the
    /// order of the choice.
    pub fn select_plugins(&self, indices: &Vec<usize>) -> (plugins: Vec<String>)
        requires
            forall|i: int| 0 <= i < indices@.len() ==> indices@[i] < plugin_catalog().len(),
        ensures
            names_of(plugins@) == chosen_names(plugin_catalog(), indices@),
    {
        let entries = SetupCli::plugins();
        let mut plugins: Vec<String> = Vec::new();
        let mut i: usize = 0;
        while i < indices.len()
            invariant
                i <= indices@.len(),
                catalog_of(entries@) == plugin_catalog(),
                entries@.len() == 5,
                forall|k: int| 0 <= k < indices@.len() ==> indices@[k] < plugin_catalog().len(),
                plugins@.len() == i,
                forall|j: int|
                    0 <= j < i ==> (#[trigger] plugins@[j])@ == plugin_catalog()[indices@[j] as int].0,
            decreases indices@.len() - i,
        {
            let index = indices[i];
            assert(catalog_of(entries@)[index as int] == plugin_catalog()[index as int]);
            plugins.push(String::from_str(entries[index].0));
            i = i + 1;
        }
        assert(names_of(plugins@) =~= chosen_names(plugin_catalog(), indices@));
        plugins
    }

    /// The theme and the plugins that the answers to the two menus select.
    pub fn select_custom_configuration(&self, theme_index: usize, plugin_indices: &Vec<usize>) -> (selection: (
        String,
        Vec<String>,
    ))
        requires
            theme_index < theme_catalog().len(),
            forall|i: int|
                0 <= i < plugin_indices@.len() ==> plugin_indices@[i] < plugin_catalog().len(),
        ensures
            selection.0@ == theme_catalog()[theme_index as int].0,
            names_of(selection.1@) == chosen_names(plugin_catalog(), plugin_indices@),
    {
        let theme = self.select_theme(theme_index);
        let plugins = self.select_plugins(plugin_indices);
        (theme, plugins)
    }

    /// Whether a preset asks for a selection made by hand.
    pub fn is_custom(preset: &ProfilePreset) -> (custom: bool)
        ensures
            custom == (preset@.name == CUSTOM_PRESET@),
    {
        let name = String::from_str(preset.name);
        let custom = String::from_str(CUSTOM_PRESET);
        name == custom
    }

    /// The configuration for a preset. The custom preset takes its theme and
    /// plugins from the selection, and gives nothing without one; every other
    /// preset brings its own. The alias flag is the preset's.
    pub fn build_config_from_preset(
        &self,
        preset: &ProfilePreset,
        selection: Option<(String, Vec<String>)>,
    ) -> (config: Option<ProfileConfig>)
        ensures
            match config_from_preset(
                preset@,
                match selection {
                    Some((theme, plugins)) => Some((theme@, names_of(plugins@))),
                    None => None,
                },
            ) {
                Some(expected) => config is Some && config->Some_0@ == expected,
                None => config is None,
            },
    {
        if SetupCli::is_custom(preset) {
            match selection {
                Some((theme, plugins)) => Some(
                    ProfileConfig { theme, plugins, include_aliases: preset.include_aliases },
                ),
                None => None,
            }
        } else {
            let mut plugins: Vec<String> = Vec::new();
            let mut i: usize = 0;
            while i < preset.plugins.len()
                invariant
                    i <= preset.plugins@.len(),
                    plugins@.len() == i,
                    forall|j: int| 0 <= j < i ==> (#[trigger] plugins@[j])@ == preset.plugins@[j]@,
                decreases preset.plugins@.len() - i,
            {
                plugins.push(String::from_str(preset.plugins[i]));
                i = i + 1;
            }
            assert(names_of(plugins@) =~= preset@.plugins);
            Some(
                ProfileConfig {
                    theme: String::from_str(preset.theme),
                    plugins,
                    include_aliases: preset.include_aliases,
                },
            )
        }
    }
}

impl Default for SetupCli {
    fn default() -> (cli: SetupCli) {
        SetupCli::new()
    }
}

} // verus!
