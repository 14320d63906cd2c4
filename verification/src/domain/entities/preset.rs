use vstd::prelude::*;

verus! {

/// A pre-configured profile: a named bundle of theme, plugins and alias flag.
#[derive(Debug, Clone)]
pub struct ProfilePreset {
    pub name: &'static str,
    pub description: &'static str,
    pub theme: &'static str,
    pub plugins: Vec<&'static str>,
    pub include_aliases: bool,
}

/// The mathematical value of a [`ProfilePreset`].
pub ghost struct ProfilePresetView {
    pub name: Seq<char>,
    pub description: Seq<char>,
    pub theme: Seq<char>,
    pub plugins: Seq<Seq<char>>,
    pub include_aliases: bool,
}

impl View for ProfilePreset {
    type V = ProfilePresetView;

    open spec fn view(&self) -> ProfilePresetView {
        ProfilePresetView {
            name: self.name@,
            description: self.description@,
            theme: self.theme@,
            plugins: Seq::new(self.plugins@.len(), |i: int| self.plugins@[i]@),
            include_aliases: self.include_aliases,
        }
    }
}

/// The preset with only the two core plugins and no aliases.
pub open spec fn minimal_preset() -> ProfilePresetView {
    ProfilePresetView {
        name: "Minimal"@,
        description: "Basic setup with essential features only"@,
        theme: "pure"@,
        plugins: seq!["PSReadLine"@, "posh-git"@],
        include_aliases: false,
    }
}

/// The preset with every plugin of the catalog.
pub open spec fn developer_preset() -> ProfilePresetView {
    ProfilePresetView {
        name: "Developer"@,
        description: "Full-featured setup for developers"@,
        theme: "paradox"@,
        plugins: seq!["PSReadLine"@, "posh-git"@, "Terminal-Icons"@, "PSFzf"@, "z"@],
        include_aliases: true,
    }
}

/// The preset for professional use.
pub open spec fn work_preset() -> ProfilePresetView {
    ProfilePresetView {
        name: "Work"@,
        description: "Professional setup with productivity tools"@,
        theme: "jandedobbeleer"@,
        plugins: seq!["PSReadLine"@, "posh-git"@, "Terminal-Icons"@, "PSFzf"@],
        include_aliases: true,
    }
}

/// The sentinel preset: it carries no theme and no plugins, and asks for a
/// selection made by hand.
pub open spec fn custom_preset() -> ProfilePresetView {
    ProfilePresetView {
        name: "Custom"@,
        description: "Choose your own theme and plugins"@,
        theme: ""@,
        plugins: Seq::empty(),
        include_aliases: true,
    }
}

/// The catalog in display order.
pub open spec fn preset_catalog() -> Seq<ProfilePresetView> {
    seq![minimal_preset(), developer_preset(), work_preset(), custom_preset()]
}

impl ProfilePreset {
    pub fn minimal() -> (preset: ProfilePreset)
        ensures
            preset@ == minimal_preset(),
    {
        let mut plugins: Vec<&'static str> = Vec::new();
        plugins.push("PSReadLine");
        plugins.push("posh-git");
        let preset = ProfilePreset {
            name: "Minimal",
            description: "Basic setup with essential features only",
            theme: "pure",
            plugins,
            include_aliases: false,
        };
        assert(preset@.plugins =~= minimal_preset().plugins);
        preset
    }

    pub fn developer() -> (preset: ProfilePreset)
        ensures
            preset@ == developer_preset(),
    {
        let mut plugins: Vec<&'static str> = Vec::new();
        plugins.push("PSReadLine");
        plugins.push("posh-git");
        plugins.push("Terminal-Icons");
        plugins.push("PSFzf");
        plugins.push("z");
        let preset = ProfilePreset {
            name: "Developer",
            description: "Full-featured setup for developers",
            theme: "paradox",
            plugins,
            include_aliases: true,
        };
        assert(preset@.plugins =~= developer_preset().plugins);
        preset
    }

    pub fn work() -> (preset: ProfilePreset)
        ensures
            preset@ == work_preset(),
    {
        let mut plugins: Vec<&'static str> = Vec::new();
        plugins.push("PSReadLine");
        plugins.push("posh-git");
        plugins.push("Terminal-Icons");
        plugins.push("PSFzf");
        let preset = ProfilePreset {
            name: "Work",
            description: "Professional setup with productivity tools",
            theme: "jandedobbeleer",
            plugins,
            include_aliases: true,
        };
        assert(preset@.plugins =~= work_preset().plugins);
        preset
    }

    pub fn custom() -> (preset: ProfilePreset)
        ensures
            preset@ == custom_preset(),
    {
        let preset = ProfilePreset {
            name: "Custom",
            description: "Choose your own theme and plugins",
            theme: "",
            plugins: Vec::new(),
            include_aliases: true,
        };
        assert(preset@.plugins =~= custom_preset().plugins);
        preset
    }

    /// Every preset, in the order in which it is displayed; the order is the
    /// same on every call.
    pub fn all() -> (presets: Vec<ProfilePreset>)
        ensures
            presets@.len() == 4,
            forall|i: int| 0 <= i < 4 ==> (#[trigger] presets@[i])@ == preset_catalog()[i],
    {
        let mut presets: Vec<ProfilePreset> = Vec::new();
        presets.push(ProfilePreset::minimal());
        presets.push(ProfilePreset::developer());
        presets.push(ProfilePreset::work());
        presets.push(ProfilePreset::custom());
        presets
    }
}

} // verus!
