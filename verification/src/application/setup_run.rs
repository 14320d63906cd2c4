use vstd::prelude::*;
use crate::application::profile_content::{config_profile_text, generate_profile_content};
use crate::domain::entities::profile::{names_of, ProfileConfig, ProfileConfigView};

verus! {

/// The font that the terminal is configured with.
pub const TERMINAL_FONT: &'static str = "MesloLGM Nerd Font";

/// What a collaborator answered to the request that was pending.
#[derive(Debug, Clone, PartialEq, Eq)]
pub enum SetupEvent {
    /// The caller asks the run to begin.
    Start,
    /// The answer of a presence probe or of a support check.
    Probed(bool),
    /// The requested operation succeeded.
    Succeeded,
    /// The requested operation failed, with its diagnostic text.
    Failed(String),
    /// The profile store resolved the profile's path.
    PathResolved(String),
}

/// What the run asks its caller to do next.
#[derive(Debug, Clone, PartialEq, Eq)]
pub enum SetupAction {
    ProbeFont,
    InstallFont,
    CheckTerminalSupport,
    /// Make the font of this name the terminal's font.
    ConfigureTerminalFont { font_name: String },
    /// Probe the plugin installer at this position of the installer set.
    ProbePlugin { installer: usize },
    /// Run the plugin installer at this position of the installer set.
    InstallPlugin { installer: usize },
    ResolveProfilePath,
    WriteProfile { path: String, content: String },
    /// The run is complete.
    Finish,
    /// The run failed and nothing more is to be done.
    Abort,
    /// The event answered no pending request: nothing changed.
    Ignore,
}

/// The mathematical value of a [`SetupAction`].
pub ghost enum SetupActionView {
    ProbeFont,
    InstallFont,
    CheckTerminalSupport,
    ConfigureTerminalFont { font_name: Seq<char> },
    ProbePlugin { installer: usize },
    InstallPlugin { installer: usize },
    ResolveProfilePath,
    WriteProfile { path: String, content: Seq<char> },
    Finish,
    Abort,
    Ignore,
}

impl View for SetupAction {
    type V = SetupActionView;

    open spec fn view(&self) -> SetupActionView {
        match *self {
            SetupAction::ProbeFont => SetupActionView::ProbeFont,
            SetupAction::InstallFont => SetupActionView::InstallFont,
            SetupAction::CheckTerminalSupport => SetupActionView::CheckTerminalSupport,
            SetupAction::ConfigureTerminalFont { font_name } => SetupActionView::ConfigureTerminalFont {
                font_name: font_name@,
            },
            SetupAction::ProbePlugin { installer } => SetupActionView::ProbePlugin { installer },
            SetupAction::InstallPlugin { installer } => SetupActionView::InstallPlugin { installer },
            SetupAction::ResolveProfilePath => SetupActionView::ResolveProfilePath,
            SetupAction::WriteProfile { path, content } => SetupActionView::WriteProfile {
                path,
                content: content@,
            },
            SetupAction::Finish => SetupActionView::Finish,
            SetupAction::Abort => SetupActionView::Abort,
            SetupAction::Ignore => SetupActionView::Ignore,
        }
    }
}

/// Where a run stands: which answer it is waiting for.
#[derive(Debug, Clone, Copy, PartialEq, Eq)]
pub enum SetupStage {
    Idle,
    ProbingFont,
    InstallingFont,
    CheckingTerminal,
    ConfiguringTerminal,
    ProbingPlugin { plugin: usize, installer: usize },
    InstallingPlugin { plugin: usize, installer: usize },
    ResolvingProfilePath,
    WritingProfile,
    Done,
    Failed,
}

/// The phases of a run, in the order in which they are passed through.
#[derive(Debug, Clone, Copy, PartialEq, Eq)]
pub enum SetupPhase {
    Idle,
    InstallingCore,
    InstallingPlugins,
    WritingProfile,
    Done,
    Failed,
}

/// How the font installation ended.
#[derive(Debug, Clone, Copy, PartialEq, Eq)]
pub enum FontOutcome {
    AlreadyInstalled,
    Installed,
}

/// How the terminal font configuration ended. A failure is a warning only.
#[derive(Debug, Clone, PartialEq, Eq)]
pub enum TerminalOutcome {
    Unsupported,
    Configured,
    Warned(String),
}

/// How one entry of the plugin list ended. A failure is a warning only.
#[derive(Debug, Clone, PartialEq, Eq)]
pub enum PluginOutcome {
    /// No installer of the set has the plugin's name.
    Skipped,
    AlreadyInstalled,
    Installed,
    Warned(String),
}

/// The errors that end a run.
#[derive(Debug, Clone, PartialEq, Eq)]
pub enum FatalSetupError {
    CoreInstall(String),
    ProfilePath(String),
    ProfileWrite(String),
}

/// What a completed run did.
#[derive(Debug, Clone, PartialEq, Eq)]
pub struct SetupReport {
    pub font: FontOutcome,
    pub terminal: TerminalOutcome,
    /// One outcome for each entry of the plugin list, in list order.
    pub plugins: Vec<PluginOutcome>,
    pub profile_path: String,
}

/// The mathematical value of a [`SetupRun`]: the configuration and the
/// installer names it was made with, and what has happened so far.
pub ghost struct SetupRunView {
    pub config: ProfileConfigView,
    pub installers: Seq<Seq<char>>,
    pub stage: SetupStage,
    pub font: Option<FontOutcome>,
    pub terminal: Option<TerminalOutcome>,
    pub plugins: Seq<PluginOutcome>,
    pub profile_path: Option<String>,
    pub error: Option<FatalSetupError>,
}

/// The position of the first name at or after `from` that equals `name`.
pub open spec fn first_match(names: Seq<Seq<char>>, name: Seq<char>, from: int) -> Option<int>
    decreases names.len() - from,
{
    if from < 0 || from >= names.len() {
        None
    } else if names[from] == name {
        Some(from)
    } else {
        first_match(names, name, from + 1)
    }
}

/// The installer that serves a plugin: the first of the set with its name.
pub open spec fn installer_of(installers: Seq<Seq<char>>, plugin: Seq<char>) -> Option<int> {
    first_match(installers, plugin, 0)
}

/// A run at its beginning.
pub open spec fn initial_run(config: ProfileConfigView, installers: Seq<Seq<char>>) -> SetupRunView {
    SetupRunView {
        config,
        installers,
        stage: SetupStage::Idle,
        font: None,
        terminal: None,
        plugins: Seq::empty(),
        profile_path: None,
        error: None,
    }
}

/// The run when the plugin entries from `from` on are next: entries without
/// an installer are recorded as skipped, the first entry with an installer is
/// probed, and after the last entry the profile path is resolved.
pub open spec fn at_plugin(run: SetupRunView, from: int) -> SetupRunView
    decreases run.config.plugins.len() - from,
{
    if from < 0 || from >= run.config.plugins.len() {
        SetupRunView { stage: SetupStage::ResolvingProfilePath, ..run }
    } else {
        match installer_of(run.installers, run.config.plugins[from]) {
            Some(installer) => SetupRunView {
                stage: SetupStage::ProbingPlugin {
                    plugin: from as usize,
                    installer: installer as usize,
                },
                ..run
            },
            None => at_plugin(
                SetupRunView { plugins: run.plugins.push(PluginOutcome::Skipped), ..run },
                from + 1,
            ),
        }
    }
}

/// The run with one more plugin outcome, at the entry after `plugin`.
pub open spec fn after_plugin(run: SetupRunView, plugin: usize, outcome: PluginOutcome) -> SetupRunView {
    at_plugin(SetupRunView { plugins: run.plugins.push(outcome), ..run }, plugin + 1)
}

/// The run after the terminal step ended with `outcome`.
pub open spec fn after_terminal(run: SetupRunView, outcome: TerminalOutcome) -> SetupRunView {
    at_plugin(SetupRunView { terminal: Some(outcome), ..run }, 0)
}

/// The run after the font step ended with `outcome`.
pub open spec fn after_font(run: SetupRunView, outcome: FontOutcome) -> SetupRunView {
    SetupRunView { font: Some(outcome), stage: SetupStage::CheckingTerminal, ..run }
}

/// The run after a fatal error.
pub open spec fn failed_with(run: SetupRunView, error: FatalSetupError) -> SetupRunView {
    SetupRunView { stage: SetupStage::Failed, error: Some(error), ..run }
}

/// Whether the stage waits for this event.
pub open spec fn expects(stage: SetupStage, event: SetupEvent) -> bool {
    match stage {
        SetupStage::Idle => event is Start,
        SetupStage::ProbingFont => event is Probed,
        SetupStage::InstallingFont => event is Succeeded || event is Failed,
        SetupStage::CheckingTerminal => event is Probed,
        SetupStage::ConfiguringTerminal => event is Succeeded || event is Failed,
        SetupStage::ProbingPlugin { .. } => event is Probed,
        SetupStage::InstallingPlugin { .. } => event is Succeeded || event is Failed,
        SetupStage::ResolvingProfilePath => event is PathResolved || event is Failed,
        SetupStage::WritingProfile => event is Succeeded || event is Failed,
        SetupStage::Done => false,
        SetupStage::Failed => false,
    }
}

/// The run after an event. An event that the stage does not wait for changes
/// nothing.
pub open spec fn next_run(run: SetupRunView, event: SetupEvent) -> SetupRunView {
    match (run.stage, event) {
        (SetupStage::Idle, SetupEvent::Start) => SetupRunView {
            stage: SetupStage::ProbingFont,
            ..run
        },
        (SetupStage::ProbingFont, SetupEvent::Probed(present)) => if present {
            after_font(run, FontOutcome::AlreadyInstalled)
        } else {
            SetupRunView { stage: SetupStage::InstallingFont, ..run }
        },
        (SetupStage::InstallingFont, SetupEvent::Succeeded) => after_font(
            run,
            FontOutcome::Installed,
        ),
        (SetupStage::InstallingFont, SetupEvent::Failed(message)) => failed_with(
            run,
            FatalSetupError::CoreInstall(message),
        ),
        (SetupStage::CheckingTerminal, SetupEvent::Probed(supported)) => if supported {
            SetupRunView { stage: SetupStage::ConfiguringTerminal, ..run }
        } else {
            after_terminal(run, TerminalOutcome::Unsupported)
        },
        (SetupStage::ConfiguringTerminal, SetupEvent::Succeeded) => after_terminal(
            run,
            TerminalOutcome::Configured,
        ),
        (SetupStage::ConfiguringTerminal, SetupEvent::Failed(message)) => after_terminal(
            run,
            TerminalOutcome::Warned(message),
        ),
        (SetupStage::ProbingPlugin { plugin, installer }, SetupEvent::Probed(present)) => if present {
            after_plugin(run, plugin, PluginOutcome::AlreadyInstalled)
        } else {
            SetupRunView { stage: SetupStage::InstallingPlugin { plugin, installer }, ..run }
        },
        (SetupStage::InstallingPlugin { plugin, installer }, SetupEvent::Succeeded) => after_plugin(
            run,
            plugin,
            PluginOutcome::Installed,
        ),
        (SetupStage::InstallingPlugin { plugin, installer }, SetupEvent::Failed(message)) => after_plugin(
            run,
            plugin,
            PluginOutcome::Warned(message),
        ),
        (SetupStage::ResolvingProfilePath, SetupEvent::PathResolved(path)) => SetupRunView {
            stage: SetupStage::WritingProfile,
            profile_path: Some(path),
            ..run
        },
        (SetupStage::ResolvingProfilePath, SetupEvent::Failed(message)) => failed_with(
            run,
            FatalSetupError::ProfilePath(message),
        ),
        (SetupStage::WritingProfile, SetupEvent::Succeeded) => SetupRunView {
            stage: SetupStage::Done,
            ..run
        },
        (SetupStage::WritingProfile, SetupEvent::Failed(message)) => failed_with(
            run,
            FatalSetupError::ProfileWrite(message),
        ),
        _ => run,
    }
}

/// The request that a run in this state is waiting on: what its caller is to
/// do before the next event.
pub open spec fn pending_action(run: SetupRunView) -> SetupActionView {
    match run.stage {
        SetupStage::Idle => SetupActionView::Ignore,
        SetupStage::ProbingFont => SetupActionView::ProbeFont,
        SetupStage::InstallingFont => SetupActionView::InstallFont,
        SetupStage::CheckingTerminal => SetupActionView::CheckTerminalSupport,
        SetupStage::ConfiguringTerminal => SetupActionView::ConfigureTerminalFont {
            font_name: TERMINAL_FONT@,
        },
        SetupStage::ProbingPlugin { plugin, installer } => SetupActionView::ProbePlugin { installer },
        SetupStage::InstallingPlugin { plugin, installer } => SetupActionView::InstallPlugin {
            installer,
        },
        SetupStage::ResolvingProfilePath => SetupActionView::ResolveProfilePath,
        SetupStage::WritingProfile => match run.profile_path {
            Some(path) => SetupActionView::WriteProfile {
                path,
                content: config_profile_text(run.config),
            },
            None => SetupActionView::Ignore,
        },
        SetupStage::Done => SetupActionView::Finish,
        SetupStage::Failed => SetupActionView::Abort,
    }
}

/// The action that answers an event: the request of the state that the event
/// leads to, or nothing for an event that the stage does not wait for.
pub open spec fn next_action(run: SetupRunView, event: SetupEvent) -> SetupActionView {
    if expects(run.stage, event) {
        pending_action(next_run(run, event))
    } else {
        SetupActionView::Ignore
    }
}

/// The phase that a stage belongs to.
pub open spec fn phase_of(stage: SetupStage) -> SetupPhase {
    match stage {
        SetupStage::Idle => SetupPhase::Idle,
        SetupStage::ProbingFont => SetupPhase::InstallingCore,
        SetupStage::InstallingFont => SetupPhase::InstallingCore,
        SetupStage::CheckingTerminal => SetupPhase::InstallingCore,
        SetupStage::ConfiguringTerminal => SetupPhase::InstallingCore,
        SetupStage::ProbingPlugin { .. } => SetupPhase::InstallingPlugins,
        SetupStage::InstallingPlugin { .. } => SetupPhase::InstallingPlugins,
        SetupStage::ResolvingProfilePath => SetupPhase::WritingProfile,
        SetupStage::WritingProfile => SetupPhase::WritingProfile,
        SetupStage::Done => SetupPhase::Done,
        SetupStage::Failed => SetupPhase::Failed,
    }
}

/// The state that a run's bookkeeping keeps: the outcomes recorded so far are
/// those of the entries before the current one, an entry is recorded as
/// skipped exactly when no installer has its name, and each stage has the
/// results of the stages before it.
pub open spec fn well_formed(run: SetupRunView) -> bool {
    let total = run.config.plugins.len();
    &&& total <= usize::MAX
    &&& run.installers.len() <= usize::MAX
    &&& run.plugins.len() <= total
    &&& forall|entry: int|
        0 <= entry < run.plugins.len() ==> ((#[trigger] run.plugins[entry]) is Skipped) == (
        installer_of(run.installers, run.config.plugins[entry]) is None)
    &&& (run.stage is Failed) == (run.error is Some)
    &&& match run.stage {
        SetupStage::Idle | SetupStage::ProbingFont | SetupStage::InstallingFont => {
            &&& run.font is None
            &&& run.terminal is None
            &&& run.plugins.len() == 0
            &&& run.profile_path is None
        },
        SetupStage::CheckingTerminal | SetupStage::ConfiguringTerminal => {
            &&& run.font is Some
            &&& run.terminal is None
            &&& run.plugins.len() == 0
            &&& run.profile_path is None
        },
        SetupStage::ProbingPlugin { plugin, installer } | SetupStage::InstallingPlugin {
            plugin,
            installer,
        } => {
            &&& run.font is Some
            &&& run.terminal is Some
            &&& run.plugins.len() == plugin
            &&& plugin < total
            &&& installer_of(run.installers, run.config.plugins[plugin as int]) == Some(
                installer as int,
            )
            &&& run.profile_path is None
        },
        SetupStage::ResolvingProfilePath => {
            &&& run.font is Some
            &&& run.terminal is Some
            &&& run.plugins.len() == total
            &&& run.profile_path is None
        },
        SetupStage::WritingProfile | SetupStage::Done => {
            &&& run.font is Some
            &&& run.terminal is Some
            &&& run.plugins.len() == total
            &&& run.profile_path is Some
        },
        SetupStage::Failed => true,
    }
}

/// What holds of a run between the core steps and the profile steps, whatever
/// its stage says: the core results are there, and the outcomes recorded so far
/// are those of the first entries of the plugin list.
pub open spec fn plugins_are_next(run: SetupRunView) -> bool {
    &&& run.config.plugins.len() <= usize::MAX
    &&& run.installers.len() <= usize::MAX
    &&& run.plugins.len() <= run.config.plugins.len()
    &&& forall|entry: int|
        0 <= entry < run.plugins.len() ==> ((#[trigger] run.plugins[entry]) is Skipped) == (
        installer_of(run.installers, run.config.plugins[entry]) is None)
    &&& !(run.stage is Failed)
    &&& run.error is None
    &&& run.font is Some
    &&& run.terminal is Some
    &&& run.profile_path is None
}

/// One run of the setup: the decisions of the orchestrator, apart from the
/// work that its collaborators do. The caller performs each action that the
/// run asks for and hands back what came of it.
pub struct SetupRun {
    config: ProfileConfig,
    installers: Vec<String>,
    stage: SetupStage,
    font: Option<FontOutcome>,
    terminal: Option<TerminalOutcome>,
    plugins: Vec<PluginOutcome>,
    profile_path: Option<String>,
    error: Option<FatalSetupError>,
}

impl View for SetupRun {
    type V = SetupRunView;

    closed spec fn view(&self) -> SetupRunView {
        SetupRunView {
            config: self.config@,
            installers: names_of(self.installers@),
            stage: self.stage,
            font: self.font,
            terminal: self.terminal,
            plugins: self.plugins@,
            profile_path: self.profile_path,
            error: self.error,
        }
    }
}

/// The position of the first installer name that equals the plugin's name.
pub fn find_installer(installers: &Vec<String>, plugin: &String) -> (found: Option<usize>)
    ensures
        match found {
            Some(position) => installer_of(names_of(installers@), plugin@) == Some(position as int),
            None => installer_of(names_of(installers@), plugin@) is None,
        },
{
    let ghost names = names_of(installers@);
    let mut position: usize = 0;
    while position < installers.len()
        invariant
            position <= installers@.len(),
            names == names_of(installers@),
            first_match(names, plugin@, 0) == first_match(names, plugin@, position as int),
        decreases installers@.len() - position,
    {
        if installers[position] == *plugin {
            return Some(position);
        }
        position = position + 1;
    }
    None
}

impl SetupRun {
    /// A run for a configuration and the component names of the plugin
    /// installers, in the order of the installer set. Nothing has happened yet.
    pub fn new(config: ProfileConfig, installers: Vec<String>) -> (run: SetupRun)
        ensures
            run@ == initial_run(config@, names_of(installers@)),
            well_formed(run@),
    {
        let entries: usize = config.plugins.len();
        let names: usize = installers.len();
        assert(config@.plugins.len() == entries && names_of(installers@).len() == names);
        SetupRun {
            config,
            installers,
            stage: SetupStage::Idle,
            font: None,
            terminal: None,
            plugins: Vec::new(),
            profile_path: None,
            error: None,
        }
    }

    /// Where the run stands.
    pub fn stage(&self) -> (stage: SetupStage)
        ensures
            stage == self@.stage,
    {
        self.stage
    }

    /// The phase that the run is in.
    pub fn phase(&self) -> (phase: SetupPhase)
        ensures
            phase == phase_of(self@.stage),
    {
        match self.stage {
            SetupStage::Idle => SetupPhase::Idle,
            SetupStage::ProbingFont => SetupPhase::InstallingCore,
            SetupStage::InstallingFont => SetupPhase::InstallingCore,
            SetupStage::CheckingTerminal => SetupPhase::InstallingCore,
            SetupStage::ConfiguringTerminal => SetupPhase::InstallingCore,
            SetupStage::ProbingPlugin { .. } => SetupPhase::InstallingPlugins,
            SetupStage::InstallingPlugin { .. } => SetupPhase::InstallingPlugins,
            SetupStage::ResolvingProfilePath => SetupPhase::WritingProfile,
            SetupStage::WritingProfile => SetupPhase::WritingProfile,
            SetupStage::Done => SetupPhase::Done,
            SetupStage::Failed => SetupPhase::Failed,
        }
    }

    /// Whether the run has ended, in success or in failure.
    pub fn is_finished(&self) -> (finished: bool)
        ensures
            finished == (self@.stage is Done || self@.stage is Failed),
    {
        match self.stage {
            SetupStage::Done => true,
            SetupStage::Failed => true,
            _ => false,
        }
    }

    /// The request that the run is waiting on.
    pub fn current_action(&self) -> (action: SetupAction)
        ensures
            action@ == pending_action(self@),
    {
        match self.stage {
            SetupStage::Idle => SetupAction::Ignore,
            SetupStage::ProbingFont => SetupAction::ProbeFont,
            SetupStage::InstallingFont => SetupAction::InstallFont,
            SetupStage::CheckingTerminal => SetupAction::CheckTerminalSupport,
            SetupStage::ConfiguringTerminal => SetupAction::ConfigureTerminalFont {
                font_name: String::from_str(TERMINAL_FONT),
            },
            SetupStage::ProbingPlugin { plugin, installer } => SetupAction::ProbePlugin { installer },
            SetupStage::InstallingPlugin { plugin, installer } => SetupAction::InstallPlugin {
                installer,
            },
            SetupStage::ResolvingProfilePath => SetupAction::ResolveProfilePath,
            SetupStage::WritingProfile => match &self.profile_path {
                Some(path) => SetupAction::WriteProfile {
                    path: path.clone(),
                    content: generate_profile_content(
                        self.config.theme.as_str(),
                        &self.config.plugins,
                        self.config.include_aliases,
                    ),
                },
                None => SetupAction::Ignore,
            },
            SetupStage::Done => SetupAction::Finish,
            SetupStage::Failed => SetupAction::Abort,
        }
    }

    /// Moves to the plugin entries from `from` on.
    fn enter_plugins(&mut self, from: usize)
        requires
            plugins_are_next(old(self)@),
            old(self)@.plugins.len() == from,
        ensures
            final(self)@ == at_plugin(old(self)@, from as int),
            well_formed(final(self)@),
    {
        let mut next: usize = from;
        loop
            invariant
                next <= self@.config.plugins.len(),
                self@.plugins.len() == next,
                at_plugin(self@, next as int) == at_plugin(old(self)@, from as int),
                plugins_are_next(self@),
            decreases self@.config.plugins.len() - next,
        {
            if next >= self.config.plugins.len() {
                self.stage = SetupStage::ResolvingProfilePath;
                return ;
            }
            match find_installer(&self.installers, &self.config.plugins[next]) {
                Some(installer) => {
                    self.stage = SetupStage::ProbingPlugin { plugin: next, installer };
                    return ;
                },
                None => {
                    self.plugins.push(PluginOutcome::Skipped);
                    next = next + 1;
                },
            }
        }
    }

    /// Records that the font step ended and asks for the terminal check.
    fn finish_font(&mut self, outcome: FontOutcome)
        requires
            well_formed(old(self)@),
            old(self)@.stage is ProbingFont || old(self)@.stage is InstallingFont,
        ensures
            final(self)@ == after_font(old(self)@, outcome),
            well_formed(final(self)@),
    {
        self.font = Some(outcome);
        self.stage = SetupStage::CheckingTerminal;
    }

    /// Records how the terminal step ended and moves to the plugins.
    fn finish_terminal(&mut self, outcome: TerminalOutcome)
        requires
            well_formed(old(self)@),
            old(self)@.stage is CheckingTerminal || old(self)@.stage is ConfiguringTerminal,
        ensures
            final(self)@ == after_terminal(old(self)@, outcome),
            well_formed(final(self)@),
    {
        self.terminal = Some(outcome);
        self.enter_plugins(0);
    }

    /// Records how the current plugin entry ended and moves to the next.
    fn finish_plugin(&mut self, plugin: usize, outcome: PluginOutcome)
        requires
            well_formed(old(self)@),
            old(self)@.stage is ProbingPlugin || old(self)@.stage is InstallingPlugin,
            old(self)@.plugins.len() == plugin,
            !(outcome is Skipped),
        ensures
            final(self)@ == after_plugin(old(self)@, plugin, outcome),
            well_formed(final(self)@),
    {
        self.plugins.push(outcome);
        self.enter_plugins(plugin + 1);
    }

    /// Ends the run with a fatal error.
    fn fail(&mut self, error: FatalSetupError)
        requires
            well_formed(old(self)@),
        ensures
            final(self)@ == failed_with(old(self)@, error),
            well_formed(final(self)@),
    {
        self.stage = SetupStage::Failed;
        self.error = Some(error);
    }

    /// Takes the answer to the pending request and says what is to be done
    /// next. An event that the stage does not wait for changes nothing and is
    /// answered with [`SetupAction::Ignore`].
    pub fn step(&mut self, event: SetupEvent) -> (action: SetupAction)
        requires
            well_formed(old(self)@),
        ensures
            final(self)@ == next_run(old(self)@, event),
            action@ == next_action(old(self)@, event),
            well_formed(final(self)@),
    {
        match self.stage {
            SetupStage::Idle => match event {
                SetupEvent::Start => {
                    self.stage = SetupStage::ProbingFont;
                },
                _ => {
                    return SetupAction::Ignore;
                },
            },
            SetupStage::ProbingFont => match event {
                SetupEvent::Probed(present) => {
                    if present {
                        self.finish_font(FontOutcome::AlreadyInstalled);
                    } else {
                        self.stage = SetupStage::InstallingFont;
                    }
                },
                _ => {
                    return SetupAction::Ignore;
                },
            },
            SetupStage::InstallingFont => match event {
                SetupEvent::Succeeded => {
                    self.finish_font(FontOutcome::Installed);
                },
                SetupEvent::Failed(message) => {
                    self.fail(FatalSetupError::CoreInstall(message));
                },
                _ => {
                    return SetupAction::Ignore;
                },
            },
            SetupStage::CheckingTerminal => match event {
                SetupEvent::Probed(supported) => {
                    if supported {
                        self.stage = SetupStage::ConfiguringTerminal;
                    } else {
                        self.finish_terminal(TerminalOutcome::Unsupported);
                    }
                },
                _ => {
                    return SetupAction::Ignore;
                },
            },
            SetupStage::ConfiguringTerminal => match event {
                SetupEvent::Succeeded => {
                    self.finish_terminal(TerminalOutcome::Configured);
                },
                SetupEvent::Failed(message) => {
                    self.finish_terminal(TerminalOutcome::Warned(message));
                },
                _ => {
                    return SetupAction::Ignore;
                },
            },
            SetupStage::ProbingPlugin { plugin, installer } => match event {
                SetupEvent::Probed(present) => {
                    if present {
                        self.finish_plugin(plugin, PluginOutcome::AlreadyInstalled);
                    } else {
                        self.stage = SetupStage::InstallingPlugin { plugin, installer };
                    }
                },
                _ => {
                    return SetupAction::Ignore;
                },
            },
            SetupStage::InstallingPlugin { plugin, installer } => match event {
                SetupEvent::Succeeded => {
                    self.finish_plugin(plugin, PluginOutcome::Installed);
                },
                SetupEvent::Failed(message) => {
                    self.finish_plugin(plugin, PluginOutcome::Warned(message));
                },
                _ => {
                    return SetupAction::Ignore;
                },
            },
            SetupStage::ResolvingProfilePath => match event {
                SetupEvent::PathResolved(path) => {
                    self.profile_path = Some(path);
                    self.stage = SetupStage::WritingProfile;
                },
                SetupEvent::Failed(message) => {
                    self.fail(FatalSetupError::ProfilePath(message));
                },
                _ => {
                    return SetupAction::Ignore;
                },
            },
            SetupStage::WritingProfile => match event {
                SetupEvent::Succeeded => {
                    self.stage = SetupStage::Done;
                },
                SetupEvent::Failed(message) => {
                    self.fail(FatalSetupError::ProfileWrite(message));
                },
                _ => {
                    return SetupAction::Ignore;
                },
            },
            SetupStage::Done => {
                return SetupAction::Ignore;
            },
            SetupStage::Failed => {
                return SetupAction::Ignore;
            },
        }
        self.current_action()
    }

    /// What came of the run: the report of a completed run, the error of a
    /// failed one, and nothing while the run is under way.
    pub fn finish(self) -> (result: Option<Result<SetupReport, FatalSetupError>>)
        requires
            well_formed(self@),
        ensures
            match result {
                Some(Ok(report)) => {
                    &&& self@.stage is Done
                    &&& Some(report.font) == self@.font
                    &&& Some(report.terminal) == self@.terminal
                    &&& report.plugins@ == self@.plugins
                    &&& Some(report.profile_path) == self@.profile_path
                },
                Some(Err(error)) => self@.stage is Failed && self@.error == Some(error),
                None => !(self@.stage is Done) && !(self@.stage is Failed),
            },
    {
        match self.stage {
            SetupStage::Done => match (self.font, self.terminal, self.profile_path) {
                (Some(font), Some(terminal), Some(profile_path)) => Some(
                    Ok(SetupReport { font, terminal, plugins: self.plugins, profile_path }),
                ),
                _ => None,
            },
            SetupStage::Failed => match self.error {
                Some(error) => Some(Err(error)),
                None => None,
            },
            _ => None,
        }
    }
}

} // verus!
