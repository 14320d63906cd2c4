use vstd::prelude::*;
use crate::application::profile_content::{config_profile_text, generate_profile_content};
use crate::application::setup_laws::{
    answers_in_turn, law_expected_events_make_progress, law_phases_come_in_order,
    law_unmatched_plugins_are_skipped, lemma_answers_in_turn_push, remaining_steps, run_after,
};
use crate::application::setup_run::{
    expects, initial_run, pending_action, well_formed, FatalSetupError, SetupAction,
    SetupActionView, SetupEvent, SetupReport, SetupRun, SetupRunView,
};
use crate::application::setup_summary::{summary_lines, summary_of};
use crate::domain::entities::profile::{names_of, ProfileConfig, ProfileConfigView};
use crate::domain::interfaces::installer::Installer;
use crate::domain::interfaces::profile_writer::ProfileWriter;
use crate::domain::interfaces::shell::ShellRunner;
use crate::domain::interfaces::terminal_config::TerminalConfigurator;

verus! {

/// The orchestrator: it runs the core installers, then the plugin installers
/// that the configuration names, then writes the profile.
pub struct SetupService<'a> {
    shell: &'a dyn ShellRunner,
    pwsh_installer: &'a dyn Installer,
    font_installer: &'a dyn Installer,
    terminal_config: &'a dyn TerminalConfigurator,
    profile_writer: &'a dyn ProfileWriter,
    module_installers: Vec<&'a dyn Installer>,
}

/// Whether `result` is what the run `run` ended with.
pub open spec fn is_result_of(result: Result<SetupReport, FatalSetupError>, run: SetupRunView) -> bool {
    match result {
        Ok(report) => {
            &&& run.stage is Done
            &&& run.font == Some(report.font)
            &&& run.terminal == Some(report.terminal)
            &&& run.plugins == report.plugins@
            &&& run.profile_path == Some(report.profile_path)
        },
        Err(error) => run.stage is Failed && run.error == Some(error),
    }
}

/// Whether a run for `config` with installers of these names, to which the
/// collaborators answered with `events`, each in answer to the request that
/// was pending, ended with `result`.
pub open spec fn ends_with(
    config: ProfileConfigView,
    installers: Seq<Seq<char>>,
    events: Seq<SetupEvent>,
    result: Result<SetupReport, FatalSetupError>,
) -> bool {
    &&& answers_in_turn(initial_run(config, installers), events)
    &&& is_result_of(result, run_after(initial_run(config, installers), events))
}

/// How an operation ended, where the event reports that.
pub open spec fn completion_of(event: SetupEvent) -> Option<Result<(), String>> {
    match event {
        SetupEvent::Succeeded => Some(Ok(())),
        SetupEvent::Failed(message) => Some(Err(message)),
        _ => None,
    }
}

/// How the resolution of the profile path ended, where the event reports
/// that.
pub open spec fn resolution_of(event: SetupEvent) -> Option<Result<String, String>> {
    match event {
        SetupEvent::PathResolved(path) => Some(Ok(path)),
        SetupEvent::Failed(message) => Some(Err(message)),
        _ => None,
    }
}

/// The event that reports how an operation ended.
pub fn completion_event(result: Result<(), String>) -> (event: SetupEvent)
    ensures
        event == (match result {
            Ok(_) => SetupEvent::Succeeded,
            Err(message) => SetupEvent::Failed(message),
        }),
        completion_of(event) == Some(result),
{
    match result {
        Ok(done) => {
            assert(done == ());
            SetupEvent::Succeeded
        },
        Err(message) => SetupEvent::Failed(message),
    }
}

/// The event that reports how the resolution of the profile path ended.
pub fn path_event(result: Result<String, String>) -> (event: SetupEvent)
    ensures
        event == (match result {
            Ok(path) => SetupEvent::PathResolved(path),
            Err(message) => SetupEvent::Failed(message),
        }),
        resolution_of(event) == Some(result),
{
    match result {
        Ok(path) => SetupEvent::PathResolved(path),
        Err(message) => SetupEvent::Failed(message),
    }
}

impl<'a> SetupService<'a> {
    /// An orchestrator over the given collaborators. The plugin installers
    /// are looked up by component name, the first of a name serving it.
    pub fn new(
        shell: &'a dyn ShellRunner,
        pwsh_installer: &'a dyn Installer,
        font_installer: &'a dyn Installer,
        terminal_config: &'a dyn TerminalConfigurator,
        profile_writer: &'a dyn ProfileWriter,
        module_installers: Vec<&'a dyn Installer>,
    ) -> (service: SetupService<'a>)
        ensures
            service.installer_count() == module_installers@.len(),
    {
        SetupService {
            shell,
            pwsh_installer,
            font_installer,
            terminal_config,
            profile_writer,
            module_installers,
        }
    }

    /// The number of plugin installers.
    pub closed spec fn installer_count(&self) -> nat {
        self.module_installers@.len()
    }

    /// Whether `names` are names that the plugin installers may give
    /// themselves, one for each installer in the order of the set.
    pub closed spec fn are_installer_names(&self, names: Seq<Seq<char>>) -> bool {
        &&& names.len() == self.module_installers@.len()
        &&& forall|position: int|
            0 <= position < names.len() ==> self.module_installers@[position].may_be_named(
                #[trigger] names[position],
            )
    }

    /// Whether `name` is a name that the shell may give itself.
    pub closed spec fn shell_may_be_named(&self, name: Seq<char>) -> bool {
        self.shell.may_be_named(name)
    }

    /// Whether `event` is what the collaborator that `action` is meant for may
    /// answer to it: the font installer to a probe or an installation of the
    /// font, the terminal configurator to the support check or to the font it
    /// is handed, the plugin installer at the action's position to its probe
    /// or installation, and the profile store to the resolution of the path
    /// or to the path and content it is handed.
    pub closed spec fn allows(&self, action: SetupActionView, event: SetupEvent) -> bool {
        match action {
            SetupActionView::ProbeFont => event is Probed && self.font_installer.may_report(
                event->Probed_0,
            ),
            SetupActionView::InstallFont => completion_of(event) is Some
                && self.font_installer.may_install(completion_of(event)->Some_0),
            SetupActionView::CheckTerminalSupport => event is Probed
                && self.terminal_config.may_support(event->Probed_0),
            SetupActionView::ConfigureTerminalFont { font_name } => completion_of(event) is Some
                && self.terminal_config.may_configure(font_name, completion_of(event)->Some_0),
            SetupActionView::ProbePlugin { installer } => installer < self.module_installers@.len()
                && event is Probed && self.module_installers@[installer as int].may_report(
                event->Probed_0,
            ),
            SetupActionView::InstallPlugin { installer } => installer
                < self.module_installers@.len() && completion_of(event) is Some
                && self.module_installers@[installer as int].may_install(
                completion_of(event)->Some_0,
            ),
            SetupActionView::ResolveProfilePath => resolution_of(event) is Some
                && self.profile_writer.may_resolve(resolution_of(event)->Some_0),
            SetupActionView::WriteProfile { path, content } => completion_of(event) is Some
                && self.profile_writer.may_write(path@, content, completion_of(event)->Some_0),
            SetupActionView::Finish => false,
            SetupActionView::Abort => false,
            SetupActionView::Ignore => false,
        }
    }

    /// Whether every event after the first is what the collaborators may
    /// answer to the request that was pending when it arrived.
    pub open spec fn performed(&self, run: SetupRunView, events: Seq<SetupEvent>) -> bool {
        forall|position: int|
            0 < position < events.len() ==> self.allows(
                pending_action(#[trigger] run_after(run, events.take(position))),
                events[position],
            )
    }

    /// An event that a collaborator may answer to the pending request is one
    /// that the run waits for.
    pub proof fn law_allowed_events_are_expected(&self, run: SetupRunView, event: SetupEvent)
        requires
            well_formed(run),
            self.allows(pending_action(run), event),
        ensures
            expects(run.stage, event),
    {
    }

    /// Events that were performed, followed by one that a collaborator may
    /// answer to the request then pending, were performed.
    pub proof fn lemma_performed_push(&self, run: SetupRunView, events: Seq<SetupEvent>, event: SetupEvent)
        requires
            events.len() > 0,
            self.performed(run, events),
            self.allows(pending_action(run_after(run, events)), event),
        ensures
            self.performed(run, events.push(event)),
    {
        let longer = events.push(event);
        assert forall|position: int| 0 < position < longer.len() implies self.allows(
            pending_action(#[trigger] run_after(run, longer.take(position))),
            longer[position],
        ) by {
            if position < events.len() {
                assert(longer.take(position) =~= events.take(position));
            } else {
                assert(longer.take(position) =~= events);
            }
        }
    }

    /// The component names of the plugin installers, in the order of the set:
    /// each is the name that its installer gave itself.
    pub fn installer_names(&self) -> (names: Vec<String>)
        ensures
            names@.len() == self.installer_count(),
            self.are_installer_names(names_of(names@)),
    {
        let mut names: Vec<String> = Vec::new();
        let mut i: usize = 0;
        while i < self.module_installers.len()
            invariant
                i <= self.module_installers@.len(),
                names@.len() == i,
                forall|position: int|
                    0 <= position < i ==> self.module_installers@[position].may_be_named(
                        #[trigger] names@[position]@,
                    ),
            decreases self.module_installers@.len() - i,
        {
            let name = String::from_str(self.module_installers[i].component_name());
            names.push(name);
            i = i + 1;
        }
        assert forall|position: int| 0 <= position < names_of(names@).len() implies self.module_installers@[position].may_be_named(
            #[trigger] names_of(names@)[position],
        ) by {
            assert(names_of(names@)[position] == names@[position]@);
        }
        names
    }

    /// The text of the profile for a configuration.
    pub fn generate_profile_content(&self, config: &ProfileConfig) -> (content: String)
        ensures
            content@ == config_profile_text(config@),
    {
        generate_profile_content(config.theme.as_str(), &config.plugins, config.include_aliases)
    }

    /// The lines of the summary of a completed setup: the theme, the plugins,
    /// the path of the profile and the name that the shell gives itself.
    pub fn success_summary(&self, config: &ProfileConfig, report: &SetupReport) -> (lines: Vec<String>)
        ensures
            exists|shell: Seq<char>|
                self.shell_may_be_named(shell) && names_of(lines@) == #[trigger] summary_of(
                    config@,
                    report.profile_path@,
                    shell,
                ),
    {
        let shell = self.shell.shell_name();
        let lines = summary_lines(config, report.profile_path.as_str(), shell);
        assert(self.shell_may_be_named(shell@) && names_of(lines@) == summary_of(
            config@,
            report.profile_path@,
            shell@,
        ));
        lines
    }

    /// Carries out one request of a run on the collaborator it is meant for,
    /// with what the request carries, and reports what came of it.
    fn perform(&self, action: SetupAction) -> (event: SetupEvent)
        requires
            match action@ {
                SetupActionView::ProbePlugin { installer } | SetupActionView::InstallPlugin {
                    installer,
                } => installer < self.installer_count(),
                _ => true,
            },
            !(action is Finish),
            !(action is Abort),
            !(action is Ignore),
        ensures
            self.allows(action@, event),
    {
        match action {
            SetupAction::ProbeFont => SetupEvent::Probed(self.font_installer.is_installed()),
            SetupAction::InstallFont => completion_event(self.font_installer.install()),
            SetupAction::CheckTerminalSupport => SetupEvent::Probed(
                self.terminal_config.is_supported(),
            ),
            SetupAction::ConfigureTerminalFont { font_name } => completion_event(
                self.terminal_config.configure_font(font_name.as_str()),
            ),
            SetupAction::ProbePlugin { installer } => SetupEvent::Probed(
                self.module_installers[installer].is_installed(),
            ),
            SetupAction::InstallPlugin { installer } => completion_event(
                self.module_installers[installer].install(),
            ),
            SetupAction::ResolveProfilePath => path_event(self.profile_writer.get_profile_path()),
            SetupAction::WriteProfile { path, content } => completion_event(
                self.profile_writer.write(path.as_str(), content.as_str()),
            ),
            SetupAction::Finish => vstd::pervasive::unreached(),
            SetupAction::Abort => vstd::pervasive::unreached(),
            SetupAction::Ignore => vstd::pervasive::unreached(),
        }
    }

    /// Runs the whole setup: the core components, the plugins of the
    /// configuration in list order, then the profile. The installers are
    /// looked up by the names they give themselves. The result is that of a
    /// [`SetupRun`] for the configuration and these names, in which every
    /// request was carried out on the collaborator it is meant for and its
    /// answer handed back: a report where the run completed, and the fatal
    /// error where a core installer or the profile store failed.
    pub fn run_setup(&self, config: &ProfileConfig) -> (result: Result<SetupReport, FatalSetupError>)
        ensures
            exists|installers: Seq<Seq<char>>, events: Seq<SetupEvent>|
                {
                    &&& self.are_installer_names(installers)
                    &&& self.performed(initial_run(config@, installers), events)
                    &&& #[trigger] ends_with(config@, installers, events, result)
                },
            result is Ok ==> result->Ok_0.plugins@.len() == config@.plugins.len(),
    {
        let names = self.installer_names();
        let ghost installers = names_of(names@);
        let ghost start = initial_run(config@, installers);
        let mut run = SetupRun::new(config.duplicate(), names);
        let mut action = run.step(SetupEvent::Start);
        let ghost mut events: Seq<SetupEvent> = seq![SetupEvent::Start];
        proof {
            lemma_answers_in_turn_push(start, Seq::empty(), SetupEvent::Start);
            assert(Seq::<SetupEvent>::empty().push(SetupEvent::Start) =~= events);
        }
        loop
            invariant
                installers.len() == self.installer_count(),
                self.are_installer_names(installers),
                start == initial_run(config@, installers),
                well_formed(run@),
                run@ == run_after(start, events),
                run@.config == config@,
                run@.installers == installers,
                events.len() > 0,
                answers_in_turn(start, events),
                self.performed(start, events),
                action@ == pending_action(run@),
                !(run@.stage is Idle),
            decreases remaining_steps(run@),
        {
            if run.is_finished() {
                proof {
                    law_unmatched_plugins_are_skipped(run@);
                }
                match run.finish() {
                    Some(result) => {
                        assert(ends_with(config@, installers, events, result));
                        return result;
                    },
                    None => {
                        return vstd::pervasive::unreached();
                    },
                }
            }
            proof {
                law_unmatched_plugins_are_skipped(run@);
            }
            let event = self.perform(action);
            proof {
                self.law_allowed_events_are_expected(run@, event);
                law_expected_events_make_progress(run@, event);
                law_phases_come_in_order(run@, event);
                lemma_answers_in_turn_push(start, events, event);
                self.lemma_performed_push(start, events, event);
                events = events.push(event);
            }
            action = run.step(event);
        }
    }
}

} // verus!
