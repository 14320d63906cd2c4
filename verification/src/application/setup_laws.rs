use vstd::prelude::*;
use crate::application::profile_content::config_profile_text;
use crate::application::setup_run::{
    after_plugin, at_plugin, expects, first_match, installer_of, next_action, next_run,
    pending_action, phase_of, plugins_are_next, well_formed, FatalSetupError, FontOutcome,
    PluginOutcome, SetupActionView, SetupEvent, SetupPhase, SetupRunView, SetupStage,
    TerminalOutcome,
};

verus! {

/// The first entry at or after `from` that some installer serves, or the
/// length of the plugin list where there is none.
pub open spec fn next_served(plugins: Seq<Seq<char>>, installers: Seq<Seq<char>>, from: int) -> int
    decreases plugins.len() - from,
{
    if from < 0 || from >= plugins.len() {
        plugins.len() as int
    } else if installer_of(installers, plugins[from]) is Some {
        from
    } else {
        next_served(plugins, installers, from + 1)
    }
}

/// `count` entries that were skipped.
pub open spec fn skipped(count: int) -> Seq<PluginOutcome> {
    Seq::new(count as nat, |i: int| PluginOutcome::Skipped)
}

/// The stage at which the entry at `served` is taken up.
pub open spec fn stage_at(plugins: Seq<Seq<char>>, installers: Seq<Seq<char>>, served: int) -> SetupStage {
    if 0 <= served < plugins.len() {
        SetupStage::ProbingPlugin {
            plugin: served as usize,
            installer: installer_of(installers, plugins[served]).unwrap() as usize,
        }
    } else {
        SetupStage::ResolvingProfilePath
    }
}

/// Where the search for the next served entry ends.
pub proof fn lemma_next_served(plugins: Seq<Seq<char>>, installers: Seq<Seq<char>>, from: int)
    requires
        0 <= from <= plugins.len(),
    ensures
        from <= next_served(plugins, installers, from) <= plugins.len(),
        next_served(plugins, installers, from) < plugins.len() ==> installer_of(
            installers,
            plugins[next_served(plugins, installers, from)],
        ) is Some,
        forall|entry: int|
            from <= entry < next_served(plugins, installers, from) ==> installer_of(
                installers,
                #[trigger] plugins[entry],
            ) is None,
    decreases plugins.len() - from,
{
    if from < plugins.len() && installer_of(installers, plugins[from]) is None {
        lemma_next_served(plugins, installers, from + 1);
    }
}

/// An installer that is found is a position of the installer set.
pub proof fn lemma_installer_in_range(installers: Seq<Seq<char>>, plugin: Seq<char>, from: int)
    requires
        0 <= from,
    ensures
        match first_match(installers, plugin, from) {
            Some(position) => from <= position < installers.len() && installers[position] == plugin,
            None => forall|other: int| from <= other < installers.len() ==> installers[other] != plugin,
        },
        forall|other: int|
            from <= other < installers.len() && installers[other] == plugin ==> {
                &&& first_match(installers, plugin, from) is Some
                &&& first_match(installers, plugin, from).unwrap()
                    <= other
            },
    decreases installers.len() - from,
{
    if from < installers.len() && installers[from] != plugin {
        lemma_installer_in_range(installers, plugin, from + 1);
    }
}

/// Moving on to the entries from `from` on records the entries without an
/// installer as skipped, stops at the first entry that is served, and leaves
/// everything else as it was.
pub proof fn lemma_at_plugin(run: SetupRunView, from: int)
    requires
        0 <= from <= run.config.plugins.len(),
    ensures
        at_plugin(run, from) == (SetupRunView {
            stage: stage_at(
                run.config.plugins,
                run.installers,
                next_served(run.config.plugins, run.installers, from),
            ),
            plugins: run.plugins + skipped(
                next_served(run.config.plugins, run.installers, from) - from,
            ),
            ..run
        }),
    decreases run.config.plugins.len() - from,
{
    let plugins = run.config.plugins;
    let served = next_served(plugins, run.installers, from);
    lemma_next_served(plugins, run.installers, from);
    if from >= plugins.len() {
        assert(run.plugins + skipped(0) =~= run.plugins);
    } else if installer_of(run.installers, plugins[from]) is Some {
        assert(run.plugins + skipped(0) =~= run.plugins);
    } else {
        let longer = SetupRunView { plugins: run.plugins.push(PluginOutcome::Skipped), ..run };
        lemma_at_plugin(longer, from + 1);
        assert(longer.plugins + skipped(served - (from + 1)) =~= run.plugins + skipped(
            served - from,
        ));
    }
}

/// Moving on to the plugins keeps a run well formed.
pub proof fn lemma_at_plugin_well_formed(run: SetupRunView, from: int)
    requires
        plugins_are_next(run),
        run.plugins.len() == from,
    ensures
        well_formed(at_plugin(run, from)),
{
    let plugins = run.config.plugins;
    let served = next_served(plugins, run.installers, from);
    lemma_at_plugin(run, from);
    lemma_next_served(plugins, run.installers, from);
    let next = at_plugin(run, from);
    assert forall|entry: int| 0 <= entry < next.plugins.len() implies ((
    #[trigger] next.plugins[entry]) is Skipped) == (installer_of(
        run.installers,
        plugins[entry],
    ) is None) by {
        if entry < from {
            assert(next.plugins[entry] == run.plugins[entry]);
        } else {
            assert(next.plugins[entry] == PluginOutcome::Skipped);
        }
    }
    if served < plugins.len() {
        lemma_installer_in_range(run.installers, plugins[served], 0);
    }
}

/// A step keeps a run well formed.
pub proof fn law_step_keeps_well_formed(run: SetupRunView, event: SetupEvent)
    requires
        well_formed(run),
    ensures
        well_formed(next_run(run, event)),
{
    match (run.stage, event) {
        (SetupStage::CheckingTerminal, SetupEvent::Probed(supported)) => {
            if !supported {
                let recorded = SetupRunView {
                    terminal: Some(TerminalOutcome::Unsupported),
                    ..run
                };
                lemma_at_plugin_well_formed(recorded, 0);
            }
        },
        (SetupStage::ConfiguringTerminal, SetupEvent::Succeeded) => {
            let recorded = SetupRunView {
                terminal: Some(TerminalOutcome::Configured),
                ..run
            };
            lemma_at_plugin_well_formed(recorded, 0);
        },
        (SetupStage::ConfiguringTerminal, SetupEvent::Failed(message)) => {
            let recorded = SetupRunView {
                terminal: Some(TerminalOutcome::Warned(message)),
                ..run
            };
            lemma_at_plugin_well_formed(recorded, 0);
        },
        (SetupStage::ProbingPlugin { plugin, installer }, SetupEvent::Probed(present)) => {
            if present {
                lemma_after_plugin_well_formed(run, plugin, PluginOutcome::AlreadyInstalled);
            }
        },
        (SetupStage::InstallingPlugin { plugin, installer }, SetupEvent::Succeeded) => {
            lemma_after_plugin_well_formed(run, plugin, PluginOutcome::Installed);
        },
        (SetupStage::InstallingPlugin { plugin, installer }, SetupEvent::Failed(message)) => {
            lemma_after_plugin_well_formed(run, plugin, PluginOutcome::Warned(message));
        },
        _ => {},
    }
}

/// Recording the outcome of the current entry keeps a run well formed.
pub proof fn lemma_after_plugin_well_formed(run: SetupRunView, plugin: usize, outcome: PluginOutcome)
    requires
        well_formed(run),
        run.stage is ProbingPlugin || run.stage is InstallingPlugin,
        run.plugins.len() == plugin,
        !(outcome is Skipped),
    ensures
        well_formed(after_plugin(run, plugin, outcome)),
{
    let recorded = SetupRunView { plugins: run.plugins.push(outcome), ..run };
    assert forall|entry: int| 0 <= entry < recorded.plugins.len() implies ((
    #[trigger] recorded.plugins[entry]) is Skipped) == (installer_of(
        run.installers,
        run.config.plugins[entry],
    ) is None) by {
        if entry < plugin {
            assert(recorded.plugins[entry] == run.plugins[entry]);
        }
    }
    lemma_at_plugin_well_formed(recorded, plugin + 1);
}

/// A component that its probe reports as present is never installed: the
/// run asks for an installation only in answer to a probe of that very
/// component that reported it absent, and a probe that reports it present is
/// recorded as "already installed".
pub proof fn law_present_component_is_never_installed(run: SetupRunView, event: SetupEvent)
    requires
        well_formed(run),
    ensures
        next_action(run, event) is InstallFont ==> run.stage is ProbingFont && event
            == SetupEvent::Probed(false),
        next_action(run, event) is InstallPlugin ==> {
            &&& run.stage is ProbingPlugin
            &&& run.stage->ProbingPlugin_installer == next_action(
                run,
                event,
            )->InstallPlugin_installer
            &&& event == SetupEvent::Probed(false)
        },
        run.stage is ProbingFont && event == SetupEvent::Probed(true) ==> next_run(run, event).font
            == Some(FontOutcome::AlreadyInstalled),
        run.stage is ProbingPlugin && event == SetupEvent::Probed(true) ==> next_run(
            run,
            event,
        ).plugins[run.stage->ProbingPlugin_plugin as int] == PluginOutcome::AlreadyInstalled,
{
    law_step_keeps_well_formed(run, event);
    lemma_step_in_plugins(run, event);
}

/// What a step does to a run that is at a plugin entry: the outcomes recorded
/// before stay, the entry's own outcome is added unless the installer is yet
/// to run, the entries that follow without an installer are skipped, and the
/// run stands at the next served entry or at the profile.
pub proof fn lemma_step_in_plugins(run: SetupRunView, event: SetupEvent)
    requires
        well_formed(run),
    ensures
        (run.stage is ProbingPlugin || run.stage is InstallingPlugin) && expects(run.stage, event)
            && event != SetupEvent::Probed(false) ==> {
            let plugin = run.plugins.len() as int;
            let served = next_served(run.config.plugins, run.installers, plugin + 1);
            let outcome = match event {
                SetupEvent::Probed(_) => PluginOutcome::AlreadyInstalled,
                SetupEvent::Succeeded => PluginOutcome::Installed,
                SetupEvent::Failed(message) => PluginOutcome::Warned(message),
                _ => PluginOutcome::Skipped,
            };
            next_run(run, event) == (SetupRunView {
                stage: stage_at(run.config.plugins, run.installers, served),
                plugins: run.plugins.push(outcome) + skipped(served - (plugin + 1)),
                ..run
            })
        },
        (run.stage is CheckingTerminal || run.stage is ConfiguringTerminal) && expects(
            run.stage,
            event,
        ) && event != SetupEvent::Probed(true) ==> {
            let served = next_served(run.config.plugins, run.installers, 0);
            let outcome = match event {
                SetupEvent::Succeeded => TerminalOutcome::Configured,
                SetupEvent::Failed(message) => TerminalOutcome::Warned(message),
                _ => TerminalOutcome::Unsupported,
            };
            next_run(run, event) == (SetupRunView {
                stage: stage_at(run.config.plugins, run.installers, served),
                plugins: skipped(served),
                terminal: Some(outcome),
                ..run
            })
        },
{
    let plugins = run.config.plugins;
    match (run.stage, event) {
        (SetupStage::CheckingTerminal, SetupEvent::Probed(false)) => {
            let recorded = SetupRunView {
                terminal: Some(TerminalOutcome::Unsupported),
                ..run
            };
            lemma_at_plugin(recorded, 0);
            assert(recorded.plugins + skipped(next_served(plugins, run.installers, 0)) =~= skipped(
                next_served(plugins, run.installers, 0),
            ));
        },
        (SetupStage::ConfiguringTerminal, SetupEvent::Succeeded) => {
            let recorded = SetupRunView {
                terminal: Some(TerminalOutcome::Configured),
                ..run
            };
            lemma_at_plugin(recorded, 0);
            assert(recorded.plugins + skipped(next_served(plugins, run.installers, 0)) =~= skipped(
                next_served(plugins, run.installers, 0),
            ));
        },
        (SetupStage::ConfiguringTerminal, SetupEvent::Failed(message)) => {
            let recorded = SetupRunView {
                terminal: Some(TerminalOutcome::Warned(message)),
                ..run
            };
            lemma_at_plugin(recorded, 0);
            assert(recorded.plugins + skipped(next_served(plugins, run.installers, 0)) =~= skipped(
                next_served(plugins, run.installers, 0),
            ));
        },
        (SetupStage::ProbingPlugin { plugin, installer }, SetupEvent::Probed(true)) => {
            let recorded = SetupRunView {
                plugins: run.plugins.push(PluginOutcome::AlreadyInstalled),
                ..run
            };
            lemma_at_plugin(recorded, plugin + 1);
        },
        (SetupStage::InstallingPlugin { plugin, installer }, SetupEvent::Succeeded) => {
            let recorded = SetupRunView { plugins: run.plugins.push(PluginOutcome::Installed), ..run };
            lemma_at_plugin(recorded, plugin + 1);
        },
        (SetupStage::InstallingPlugin { plugin, installer }, SetupEvent::Failed(message)) => {
            let recorded = SetupRunView {
                plugins: run.plugins.push(PluginOutcome::Warned(message)),
                ..run
            };
            lemma_at_plugin(recorded, plugin + 1);
        },
        _ => {},
    }
}

/// A plugin without a matching installer is no error: its entry is recorded
/// as skipped, exactly the entries without an installer are, every probe and
/// installation that the run asks for is that of the installer which serves
/// the current entry, and a completed run has an outcome for every entry.
pub proof fn law_unmatched_plugins_are_skipped(run: SetupRunView)
    requires
        well_formed(run),
    ensures
        forall|entry: int|
            0 <= entry < run.plugins.len() ==> ((#[trigger] run.plugins[entry]) is Skipped) == (
            forall|position: int|
                0 <= position < run.installers.len() ==> run.installers[position]
                    != run.config.plugins[entry]),
        match pending_action(run) {
            SetupActionView::ProbePlugin { installer } | SetupActionView::InstallPlugin {
                installer,
            } => {
                &&& installer < run.installers.len()
                &&& run.plugins.len() < run.config.plugins.len()
                &&& run.installers[installer as int] == run.config.plugins[run.plugins.len() as int]
            },
            _ => true,
        },
        run.stage is Done ==> run.plugins.len() == run.config.plugins.len(),
{
    assert forall|entry: int| 0 <= entry < run.plugins.len() implies ((
    #[trigger] run.plugins[entry]) is Skipped) == (forall|position: int|
        0 <= position < run.installers.len() ==> run.installers[position]
            != run.config.plugins[entry]) by {
        lemma_installer_in_range(run.installers, run.config.plugins[entry], 0);
    }
    if run.stage is ProbingPlugin || run.stage is InstallingPlugin {
        lemma_installer_in_range(run.installers, run.config.plugins[run.plugins.len() as int], 0);
    }
}

/// A plugin installer that fails does not end the run and changes nothing
/// but its own entry: the run goes on exactly as after a success, with the
/// same next request, and differs only in that the entry holds a warning.
pub proof fn law_plugin_failure_is_isolated(run: SetupRunView, message: String)
    requires
        well_formed(run),
        run.stage is InstallingPlugin,
    ensures
        ({
            let failed = next_run(run, SetupEvent::Failed(message));
            let succeeded = next_run(run, SetupEvent::Succeeded);
            let entry = run.stage->InstallingPlugin_plugin as int;
            &&& !(failed.stage is Failed)
            &&& failed.error is None
            &&& failed.stage == succeeded.stage
            &&& next_action(run, SetupEvent::Failed(message)) == next_action(
                run,
                SetupEvent::Succeeded,
            )
            &&& succeeded.plugins[entry] == PluginOutcome::Installed
            &&& failed == (SetupRunView {
                plugins: succeeded.plugins.update(entry, PluginOutcome::Warned(message)),
                ..succeeded
            })
        }),
{
    let failed = next_run(run, SetupEvent::Failed(message));
    let succeeded = next_run(run, SetupEvent::Succeeded);
    let entry = run.stage->InstallingPlugin_plugin as int;
    lemma_step_in_plugins(run, SetupEvent::Failed(message));
    lemma_step_in_plugins(run, SetupEvent::Succeeded);
    law_step_keeps_well_formed(run, SetupEvent::Failed(message));
    lemma_next_served(run.config.plugins, run.installers, entry + 1);
    assert(failed.plugins =~= succeeded.plugins.update(entry, PluginOutcome::Warned(message)));
}

/// While the plugins are installed no event ends the run in failure: the run
/// stays with the plugins or moves on to the profile.
pub proof fn law_plugins_never_fail_the_run(run: SetupRunView, event: SetupEvent)
    requires
        well_formed(run),
        phase_of(run.stage) is InstallingPlugins,
    ensures
        phase_of(next_run(run, event).stage) is InstallingPlugins || phase_of(
            next_run(run, event).stage,
        ) is WritingProfile,
        next_run(run, event).error is None,
{
    law_step_keeps_well_formed(run, event);
    lemma_step_in_plugins(run, event);
}

/// A core installer that fails ends the run: the error is the installer's,
/// the caller is told to abort, and the run is not in a phase from which the
/// profile is written.
pub proof fn law_core_failure_is_fatal(run: SetupRunView, message: String)
    requires
        well_formed(run),
        run.stage is InstallingFont,
    ensures
        next_run(run, SetupEvent::Failed(message)).stage is Failed,
        next_run(run, SetupEvent::Failed(message)).error == Some(
            FatalSetupError::CoreInstall(message),
        ),
        next_run(run, SetupEvent::Failed(message)).profile_path is None,
        next_action(run, SetupEvent::Failed(message)) is Abort,
{
}

/// A run fails only in three ways: a core installer failed, the profile
/// path could not be resolved, or the profile could not be written. The
/// error carries the text of the failure. A failure of a plugin installer or
/// of the terminal configuration never ends a run.
pub proof fn law_fatal_errors_have_their_stage(run: SetupRunView, event: SetupEvent)
    requires
        well_formed(run),
        !(run.stage is Failed),
        next_run(run, event).stage is Failed,
    ensures
        event is Failed,
        run.stage is InstallingFont || run.stage is ResolvingProfilePath
            || run.stage is WritingProfile,
        run.stage is InstallingFont ==> next_run(run, event).error == Some(
            FatalSetupError::CoreInstall(event->Failed_0),
        ),
        run.stage is ResolvingProfilePath ==> next_run(run, event).error == Some(
            FatalSetupError::ProfilePath(event->Failed_0),
        ),
        run.stage is WritingProfile ==> next_run(run, event).error == Some(
            FatalSetupError::ProfileWrite(event->Failed_0),
        ),
{
    law_step_keeps_well_formed(run, event);
    lemma_step_in_plugins(run, event);
}

/// The run after a sequence of events.
pub open spec fn run_after(run: SetupRunView, events: Seq<SetupEvent>) -> SetupRunView
    decreases events.len(),
{
    if events.len() == 0 {
        run
    } else {
        next_run(run_after(run, events.drop_last()), events.last())
    }
}

/// The action that answers the event at `position` of a sequence of events.
pub open spec fn action_at(run: SetupRunView, events: Seq<SetupEvent>, position: int) -> SetupActionView {
    next_action(run_after(run, events.take(position)), events[position])
}

/// Whether every event of a sequence answers the request that was pending
/// when it arrived.
pub open spec fn answers_in_turn(run: SetupRunView, events: Seq<SetupEvent>) -> bool {
    forall|position: int|
        0 <= position < events.len() ==> expects(
            #[trigger] run_after(run, events.take(position)).stage,
            events[position],
        )
}

/// A sequence of events that answer in turn, followed by an event that the
/// run then waits for, answers in turn.
pub proof fn lemma_answers_in_turn_push(run: SetupRunView, events: Seq<SetupEvent>, event: SetupEvent)
    requires
        answers_in_turn(run, events),
        expects(run_after(run, events).stage, event),
    ensures
        answers_in_turn(run, events.push(event)),
        run_after(run, events.push(event)) == next_run(run_after(run, events), event),
{
    let longer = events.push(event);
    assert(longer.drop_last() =~= events);
    assert forall|position: int| 0 <= position < longer.len() implies expects(
        #[trigger] run_after(run, longer.take(position)).stage,
        longer[position],
    ) by {
        if position < events.len() {
            assert(longer.take(position) =~= events.take(position));
        } else {
            assert(longer.take(position) =~= events);
        }
    }
}

/// Whatever events arrive, a run stays well formed.
pub proof fn law_runs_stay_well_formed(run: SetupRunView, events: Seq<SetupEvent>)
    requires
        well_formed(run),
    ensures
        well_formed(run_after(run, events)),
    decreases events.len(),
{
    if events.len() > 0 {
        law_runs_stay_well_formed(run, events.drop_last());
        law_step_keeps_well_formed(run_after(run, events.drop_last()), events.last());
    }
}

/// A run that has ended stays as it is: every later event is ignored.
pub proof fn law_ended_runs_do_nothing(run: SetupRunView, events: Seq<SetupEvent>, position: int)
    requires
        run.stage is Failed || run.stage is Done,
        0 <= position < events.len(),
    ensures
        run_after(run, events) == run,
        action_at(run, events, position) is Ignore,
    decreases events.len(),
{
    lemma_ended_runs_stay(run, events);
    lemma_ended_runs_stay(run, events.take(position));
}

/// A run that has ended is not changed by any sequence of events.
pub proof fn lemma_ended_runs_stay(run: SetupRunView, events: Seq<SetupEvent>)
    requires
        run.stage is Failed || run.stage is Done,
    ensures
        run_after(run, events) == run,
    decreases events.len(),
{
    if events.len() > 0 {
        lemma_ended_runs_stay(run, events.drop_last());
    }
}

/// After a core installer has failed the profile is never written: whatever
/// events follow, no action is asked for again, and the run never completes.
pub proof fn law_no_profile_write_after_core_failure(
    run: SetupRunView,
    message: String,
    later: Seq<SetupEvent>,
    position: int,
)
    requires
        well_formed(run),
        run.stage is InstallingFont,
        0 <= position < later.len(),
    ensures
        !(action_at(next_run(run, SetupEvent::Failed(message)), later, position) is WriteProfile),
        !(run_after(next_run(run, SetupEvent::Failed(message)), later).stage is Done),
{
    law_ended_runs_do_nothing(next_run(run, SetupEvent::Failed(message)), later, position);
}

/// The profile is written only after the core components and every plugin
/// entry have been dealt with, and what is written is the text that the
/// configuration determines.
pub proof fn law_profile_is_written_last(run: SetupRunView, event: SetupEvent)
    requires
        well_formed(run),
        next_action(run, event) is WriteProfile,
    ensures
        run.stage is ResolvingProfilePath,
        run.font is Some,
        run.terminal is Some,
        run.plugins.len() == run.config.plugins.len(),
        next_action(run, event)->WriteProfile_content == config_profile_text(run.config),
        event is PathResolved,
        next_action(run, event)->WriteProfile_path == event->PathResolved_0,
{
    law_step_keeps_well_formed(run, event);
    lemma_step_in_plugins(run, event);
}

/// The position of a phase in the order of a run. A failed run has left the
/// order.
pub open spec fn phase_rank(phase: SetupPhase) -> int {
    match phase {
        SetupPhase::Idle => 0,
        SetupPhase::InstallingCore => 1,
        SetupPhase::InstallingPlugins => 2,
        SetupPhase::WritingProfile => 3,
        SetupPhase::Done => 4,
        SetupPhase::Failed => 5,
    }
}

/// The phases come in their order: the core before the plugins, the plugins
/// before the profile, and no step leads back. Within the plugins the entries
/// are taken up in list order.
pub proof fn law_phases_come_in_order(run: SetupRunView, event: SetupEvent)
    requires
        well_formed(run),
    ensures
        phase_rank(phase_of(run.stage)) <= phase_rank(phase_of(next_run(run, event).stage)),
        run.plugins.len() <= next_run(run, event).plugins.len(),
        next_run(run, event).plugins.take(run.plugins.len() as int) == run.plugins,
        next_run(run, event).config == run.config,
        next_run(run, event).installers == run.installers,
{
    law_step_keeps_well_formed(run, event);
    lemma_step_in_plugins(run, event);
    let next = next_run(run, event);
    assert(next.plugins.take(run.plugins.len() as int) =~= run.plugins);
}

/// An upper bound on the events that a run still waits for.
pub open spec fn remaining_steps(run: SetupRunView) -> nat {
    let total = run.config.plugins.len();
    match run.stage {
        SetupStage::Idle => 2 * total + 7,
        SetupStage::ProbingFont => 2 * total + 6,
        SetupStage::InstallingFont => 2 * total + 5,
        SetupStage::CheckingTerminal => 2 * total + 4,
        SetupStage::ConfiguringTerminal => 2 * total + 3,
        SetupStage::ProbingPlugin { plugin, installer } => (2 * (total - plugin) + 2) as nat,
        SetupStage::InstallingPlugin { plugin, installer } => (2 * (total - plugin) + 1) as nat,
        SetupStage::ResolvingProfilePath => 2,
        SetupStage::WritingProfile => 1,
        SetupStage::Done => 0,
        SetupStage::Failed => 0,
    }
}

/// Every event that the run waits for brings it nearer to its end, and the
/// answer to it is a request, never [`SetupActionView::Ignore`]. So a
/// caller that answers each request reaches the end after at most
/// `remaining_steps` events.
pub proof fn law_expected_events_make_progress(run: SetupRunView, event: SetupEvent)
    requires
        well_formed(run),
        expects(run.stage, event),
    ensures
        remaining_steps(next_run(run, event)) < remaining_steps(run),
        !(next_action(run, event) is Ignore),
        next_action(run, event) == pending_action(next_run(run, event)),
        (next_action(run, event) is Finish) == (next_run(run, event).stage is Done),
        (next_action(run, event) is Abort) == (next_run(run, event).stage is Failed),
{
    law_step_keeps_well_formed(run, event);
    lemma_step_in_plugins(run, event);
    lemma_next_served(run.config.plugins, run.installers, 0);
    if run.plugins.len() < run.config.plugins.len() {
        lemma_next_served(run.config.plugins, run.installers, run.plugins.len() as int + 1);
    }
}

} // verus!
