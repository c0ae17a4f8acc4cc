//! The watcher: it owns the settings and the run signal, and turns the
//! firings of the schedule into passes over the tasks, one at a time.

use crate::batch::{BatchState, TaskBatch};
use crate::schedule::{cron_of, registration_plan};
use crate::settings::{text_of, Settings, SettingsView};
use crate::signal::RunSignal;
use vstd::prelude::*;

verus! {

/// What the watcher is doing.
#[derive(Debug, Clone, Copy, PartialEq, Eq, Structural)]
pub enum WatcherState {
    /// The scheduling engine is being set up.
    Initializing,
    /// The watcher waits for a run to be signalled.
    AwaitingSignal,
    /// A pass over the tasks is going on.
    Running,
    /// The scheduling engine could not be set up, for the reason given.
    /// Nothing runs any more.
    Failed(StartupError),
}

/// Why the watcher could not be started. Each of these ends the process.
#[derive(Debug, Clone, Copy, PartialEq, Eq, Structural)]
pub enum StartupError {
    /// The scheduling engine could not be created.
    CreateScheduler,
    /// A schedule entry was refused as a job.
    CreateJob,
    /// A job could not be added to the scheduling engine.
    AddJob,
    /// The scheduling engine could not be started.
    StartScheduler,
}

/// The text that describes `error` in the log.
pub open spec fn startup_message_of(error: StartupError) -> Seq<char> {
    match error {
        StartupError::CreateScheduler => "Failed to create scheduler"@,
        StartupError::CreateJob => "Failed to create async job"@,
        StartupError::AddJob => "Failed to add a job to scheduler"@,
        StartupError::StartScheduler => "Failed to start scheduler"@,
    }
}

impl StartupError {
    /// The text that describes this error in the log.
    pub fn message(&self) -> (message: &'static str)
        ensures
            message@ == startup_message_of(*self),
    {
        match self {
            StartupError::CreateScheduler => "Failed to create scheduler",
            StartupError::CreateJob => "Failed to create async job",
            StartupError::AddJob => "Failed to add a job to scheduler",
            StartupError::StartScheduler => "Failed to start scheduler",
        }
    }
}

/// The mathematical model of a `Watcher`.
pub struct WatcherView {
    /// The settings that the watcher was made with.
    pub settings: SettingsView,
    /// What the watcher is doing.
    pub state: WatcherState,
    /// Whether a run is signalled and not yet begun.
    pub pending: bool,
}

/// The watcher as it is made for `settings`: the run that the settings ask
/// for at start, if they do, is signalled before anything else happens.
pub open spec fn initial_watcher(settings: SettingsView) -> WatcherView {
    WatcherView {
        settings,
        state: WatcherState::Initializing,
        pending: settings.update_on_start == Some(true),
    }
}

/// The watcher once the scheduling engine runs: it waits for the signal.
/// Only a watcher that is being set up can be started.
pub open spec fn started(watcher: WatcherView) -> WatcherView {
    if watcher.state == WatcherState::Initializing {
        WatcherView { state: WatcherState::AwaitingSignal, ..watcher }
    } else {
        watcher
    }
}

/// The watcher after a step of its set-up failed with `error`: it has
/// failed for good. Once it is started nothing can make it fail.
pub open spec fn failed(watcher: WatcherView, error: StartupError) -> WatcherView {
    if watcher.state == WatcherState::Initializing {
        WatcherView { state: WatcherState::Failed(error), ..watcher }
    } else {
        watcher
    }
}

/// The watcher after the schedule fired: a run is pending. If one was
/// pending already, nothing changes.
pub open spec fn triggered(watcher: WatcherView) -> WatcherView {
    WatcherView { pending: true, ..watcher }
}

/// Whether a pass begins when the watcher looks at the signal: it does when
/// the watcher waits and a run is pending.
pub open spec fn begins_batch(watcher: WatcherView) -> bool {
    watcher.state == WatcherState::AwaitingSignal && watcher.pending
}

/// The watcher after it looked at the signal: where a pass begins the
/// pending run is used up.
pub open spec fn polled(watcher: WatcherView) -> WatcherView {
    if begins_batch(watcher) {
        WatcherView { state: WatcherState::Running, pending: false, ..watcher }
    } else {
        watcher
    }
}

/// The watcher after the pass ended, however its tasks fared: it waits for
/// the signal again.
pub open spec fn batch_finished(watcher: WatcherView) -> WatcherView {
    if watcher.state == WatcherState::Running {
        WatcherView { state: WatcherState::AwaitingSignal, ..watcher }
    } else {
        watcher
    }
}

/// The owner of the settings and of the run signal.
#[derive(Debug)]
pub struct Watcher {
    settings: Settings,
    state: WatcherState,
    signal: RunSignal,
}

impl View for Watcher {
    type V = WatcherView;

    closed spec fn view(&self) -> WatcherView {
        WatcherView { settings: self.settings@, state: self.state, pending: self.signal@ }
    }
}

impl Watcher {
    /// A watcher for `settings`. It is not started yet. Where the settings
    /// ask for a run at start, that run is pending from now on.
    pub fn new(settings: Settings) -> (watcher: Watcher)
        ensures
            watcher@ == initial_watcher(settings@),
    {
        let mut signal = RunSignal::new();
        match settings.update_on_start {
            Some(true) => {
                signal.post();
            },
            _ => {},
        }
        Watcher { settings, state: WatcherState::Initializing, signal }
    }

    /// The settings that the watcher was made with.
    pub fn settings(&self) -> (settings: &Settings)
        ensures
            settings@ == self@.settings,
    {
        &self.settings
    }

    /// What the watcher is doing.
    pub fn state(&self) -> (state: WatcherState)
        ensures
            state == self@.state,
    {
        self.state
    }

    /// Whether a run is signalled and not yet begun.
    pub fn is_run_pending(&self) -> (pending: bool)
        ensures
            pending == self@.pending,
    {
        self.signal.is_pending()
    }

    /// The registration plan of the schedule: for each entry, in order, the
    /// cron expression to register with the scheduling engine, or `None`
    /// where the entry is dropped.
    pub fn registrations(&self) -> (plan: Vec<Option<String>>)
        ensures
            plan@.len() == self@.settings.update_schedule.len(),
            forall|i: int|
                0 <= i < plan@.len() ==> text_of(#[trigger] plan@[i]) == cron_of(
                    self@.settings.update_schedule[i],
                ),
    {
        let plan = registration_plan(&self.settings.update_schedule);
        plan
    }

    /// Says that the scheduling engine runs. The watcher now waits for the
    /// signal.
    pub fn start(&mut self)
        ensures
            final(self)@ == started(old(self)@),
    {
        match self.state {
            WatcherState::Initializing => {
                self.state = WatcherState::AwaitingSignal;
            },
            _ => {},
        }
    }

    /// Says that a step of the set-up failed. The watcher has failed for
    /// good and `error` is kept as the reason.
    pub fn fail(&mut self, error: StartupError)
        ensures
            final(self)@ == failed(old(self)@, error),
    {
        match self.state {
            WatcherState::Initializing => {
                self.state = WatcherState::Failed(error);
            },
            _ => {},
        }
    }

    /// Says that the schedule fired. The run is posted without waiting;
    /// `false` is returned if a run was pending already and the post was
    /// dropped.
    pub fn trigger(&mut self) -> (stored: bool)
        ensures
            final(self)@ == triggered(old(self)@),
            stored == !old(self)@.pending,
    {
        self.signal.post()
    }

    /// Looks at the signal. If the watcher waits and a run is pending, the
    /// run is taken and the pass over all tasks is returned; else `None`.
    pub fn begin_batch(&mut self) -> (batch: Option<TaskBatch>)
        ensures
            final(self)@ == polled(old(self)@),
            batch is Some <==> begins_batch(old(self)@),
            batch matches Some(pass) ==> pass@ == (BatchState {
                total: old(self)@.settings.tasks.len(),
                attempted: 0,
            }),
    {
        match self.state {
            WatcherState::AwaitingSignal => {
                if self.signal.take() {
                    self.state = WatcherState::Running;
                    Some(TaskBatch::new(self.settings.tasks.len()))
                } else {
                    None
                }
            },
            _ => None,
        }
    }

    /// Says that the pass is over. The watcher waits for the signal again.
    pub fn finish_batch(&mut self)
        ensures
            final(self)@ == batch_finished(old(self)@),
    {
        match self.state {
            WatcherState::Running => {
                self.state = WatcherState::AwaitingSignal;
            },
            _ => {},
        }
    }
}

/// The watcher after the schedule fired `count` times in a row.
pub open spec fn triggered_times(watcher: WatcherView, count: nat) -> WatcherView
    decreases count,
{
    if count == 0 {
        watcher
    } else {
        triggered(triggered_times(watcher, (count - 1) as nat))
    }
}

/// However often the schedule fires, once or more, the watcher is left as
/// one firing leaves it.
pub proof fn lemma_triggers_coalesce(watcher: WatcherView, count: nat)
    requires
        count >= 1,
    ensures
        triggered_times(watcher, count) == triggered(watcher),
    decreases count,
{
    if count > 1 {
        lemma_triggers_coalesce(watcher, (count - 1) as nat);
    } else {
        assert(triggered_times(watcher, 0) == watcher);
    }
}

/// Firings of the schedule during a pass, however many, lead to exactly one
/// further pass: when the pass is over the next one begins, and when that
/// one is over the watcher waits.
pub proof fn lemma_triggers_during_batch_start_one_batch(watcher: WatcherView, count: nat)
    requires
        watcher.state == WatcherState::Running,
        count >= 1,
    ensures
        ({
            let waiting = batch_finished(triggered_times(watcher, count));
            let running = polled(waiting);
            &&& begins_batch(waiting)
            &&& running.state == WatcherState::Running
            &&& !running.pending
            &&& !begins_batch(batch_finished(running))
        }),
{
    lemma_triggers_coalesce(watcher, count);
}

/// No pass begins while another goes on, whatever is pending: the passes
/// never overlap.
pub proof fn lemma_batches_never_overlap(watcher: WatcherView)
    requires
        watcher.state == WatcherState::Running,
    ensures
        !begins_batch(watcher),
        polled(watcher) == watcher,
{
}

/// A watcher whose settings ask for a run at start begins a pass as soon as
/// it is started, before the schedule has fired at all. One whose settings
/// do not waits for the first firing.
pub proof fn lemma_start_decides_first_batch(settings: SettingsView)
    ensures
        begins_batch(started(initial_watcher(settings))) <==> settings.update_on_start == Some(
            true,
        ),
        begins_batch(triggered(started(initial_watcher(settings)))),
        !begins_batch(initial_watcher(settings)),
{
}

/// A watcher whose set-up failed never begins a pass, whatever is signalled
/// afterwards: there is no way on from a failed start.
pub proof fn lemma_failed_watcher_runs_nothing(
    watcher: WatcherView,
    error: StartupError,
    count: nat,
)
    requires
        watcher.state == WatcherState::Initializing,
    ensures
        ({
            let stopped = triggered_times(failed(watcher, error), count);
            &&& !begins_batch(stopped)
            &&& !begins_batch(started(stopped))
            &&& stopped.state == WatcherState::Failed(error)
        }),
    decreases count,
{
    if count > 0 {
        lemma_failed_watcher_runs_nothing(watcher, error, (count - 1) as nat);
    }
}

} // verus!
