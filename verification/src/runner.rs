//! Supervision of one downloader subprocess for one task: the command line,
//! the race between the process and the scan of its output, and the cleanup
//! that follows.
//!
//! The supervisor is a state machine. Whoever drives it performs the action
//! that `TaskRunner::handle` returns and reports what happened as the next
//! event.

use crate::settings::{extra_flags, DownloadEntity, DownloadEntityView};
use crate::signal::{raised, taken, StopSignal, StopState};
use crate::text::{
    chars_of, ends_with, push_text, push_texts, trim_end, trimmed_ends_with,
    trimmed_ends_with_chars,
};
use vstd::prelude::*;

verus! {

/// The name of the downloader program.
pub const DOWNLOADER: &'static str = "yt-dlp";

/// The name of the directory, inside a task's output directory, in which the
/// downloader keeps unfinished files.
pub const TEMP_DIR: &'static str = "tmp";

/// The phrase at the end of the output line by which the downloader says
/// that nothing is left to do for a task.
pub const SENTINEL_PHRASE: &'static str = "has already been downloaded";

/// Whether `line`, with trailing whitespace dropped, ends with `phrase`.
pub open spec fn is_sentinel(line: Seq<char>, phrase: Seq<char>) -> bool {
    ends_with(trim_end(line), phrase)
}

/// The arguments of the downloader for `task`: the output directory and the
/// template of the temp directory as two path options, the flag that turns
/// progress output off, the task's own flags, and the url last.
pub open spec fn command_arguments(task: DownloadEntityView) -> Seq<Seq<char>> {
    seq!["-P"@, task.output_path, "-P"@, "temp:"@ + TEMP_DIR@, "--no-progress"@]
        + extra_flags(task) + seq![task.url]
}

/// The path of the temp directory under `output_path`: the two joined by one
/// `/`, which is left out where `output_path` is empty or ends with one.
pub open spec fn temp_dir_path(output_path: Seq<char>) -> Seq<char> {
    if output_path.len() == 0 || output_path.last() == '/' {
        output_path + TEMP_DIR@
    } else {
        output_path + "/"@ + TEMP_DIR@
    }
}

/// The command line begins with the two path options and the flag that
/// turns progress output off, and it ends with the url, whatever flags the
/// entity adds in between.
pub proof fn lemma_arguments_frame_the_flags(task: DownloadEntityView)
    ensures
        command_arguments(task).len() == 6 + extra_flags(task).len(),
        command_arguments(task).take(5) == seq![
            "-P"@,
            task.output_path,
            "-P"@,
            "temp:"@ + TEMP_DIR@,
            "--no-progress"@,
        ],
        command_arguments(task).subrange(5, 5 + extra_flags(task).len() as int) == extra_flags(
            task,
        ),
        command_arguments(task).last() == task.url,
{
    assert(command_arguments(task).subrange(5, 5 + extra_flags(task).len() as int) =~= extra_flags(
        task,
    ));
}

/// Builds the downloader's arguments for `task`.
pub fn downloader_arguments(task: &DownloadEntity) -> (arguments: Vec<String>)
    ensures
        arguments.deep_view() == command_arguments(task@),
{
    let mut arguments: Vec<String> = Vec::new();
    push_text(&mut arguments, "-P");
    push_text(&mut arguments, task.output_path.as_str());
    push_text(&mut arguments, "-P");
    let mut template = String::from_str("temp:");
    template.append(TEMP_DIR);
    push_text(&mut arguments, template.as_str());
    push_text(&mut arguments, "--no-progress");
    let flags = task.get_extra_flags();
    push_texts(&mut arguments, &flags);
    push_text(&mut arguments, task.url.as_str());
    arguments
}

/// Builds the path of the temp directory of the task that stores its files
/// in `output_path`.
pub fn temp_directory(output_path: &str) -> (path: String)
    ensures
        path@ == temp_dir_path(output_path@),
{
    let chars = chars_of(output_path);
    let mut path = String::from_str(output_path);
    if chars.len() > 0 && chars[chars.len() - 1] != '/' {
        path.append("/");
    }
    path.append(TEMP_DIR);
    path
}

/// Tells whether `line` is the sentinel line of the downloader: whether its
/// text, with trailing whitespace dropped, ends with `SENTINEL_PHRASE`.
pub fn is_sentinel_line(line: &str) -> (found: bool)
    ensures
        found == is_sentinel(line@, SENTINEL_PHRASE@),
{
    trimmed_ends_with(line, SENTINEL_PHRASE)
}

/// The stage of a task's run at which something failed.
#[derive(Debug, Clone, Copy, PartialEq, Eq, Structural)]
pub enum Stage {
    Spawn,
    StreamAcquisition,
    Kill,
    OwnerGroup,
    TempRemoval,
}

/// What went wrong while a task was run. None of these ends the batch.
#[derive(Debug, Clone, Copy, PartialEq, Eq, Structural)]
pub enum TaskError {
    /// The subprocess could not be started.
    Spawn,
    /// The subprocess gave no handle to its standard output.
    StdoutHandle,
    /// The subprocess gave no handle to its standard error.
    StderrHandle,
    /// The subprocess could not be killed.
    Kill,
    /// The output directory could not be listed.
    ListOutputDir,
    /// The owner of a file could not be set.
    SetOwner,
    /// The group of a file could not be set.
    SetGroup,
    /// The temp directory could not be listed.
    ListTempDir,
    /// The temp directory could not be removed.
    RemoveTempDir,
}

/// The stage to which `error` belongs.
pub open spec fn stage_of(error: TaskError) -> Stage {
    match error {
        TaskError::Spawn => Stage::Spawn,
        TaskError::StdoutHandle => Stage::StreamAcquisition,
        TaskError::StderrHandle => Stage::StreamAcquisition,
        TaskError::Kill => Stage::Kill,
        TaskError::ListOutputDir => Stage::OwnerGroup,
        TaskError::SetOwner => Stage::OwnerGroup,
        TaskError::SetGroup => Stage::OwnerGroup,
        TaskError::ListTempDir => Stage::TempRemoval,
        TaskError::RemoveTempDir => Stage::TempRemoval,
    }
}

/// The text that describes `error` in the log.
pub open spec fn message_of(error: TaskError) -> Seq<char> {
    match error {
        TaskError::Spawn => "Failed to spawn yt-dlp subprocess."@,
        TaskError::StdoutHandle => "Failed to get stdout handle from yt-dlp subprocess."@,
        TaskError::StderrHandle => "Failed to get stderr handle from yt-dlp subprocess."@,
        TaskError::Kill => "Failed to stop yt-dlp subprocess."@,
        TaskError::ListOutputDir => "Failed to list directory via indicated path."@,
        TaskError::SetOwner => "Error setting new file owner"@,
        TaskError::SetGroup => "Error setting new file group"@,
        TaskError::ListTempDir => "Failed to list directory via indicated path."@,
        TaskError::RemoveTempDir => "Failed to remove temp directory."@,
    }
}

impl TaskError {
    /// The stage at which this error arose.
    pub fn stage(&self) -> (stage: Stage)
        ensures
            stage == stage_of(*self),
    {
        match self {
            TaskError::Spawn => Stage::Spawn,
            TaskError::StdoutHandle => Stage::StreamAcquisition,
            TaskError::StderrHandle => Stage::StreamAcquisition,
            TaskError::Kill => Stage::Kill,
            TaskError::ListOutputDir => Stage::OwnerGroup,
            TaskError::SetOwner => Stage::OwnerGroup,
            TaskError::SetGroup => Stage::OwnerGroup,
            TaskError::ListTempDir => Stage::TempRemoval,
            TaskError::RemoveTempDir => Stage::TempRemoval,
        }
    }

    /// The text that describes this error in the log.
    pub fn message(&self) -> (message: &'static str)
        ensures
            message@ == message_of(*self),
    {
        match self {
            TaskError::Spawn => "Failed to spawn yt-dlp subprocess.",
            TaskError::StdoutHandle => "Failed to get stdout handle from yt-dlp subprocess.",
            TaskError::StderrHandle => "Failed to get stderr handle from yt-dlp subprocess.",
            TaskError::Kill => "Failed to stop yt-dlp subprocess.",
            TaskError::ListOutputDir => "Failed to list directory via indicated path.",
            TaskError::SetOwner => "Error setting new file owner",
            TaskError::SetGroup => "Error setting new file group",
            TaskError::ListTempDir => "Failed to list directory via indicated path.",
            TaskError::RemoveTempDir => "Failed to remove temp directory.",
        }
    }
}

/// How far the supervision of a task has come.
#[derive(Debug, Clone, Copy, PartialEq, Eq, Structural)]
pub enum Phase {
    /// The subprocess is being started.
    Starting,
    /// The subprocess runs and its output is read.
    Racing,
    /// Owner and group are being set on the downloaded files.
    Attributes,
    /// The temp directory is being listed.
    TempCheck,
    /// The temp directory is being removed.
    TempRemoval,
    /// Nothing is left to do.
    Finished,
}

/// What the supervisor is told.
#[derive(Debug)]
pub enum Event {
    /// The subprocess runs and both of its output streams are at hand.
    Started,
    /// The subprocess could not be started.
    SpawnFailed,
    /// The subprocess gave no handle to its standard output.
    StdoutMissing,
    /// The subprocess gave no handle to its standard error.
    StderrMissing,
    /// The subprocess ended by itself, with this exit code if it gave one.
    Exited(Option<i32>),
    /// The subprocess wrote this line to its standard output.
    StdoutLine(String),
    /// The standard output of the subprocess came to its end.
    StdoutClosed,
    /// The subprocess wrote a line to its standard error.
    StderrLine,
    /// The standard error of the subprocess came to its end.
    StderrClosed,
    /// The attempt to kill the subprocess is over; `true` if it succeeded.
    KillFinished(bool),
    /// Owner and group were set, or setting them failed in the given way.
    AttributesApplied(Option<TaskError>),
    /// The temp directory could not be listed.
    TempUnreadable,
    /// The temp directory holds nothing.
    TempEmpty,
    /// The temp directory holds something.
    TempOccupied,
    /// The attempt to remove the temp directory is over; `true` if it
    /// succeeded.
    TempRemoved(bool),
}

/// What the supervisor asks for.
#[derive(Debug, Clone, Copy, PartialEq, Eq, Structural)]
pub enum Action {
    /// Nothing: go on waiting for the next event.
    Continue,
    /// Write the line of standard error to the log as a warning and go on.
    ForwardWarning,
    /// Kill the subprocess and report `Event::KillFinished`.
    Kill,
    /// Set owner and group on the regular files of the output directory and
    /// report `Event::AttributesApplied`.
    SetAttributes,
    /// List the temp directory and report `Event::TempUnreadable`,
    /// `Event::TempEmpty` or `Event::TempOccupied`.
    InspectTemp,
    /// Remove the temp directory and report `Event::TempRemoved`.
    RemoveTemp,
    /// Warn that the temp directory is not empty and stays; the run is over.
    LeaveTemp,
    /// The run is over.
    Finish,
}

/// The mathematical model of a `TaskRunner`.
pub struct RunnerState {
    /// How far the run has come.
    pub phase: Phase,
    /// The one-shot signal by which the scan of the output asks for the kill.
    pub stop: StopState,
    /// The first failure seen so far.
    pub error: Option<TaskError>,
    /// The exit code of the subprocess, if the race ended with its exit and
    /// it gave one.
    pub exit_code: Option<i32>,
    /// Whether an owner or a group is to be set on the downloaded files.
    pub attributes: bool,
    /// The phrase that ends the sentinel line.
    pub phrase: Seq<char>,
}

/// The state in which every run begins.
pub open spec fn initial_state(attributes: bool, phrase: Seq<char>) -> RunnerState {
    RunnerState {
        phase: Phase::Starting,
        stop: StopState::Idle,
        error: None,
        exit_code: None,
        attributes,
        phrase,
    }
}

/// Whether `state` is one that a run can be in. The stop signal is never
/// left raised between two steps: it is taken in the step that raises it.
/// Before the subprocess is started nothing has happened yet, and owner and
/// group are set only where one is configured.
pub open spec fn is_run_state(state: RunnerState) -> bool {
    &&& state.stop != StopState::Raised
    &&& state.phase == Phase::Starting ==> state.stop == StopState::Idle && state.error is None
        && state.exit_code is None
    &&& state.phase == Phase::Attributes ==> state.attributes
}

/// Whether anything is to be set on the downloaded files: whether an owner
/// or a group is configured.
pub open spec fn wants_attributes(set_owner: Option<String>, set_group: Option<String>) -> bool {
    set_owner is Some || set_group is Some
}

/// The failure to report when `new` comes after `seen`: the first one seen
/// stays.
pub open spec fn first_error(seen: Option<TaskError>, new: Option<TaskError>) -> Option<
    TaskError,
> {
    if seen is Some {
        seen
    } else {
        new
    }
}

/// The failure that a `false` result stands for.
pub open spec fn failure_unless(ok: bool, error: TaskError) -> Option<TaskError> {
    if ok {
        None
    } else {
        Some(error)
    }
}

/// The end of the run, with `failure` as the last thing that happened.
pub open spec fn finish(state: RunnerState, failure: Option<TaskError>) -> RunnerState {
    RunnerState { phase: Phase::Finished, error: first_error(state.error, failure), ..state }
}

/// The end of the race, with `failure` as the last thing that happened in
/// it: the cleanup begins, with the owner and group where one is configured
/// and with the temp directory where none is.
pub open spec fn begin_cleanup(state: RunnerState, failure: Option<TaskError>) -> (
    RunnerState,
    Action,
) {
    let error = first_error(state.error, failure);
    if state.attributes {
        (RunnerState { phase: Phase::Attributes, error, ..state }, Action::SetAttributes)
    } else {
        (RunnerState { phase: Phase::TempCheck, error, ..state }, Action::InspectTemp)
    }
}

/// The step of a run that has not started its subprocess yet.
pub open spec fn step_starting(state: RunnerState, event: Event) -> (RunnerState, Action) {
    match event {
        Event::Started => (RunnerState { phase: Phase::Racing, ..state }, Action::Continue),
        Event::SpawnFailed => (finish(state, Some(TaskError::Spawn)), Action::Finish),
        Event::StdoutMissing => (finish(state, Some(TaskError::StdoutHandle)), Action::Finish),
        Event::StderrMissing => (finish(state, Some(TaskError::StderrHandle)), Action::Finish),
        _ => (state, Action::Continue),
    }
}

/// The step of a run whose subprocess is running. The first of these ends
/// the race: the exit of the process, the end of either output stream, the
/// end of the kill. The exit code is put on record and is no failure,
/// whatever it is. A sentinel line raises the stop signal, and a raised
/// signal is taken at once and answered with the kill; while the kill is
/// under way only its end counts.
pub open spec fn step_racing(state: RunnerState, event: Event) -> (RunnerState, Action) {
    if state.stop == StopState::Taken {
        match event {
            Event::KillFinished(ok) => begin_cleanup(state, failure_unless(ok, TaskError::Kill)),
            Event::StderrLine => (state, Action::ForwardWarning),
            _ => (state, Action::Continue),
        }
    } else {
        match event {
            Event::Exited(code) => begin_cleanup(RunnerState { exit_code: code, ..state }, None),
            Event::StdoutClosed => begin_cleanup(state, None),
            Event::StderrClosed => begin_cleanup(state, None),
            Event::StderrLine => (state, Action::ForwardWarning),
            Event::StdoutLine(line) => {
                let stop = if is_sentinel(line@, state.phrase) {
                    raised(state.stop)
                } else {
                    state.stop
                };
                if stop == StopState::Raised {
                    (RunnerState { stop: taken(stop), ..state }, Action::Kill)
                } else {
                    (RunnerState { stop, ..state }, Action::Continue)
                }
            },
            _ => (state, Action::Continue),
        }
    }
}

/// The step of a run that is cleaning up. A failure to set owner or group
/// is recorded and the temp directory is looked at all the same; the temp
/// directory is removed only when it was found empty.
pub open spec fn step_cleanup(state: RunnerState, event: Event) -> (RunnerState, Action) {
    match (state.phase, event) {
        (Phase::Attributes, Event::AttributesApplied(failure)) => (
            RunnerState {
                phase: Phase::TempCheck,
                error: first_error(state.error, failure),
                ..state
            },
            Action::InspectTemp,
        ),
        (Phase::TempCheck, Event::TempUnreadable) => (
            finish(state, Some(TaskError::ListTempDir)),
            Action::Finish,
        ),
        (Phase::TempCheck, Event::TempEmpty) => (
            RunnerState { phase: Phase::TempRemoval, ..state },
            Action::RemoveTemp,
        ),
        (Phase::TempCheck, Event::TempOccupied) => (finish(state, None), Action::LeaveTemp),
        (Phase::TempRemoval, Event::TempRemoved(ok)) => (
            finish(state, failure_unless(ok, TaskError::RemoveTempDir)),
            Action::Finish,
        ),
        _ => (state, Action::Continue),
    }
}

/// The next state of a run and what it asks for, given its state and what
/// happened. An event that does not belong to the phase changes nothing and
/// asks for nothing; a finished run stays finished.
pub open spec fn step(state: RunnerState, event: Event) -> (RunnerState, Action) {
    match state.phase {
        Phase::Starting => step_starting(state, event),
        Phase::Racing => step_racing(state, event),
        Phase::Finished => (state, Action::Finish),
        _ => step_cleanup(state, event),
    }
}

/// What a run reports in the end: success, or the first failure seen.
pub open spec fn outcome_of(state: RunnerState) -> Result<(), TaskError> {
    match state.error {
        Some(error) => Err(error),
        None => Ok(()),
    }
}

/// Tells whether an owner or a group is configured, so that the downloaded
/// files need a pass over their attributes.
pub fn attributes_configured(set_owner: &Option<String>, set_group: &Option<String>) -> (wanted:
    bool)
    ensures
        wanted == wants_attributes(*set_owner, *set_group),
{
    set_owner.is_some() || set_group.is_some()
}

/// The supervisor of one run of the downloader for one task.
#[derive(Debug)]
pub struct TaskRunner {
    phase: Phase,
    stop: StopSignal,
    error: Option<TaskError>,
    exit_code: Option<i32>,
    attributes: bool,
    phrase: Vec<char>,
}

impl View for TaskRunner {
    type V = RunnerState;

    closed spec fn view(&self) -> RunnerState {
        RunnerState {
            phase: self.phase,
            stop: self.stop@,
            error: self.error,
            exit_code: self.exit_code,
            attributes: self.attributes,
            phrase: self.phrase@,
        }
    }
}

impl TaskRunner {
    /// A supervisor for a run after which `set_owner` and `set_group` are
    /// set on the downloaded files. It looks for `SENTINEL_PHRASE`.
    pub fn new(set_owner: &Option<String>, set_group: &Option<String>) -> (runner: TaskRunner)
        ensures
            runner@ == initial_state(wants_attributes(*set_owner, *set_group), SENTINEL_PHRASE@),
            is_run_state(runner@),
    {
        TaskRunner::with_phrase(set_owner, set_group, SENTINEL_PHRASE)
    }

    /// A supervisor like that of `new` that looks for `phrase` instead.
    pub fn with_phrase(
        set_owner: &Option<String>,
        set_group: &Option<String>,
        phrase: &str,
    ) -> (runner: TaskRunner)
        ensures
            runner@ == initial_state(wants_attributes(*set_owner, *set_group), phrase@),
            is_run_state(runner@),
    {
        TaskRunner {
            phase: Phase::Starting,
            stop: StopSignal::new(),
            error: None,
            exit_code: None,
            attributes: attributes_configured(set_owner, set_group),
            phrase: chars_of(phrase),
        }
    }

    /// Records `failure` unless an earlier failure is on record.
    fn record(&mut self, failure: Option<TaskError>)
        ensures
            final(self)@ == (RunnerState {
                error: first_error(old(self)@.error, failure),
                ..old(self)@
            }),
    {
        if self.error.is_none() {
            self.error = failure;
        }
    }

    /// Ends the race and asks for the first step of the cleanup.
    fn start_cleanup(&mut self, failure: Option<TaskError>) -> (action: Action)
        ensures
            (final(self)@, action) == begin_cleanup(old(self)@, failure),
    {
        self.record(failure);
        if self.attributes {
            self.phase = Phase::Attributes;
            Action::SetAttributes
        } else {
            self.phase = Phase::TempCheck;
            Action::InspectTemp
        }
    }

    /// Ends the run.
    fn end(&mut self, failure: Option<TaskError>)
        ensures
            final(self)@ == finish(old(self)@, failure),
    {
        self.record(failure);
        self.phase = Phase::Finished;
    }

    fn handle_starting(&mut self, event: Event) -> (action: Action)
        ensures
            (final(self)@, action) == step_starting(old(self)@, event),
    {
        match event {
            Event::Started => {
                self.phase = Phase::Racing;
                Action::Continue
            },
            Event::SpawnFailed => {
                self.end(Some(TaskError::Spawn));
                Action::Finish
            },
            Event::StdoutMissing => {
                self.end(Some(TaskError::StdoutHandle));
                Action::Finish
            },
            Event::StderrMissing => {
                self.end(Some(TaskError::StderrHandle));
                Action::Finish
            },
            _ => Action::Continue,
        }
    }

    fn handle_racing(&mut self, event: Event) -> (action: Action)
        ensures
            (final(self)@, action) == step_racing(old(self)@, event),
    {
        if self.stop.state() == StopState::Taken {
            match event {
                Event::KillFinished(ok) => {
                    let failure = if ok {
                        None
                    } else {
                        Some(TaskError::Kill)
                    };
                    self.start_cleanup(failure)
                },
                Event::StderrLine => Action::ForwardWarning,
                _ => Action::Continue,
            }
        } else {
            match event {
                Event::Exited(code) => {
                    self.exit_code = code;
                    self.start_cleanup(None)
                },
                Event::StdoutClosed => self.start_cleanup(None),
                Event::StderrClosed => self.start_cleanup(None),
                Event::StderrLine => Action::ForwardWarning,
                Event::StdoutLine(line) => {
                    if trimmed_ends_with_chars(line.as_str(), &self.phrase) {
                        self.stop.raise();
                    }
                    if self.stop.take() {
                        Action::Kill
                    } else {
                        Action::Continue
                    }
                },
                _ => Action::Continue,
            }
        }
    }

    fn handle_cleanup(&mut self, event: Event) -> (action: Action)
        ensures
            (final(self)@, action) == step_cleanup(old(self)@, event),
    {
        match (self.phase, event) {
            (Phase::Attributes, Event::AttributesApplied(failure)) => {
                self.record(failure);
                self.phase = Phase::TempCheck;
                Action::InspectTemp
            },
            (Phase::TempCheck, Event::TempUnreadable) => {
                self.end(Some(TaskError::ListTempDir));
                Action::Finish
            },
            (Phase::TempCheck, Event::TempEmpty) => {
                self.phase = Phase::TempRemoval;
                Action::RemoveTemp
            },
            (Phase::TempCheck, Event::TempOccupied) => {
                self.end(None);
                Action::LeaveTemp
            },
            (Phase::TempRemoval, Event::TempRemoved(ok)) => {
                let failure = if ok {
                    None
                } else {
                    Some(TaskError::RemoveTempDir)
                };
                self.end(failure);
                Action::Finish
            },
            _ => Action::Continue,
        }
    }

    /// Takes in what happened and says what to do next.
    pub fn handle(&mut self, event: Event) -> (action: Action)
        ensures
            (final(self)@, action) == step(old(self)@, event),
            is_run_state(old(self)@) ==> is_run_state(final(self)@),
    {
        match self.phase {
            Phase::Starting => self.handle_starting(event),
            Phase::Racing => self.handle_racing(event),
            Phase::Finished => Action::Finish,
            _ => self.handle_cleanup(event),
        }
    }

    /// How far the run has come.
    pub fn phase(&self) -> (phase: Phase)
        ensures
            phase == self@.phase,
    {
        self.phase
    }

    /// Whether nothing is left to do.
    pub fn is_finished(&self) -> (finished: bool)
        ensures
            finished == (self@.phase == Phase::Finished),
    {
        match self.phase {
            Phase::Finished => true,
            _ => false,
        }
    }

    /// The exit code of the subprocess, if the race ended with its exit and
    /// it gave one.
    pub fn exit_code(&self) -> (code: Option<i32>)
        ensures
            code == self@.exit_code,
    {
        self.exit_code
    }

    /// What the run reports: success, or the first failure seen so far.
    pub fn outcome(&self) -> (outcome: Result<(), TaskError>)
        ensures
            outcome == outcome_of(self@),
    {
        match self.error {
            Some(error) => Err(error),
            None => Ok(()),
        }
    }
}

} // verus!
