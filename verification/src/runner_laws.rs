//! What holds of every run that a `TaskRunner` supervises, whatever events
//! reach it and in whatever order.

use crate::runner::{
    begin_cleanup, finish, first_error, initial_state, is_run_state, is_sentinel, outcome_of,
    step, Action, Event, Phase, RunnerState, TaskError,
};
use crate::signal::StopState;
use crate::text::{is_whitespace, lemma_trim_end_drops_added_whitespace, lemma_trimmed_len_unique};
use vstd::prelude::*;

verus! {

/// The state of a run after the events `events`, taken in order from `state`.
pub open spec fn state_after(state: RunnerState, events: Seq<Event>) -> RunnerState
    decreases events.len(),
{
    if events.len() == 0 {
        state
    } else {
        step(state_after(state, events.drop_last()), events.last()).0
    }
}

/// What a run asks for, event by event, when the events `events` reach it
/// in order from `state`.
pub open spec fn actions_of(state: RunnerState, events: Seq<Event>) -> Seq<Action>
    decreases events.len(),
{
    if events.len() == 0 {
        Seq::empty()
    } else {
        actions_of(state, events.drop_last()).push(
            step(state_after(state, events.drop_last()), events.last()).1,
        )
    }
}

/// How often `action` occurs in `actions`.
pub open spec fn count_of(actions: Seq<Action>, action: Action) -> nat
    decreases actions.len(),
{
    if actions.len() == 0 {
        0
    } else if actions.last() == action {
        count_of(actions.drop_last(), action) + 1
    } else {
        count_of(actions.drop_last(), action)
    }
}

/// Whether `event` is a line of standard output that ends, trailing
/// whitespace aside, with `phrase`.
pub open spec fn is_sentinel_output(event: Event, phrase: Seq<char>) -> bool {
    match event {
        Event::StdoutLine(line) => is_sentinel(line@, phrase),
        _ => false,
    }
}

/// A line that ends with the phrase is a sentinel line, whatever stands
/// before the phrase and however much whitespace follows it. The phrase
/// itself must end in a visible character.
pub proof fn lemma_line_ending_with_phrase_is_sentinel(
    before: Seq<char>,
    phrase: Seq<char>,
    space: Seq<char>,
)
    requires
        phrase.len() > 0,
        !is_whitespace(phrase.last()),
        forall|i: int| 0 <= i < space.len() ==> is_whitespace(#[trigger] space[i]),
    ensures
        is_sentinel(before + phrase + space, phrase),
{
    let text = before + phrase;
    lemma_trim_end_drops_added_whitespace(text, space);
    lemma_trimmed_len_unique(text, text.len() as int);
    assert(text.take(text.len() as int) =~= text);
    assert(text.skip(text.len() - phrase.len()) =~= phrase);
}

/// Whether `event` reports that something went wrong.
pub open spec fn is_failure(event: Event) -> bool {
    match event {
        Event::SpawnFailed => true,
        Event::StdoutMissing => true,
        Event::StderrMissing => true,
        Event::KillFinished(ok) => !ok,
        Event::AttributesApplied(failure) => failure is Some,
        Event::TempUnreadable => true,
        Event::TempRemoved(ok) => !ok,
        _ => false,
    }
}

/// Every run begins in a run state.
pub proof fn lemma_runs_begin_in_run_state(attributes: bool, phrase: Seq<char>)
    ensures
        is_run_state(initial_state(attributes, phrase)),
{
}

/// No event leads out of the run states.
pub proof fn lemma_run_states_are_kept(state: RunnerState, events: Seq<Event>)
    requires
        is_run_state(state),
    ensures
        is_run_state(state_after(state, events)),
    decreases events.len(),
{
    if events.len() > 0 {
        lemma_run_states_are_kept(state, events.drop_last());
    }
}

/// The subprocess is killed at most once, however many lines of its output
/// end with the sentinel phrase, and never again once the stop signal was
/// taken.
pub proof fn lemma_killed_at_most_once(state: RunnerState, events: Seq<Event>)
    ensures
        count_of(actions_of(state, events), Action::Kill) <= 1,
        state.stop == StopState::Taken ==> count_of(actions_of(state, events), Action::Kill) == 0,
        count_of(actions_of(state, events), Action::Kill) == 1 ==> state_after(
            state,
            events,
        ).stop == StopState::Taken,
        state.stop == StopState::Taken ==> state_after(state, events).stop == StopState::Taken,
    decreases events.len(),
{
    if events.len() > 0 {
        let earlier = events.drop_last();
        lemma_killed_at_most_once(state, earlier);
        let actions = actions_of(state, events);
        assert(actions.drop_last() == actions_of(state, earlier));
    }
}

/// The kill is asked for exactly when a line of standard output ends with
/// the sentinel phrase while the race is on and no stop was asked for
/// before.
pub proof fn lemma_kill_follows_first_sentinel(state: RunnerState, event: Event)
    ensures
        step(state, event).1 == Action::Kill ==> state.phase == Phase::Racing && state.stop
            != StopState::Taken && event is StdoutLine,
        state.phase == Phase::Racing && state.stop == StopState::Idle ==> (step(state, event).1
            == Action::Kill <==> is_sentinel_output(event, state.phrase)),
{
}

/// A failure on record is never replaced: the first one seen is the one
/// reported.
pub proof fn lemma_first_failure_stays(state: RunnerState, events: Seq<Event>)
    requires
        state.error is Some,
    ensures
        state_after(state, events).error == state.error,
    decreases events.len(),
{
    if events.len() > 0 {
        lemma_first_failure_stays(state, events.drop_last());
    }
}

/// Nothing but a reported failure puts a failure on record: output that
/// goes on after the kill, streams that close and the exit of the process
/// leave the outcome as it was.
pub proof fn lemma_no_failure_without_cause(state: RunnerState, events: Seq<Event>)
    requires
        forall|i: int| 0 <= i < events.len() ==> !is_failure(#[trigger] events[i]),
    ensures
        state_after(state, events).error == state.error,
    decreases events.len(),
{
    if events.len() > 0 {
        let earlier = events.drop_last();
        assert forall|i: int| 0 <= i < earlier.len() implies !is_failure(#[trigger] earlier[i]) by {
            assert(earlier[i] == events[i]);
        }
        lemma_no_failure_without_cause(state, earlier);
    }
}

/// The exit code of the subprocess decides nothing: whatever it is, the
/// same is asked for next and no failure is put on record.
pub proof fn lemma_exit_code_is_no_failure(state: RunnerState, code: Option<i32>, other: Option<i32>)
    ensures
        step(state, Event::Exited(code)).1 == step(state, Event::Exited(other)).1,
        step(state, Event::Exited(code)).0.phase == step(state, Event::Exited(other)).0.phase,
        step(state, Event::Exited(code)).0.error == state.error,
{
}

/// Once the race is over the cleanup runs, whoever won the race: no step
/// leads from the race or from the setting of owner and group straight to
/// the end, and the temp directory is always looked at.
pub proof fn lemma_cleanup_always_runs(state: RunnerState, event: Event)
    ensures
        state.phase == Phase::Racing ==> step(state, event).0.phase != Phase::Finished,
        state.phase == Phase::Attributes ==> step(state, event).0.phase != Phase::Finished,
        state.phase == Phase::Racing && step(state, event).0.phase != Phase::Racing ==> step(
            state,
            event,
        ).0.phase == begin_cleanup(state, None).0.phase && step(state, event).1 == begin_cleanup(
            state,
            None,
        ).1,
        state.phase == Phase::Attributes && step(state, event).0.phase != Phase::Attributes
            ==> step(state, event).0.phase == Phase::TempCheck && step(state, event).1
            == Action::InspectTemp,
{
}

/// In every run that got as far as the race, owner and group are set once
/// if one is configured and never if none is, and the temp directory is
/// looked at once, as soon as the race is over; no run ends before that.
pub proof fn lemma_cleanup_steps_run_once(state: RunnerState, events: Seq<Event>)
    requires
        state.phase == Phase::Racing,
    ensures
        ({
            let end = state_after(state, events);
            let actions = actions_of(state, events);
            let attribute_passes = count_of(actions, Action::SetAttributes);
            let inspections = count_of(actions, Action::InspectTemp);
            &&& end.phase != Phase::Starting
            &&& end.attributes == state.attributes
            &&& end.phase == Phase::Racing ==> attribute_passes == 0 && inspections == 0
            &&& end.phase == Phase::Attributes ==> attribute_passes == 1 && inspections == 0
                && end.attributes
            &&& (end.phase == Phase::TempCheck || end.phase == Phase::TempRemoval || end.phase
                == Phase::Finished) ==> inspections == 1 && attribute_passes == (if end.attributes {
                1nat
            } else {
                0nat
            })
        }),
    decreases events.len(),
{
    if events.len() > 0 {
        let earlier = events.drop_last();
        lemma_cleanup_steps_run_once(state, earlier);
        let actions = actions_of(state, events);
        assert(actions.drop_last() == actions_of(state, earlier));
    }
}

/// A failure to set owner or group does not keep the temp directory from
/// being looked at and, if it is empty, removed. The run then reports the
/// first failure seen: the failure to set owner or group, unless the kill
/// had failed before, and never a failure of the removal.
pub proof fn lemma_attribute_failure_keeps_cleanup(
    state: RunnerState,
    failure: TaskError,
    removed: bool,
)
    requires
        state.phase == Phase::Attributes,
    ensures
        ({
            let (listed, first) = step(state, Event::AttributesApplied(Some(failure)));
            let (removing, second) = step(listed, Event::TempEmpty);
            let (done, third) = step(removing, Event::TempRemoved(removed));
            &&& first == Action::InspectTemp
            &&& second == Action::RemoveTemp
            &&& third == Action::Finish
            &&& done.phase == Phase::Finished
            &&& done.error == first_error(state.error, Some(failure))
            &&& state.error is None ==> outcome_of(done) == Err::<(), TaskError>(failure)
        }),
{
}

/// The temp directory is removed only when it was listed and found empty.
/// A directory that holds something stays, with a warning and without a
/// failure on record.
pub proof fn lemma_temp_removed_only_when_empty(state: RunnerState, event: Event)
    ensures
        step(state, event).1 == Action::RemoveTemp <==> state.phase == Phase::TempCheck
            && event is TempEmpty,
        state.phase == Phase::TempCheck && event is TempOccupied ==> step(state, event) == (
            finish(state, None),
            Action::LeaveTemp,
        ) && step(state, event).0.error == state.error,
{
}

/// A run in which nothing fails ends in success: from the start, through a
/// race that the kill ends, to a temp directory that is removed or left.
pub proof fn lemma_run_without_failure_succeeds(
    attributes: bool,
    phrase: Seq<char>,
    events: Seq<Event>,
)
    requires
        forall|i: int| 0 <= i < events.len() ==> !is_failure(#[trigger] events[i]),
    ensures
        outcome_of(state_after(initial_state(attributes, phrase), events)) == Ok::<
            (),
            TaskError,
        >(()),
{
    lemma_no_failure_without_cause(initial_state(attributes, phrase), events);
}

} // verus!
