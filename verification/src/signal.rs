//! Single-slot signals: the coalescing run signal and the one-shot stop signal.

use vstd::prelude::*;

verus! {

/// A coalescing notification with room for one pending run.
///
/// Any number of posts made while a run is already pending collapse into that
/// one pending run: the signal is a flag, not a queue.
#[derive(Debug)]
pub struct RunSignal {
    pending: bool,
}

impl View for RunSignal {
    type V = bool;

    /// Whether a run is pending.
    closed spec fn view(&self) -> bool {
        self.pending
    }
}

impl RunSignal {
    /// A signal with no run pending.
    pub fn new() -> (signal: RunSignal)
        ensures
            !signal@,
    {
        RunSignal { pending: false }
    }

    /// Posts a run without blocking. Returns `true` if the post was stored and
    /// `false` if a run was already pending, in which case the post is dropped.
    pub fn post(&mut self) -> (stored: bool)
        ensures
            final(self)@,
            stored == !old(self)@,
    {
        let stored = !self.pending;
        self.pending = true;
        stored
    }

    /// Takes the pending run, if there is one, and clears the slot.
    pub fn take(&mut self) -> (run: bool)
        ensures
            run == old(self)@,
            !final(self)@,
    {
        let run = self.pending;
        self.pending = false;
        run
    }

    /// Whether a run is pending.
    pub fn is_pending(&self) -> (pending: bool)
        ensures
            pending == self@,
    {
        self.pending
    }
}

/// Where a one-shot stop signal stands.
#[derive(Debug, Clone, Copy, PartialEq, Eq, Structural)]
pub enum StopState {
    /// Nobody has asked to stop.
    Idle,
    /// A stop was asked for and has not been acted on yet.
    Raised,
    /// The stop was handed to its consumer.
    Taken,
}

/// The state after one attempt to raise the signal: only the first attempt
/// changes anything.
pub open spec fn raised(state: StopState) -> StopState {
    if state == StopState::Idle {
        StopState::Raised
    } else {
        state
    }
}

/// The state after the consumer has looked at the signal.
pub open spec fn taken(state: StopState) -> StopState {
    if state == StopState::Raised {
        StopState::Taken
    } else {
        state
    }
}

/// A stop signal that can be raised once and consumed once. Writers may try
/// to raise it any number of times; the first attempt wins and the others do
/// nothing.
#[derive(Debug)]
pub struct StopSignal {
    state: StopState,
}

impl View for StopSignal {
    type V = StopState;

    closed spec fn view(&self) -> StopState {
        self.state
    }
}

impl StopSignal {
    /// A signal that nobody has raised.
    pub fn new() -> (signal: StopSignal)
        ensures
            signal@ == StopState::Idle,
    {
        StopSignal { state: StopState::Idle }
    }

    /// Asks to stop. Returns `true` for the attempt that raised the signal and
    /// `false` for every later one, which changes nothing.
    pub fn raise(&mut self) -> (first: bool)
        ensures
            final(self)@ == raised(old(self)@),
            first == (old(self)@ == StopState::Idle),
    {
        match self.state {
            StopState::Idle => {
                self.state = StopState::Raised;
                true
            },
            _ => false,
        }
    }

    /// Hands the stop to the consumer. Returns `true` exactly once, for the
    /// first call after the signal was raised.
    pub fn take(&mut self) -> (stop: bool)
        ensures
            final(self)@ == taken(old(self)@),
            stop == (old(self)@ == StopState::Raised),
    {
        match self.state {
            StopState::Raised => {
                self.state = StopState::Taken;
                true
            },
            _ => false,
        }
    }

    /// Where the signal stands.
    pub fn state(&self) -> (state: StopState)
        ensures
            state == self@,
    {
        self.state
    }
}

/// One use of a stop signal.
pub enum StopUse {
    /// A writer tries to raise the signal.
    Raise,
    /// The consumer looks at the signal.
    Take,
}

/// The state of a signal after the uses `uses`, made in order from `state`.
pub open spec fn stop_state_after(state: StopState, uses: Seq<StopUse>) -> StopState
    decreases uses.len(),
{
    if uses.len() == 0 {
        state
    } else {
        let before = stop_state_after(state, uses.drop_last());
        match uses.last() {
            StopUse::Raise => raised(before),
            StopUse::Take => taken(before),
        }
    }
}

/// How many of the uses `uses`, made in order from `state`, hand a stop to
/// the consumer.
pub open spec fn stops_delivered(state: StopState, uses: Seq<StopUse>) -> nat
    decreases uses.len(),
{
    if uses.len() == 0 {
        0
    } else {
        let before = stop_state_after(state, uses.drop_last());
        let earlier = stops_delivered(state, uses.drop_last());
        match uses.last() {
            StopUse::Take => if before == StopState::Raised {
                earlier + 1
            } else {
                earlier
            },
            StopUse::Raise => earlier,
        }
    }
}

/// However often a stop signal is raised and looked at, it hands at most one
/// stop to its consumer, and none at all once it has been taken.
pub proof fn lemma_stop_delivered_at_most_once(state: StopState, uses: Seq<StopUse>)
    ensures
        stops_delivered(state, uses) <= 1,
        state == StopState::Taken ==> stops_delivered(state, uses) == 0,
        stops_delivered(state, uses) == 1 ==> stop_state_after(state, uses) == StopState::Taken,
        state == StopState::Taken ==> stop_state_after(state, uses) == StopState::Taken,
    decreases uses.len(),
{
    if uses.len() > 0 {
        lemma_stop_delivered_at_most_once(state, uses.drop_last());
    }
}

} // verus!
