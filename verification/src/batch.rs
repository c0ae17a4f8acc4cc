//! One pass over all tasks: each task once, in the configured order, one
//! after the other. A task that fails does not end the pass.

use crate::runner::TaskError;
use vstd::prelude::*;

verus! {

/// The mathematical model of a `TaskBatch`.
pub struct BatchState {
    /// How many tasks the pass covers.
    pub total: nat,
    /// How many of them were attempted.
    pub attempted: nat,
}

/// The position of the task to run next, or `None` when every task was
/// attempted.
pub open spec fn next_of(batch: BatchState) -> Option<nat> {
    if batch.attempted < batch.total {
        Some(batch.attempted)
    } else {
        None
    }
}

/// The pass after the outcome of the task it was waiting for came in: the
/// task counts as attempted whatever its outcome. A pass that is over stays
/// as it is.
pub open spec fn outcome_recorded(batch: BatchState) -> BatchState {
    if batch.attempted < batch.total {
        BatchState { attempted: batch.attempted + 1, ..batch }
    } else {
        batch
    }
}

/// The failure to write to the log for `outcome`, if it is one that was
/// awaited.
pub open spec fn failure_to_log(batch: BatchState, outcome: Result<(), TaskError>) -> Option<
    TaskError,
> {
    match outcome {
        Err(error) => if batch.attempted < batch.total {
            Some(error)
        } else {
            None
        },
        Ok(_) => None,
    }
}

/// One pass over the tasks.
#[derive(Debug)]
pub struct TaskBatch {
    total: usize,
    attempted: usize,
}

impl View for TaskBatch {
    type V = BatchState;

    closed spec fn view(&self) -> BatchState {
        BatchState { total: self.total as nat, attempted: self.attempted as nat }
    }
}

impl TaskBatch {
    /// No more tasks are attempted than the pass covers.
    #[verifier::type_invariant]
    spec fn within_total(self) -> bool {
        self.attempted <= self.total
    }

    /// A pass over `total` tasks, none of them attempted yet.
    pub fn new(total: usize) -> (batch: TaskBatch)
        ensures
            batch@ == (BatchState { total: total as nat, attempted: 0 }),
    {
        TaskBatch { total, attempted: 0 }
    }

    /// The position, in the configured order, of the task to run next, or
    /// `None` when every task was attempted.
    pub fn next_task(&self) -> (next: Option<usize>)
        ensures
            next is Some <==> next_of(self@) is Some,
            next matches Some(position) ==> next_of(self@) == Some(position as nat),
    {
        if self.attempted < self.total {
            Some(self.attempted)
        } else {
            None
        }
    }

    /// Takes in the outcome of the task that `next_task` gave and moves on to
    /// the next one. Returns the failure to write to the log, if the task
    /// failed.
    pub fn record(&mut self, outcome: Result<(), TaskError>) -> (failure: Option<TaskError>)
        ensures
            final(self)@ == outcome_recorded(old(self)@),
            failure == failure_to_log(old(self)@, outcome),
    {
        if self.attempted < self.total {
            self.attempted = self.attempted + 1;
            match outcome {
                Err(error) => Some(error),
                Ok(_) => None,
            }
        } else {
            None
        }
    }

    /// How many tasks were attempted, failed or not.
    pub fn attempted(&self) -> (count: usize)
        ensures
            count == self@.attempted,
            count <= self@.total,
    {
        proof {
            use_type_invariant(self);
        }
        self.attempted
    }

    /// How many tasks the pass covers.
    pub fn total(&self) -> (count: usize)
        ensures
            count == self@.total,
    {
        self.total
    }

    /// Whether every task was attempted.
    pub fn is_complete(&self) -> (complete: bool)
        ensures
            complete == (next_of(self@) is None),
    {
        self.attempted >= self.total
    }
}

/// The pass after `count` outcomes were recorded.
pub open spec fn batch_after(batch: BatchState, count: nat) -> BatchState
    decreases count,
{
    if count == 0 {
        batch
    } else {
        outcome_recorded(batch_after(batch, (count - 1) as nat))
    }
}

/// A pass runs the tasks in the configured order, each exactly once, and
/// no outcome ends it early: after `count` outcomes, whatever they were,
/// the task at position `count` is next, and after as many outcomes as
/// there are tasks the pass is complete with every task attempted.
pub proof fn lemma_batch_runs_each_task_once_in_order(total: nat, count: nat)
    requires
        count <= total,
    ensures
        batch_after(BatchState { total, attempted: 0 }, count) == (BatchState {
            total,
            attempted: count,
        }),
        count < total ==> next_of(batch_after(BatchState { total, attempted: 0 }, count)) == Some(
            count,
        ),
        next_of(batch_after(BatchState { total, attempted: 0 }, total)) is None,
{
    lemma_batch_after(total, count);
    lemma_batch_after(total, total);
}

proof fn lemma_batch_after(total: nat, count: nat)
    requires
        count <= total,
    ensures
        batch_after(BatchState { total, attempted: 0 }, count) == (BatchState {
            total,
            attempted: count,
        }),
    decreases count,
{
    if count > 0 {
        lemma_batch_after(total, (count - 1) as nat);
    }
}

} // verus!
