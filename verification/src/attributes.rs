//! The first step of the cleanup: owner and group of the downloaded files.
//!
//! The caller lists the output directory and says of each entry whether it
//! is a regular file. From that the plan of changes is made here, and the
//! pass over the plan is tracked here: it stops at the first change that
//! fails.

use crate::runner::TaskError;
use vstd::prelude::*;

verus! {

/// What is set on a file.
#[derive(Debug, Clone, Copy, PartialEq, Eq, Structural)]
pub enum Attribute {
    Owner,
    Group,
}

/// One change to make: `attribute` is to be set on the entry that stands at
/// position `entry` of the directory listing.
#[derive(Debug, Clone, Copy, PartialEq, Eq, Structural)]
pub struct AttributeChange {
    pub entry: usize,
    pub attribute: Attribute,
}

/// The failure that a failed change of `attribute` stands for.
pub open spec fn error_of(attribute: Attribute) -> TaskError {
    match attribute {
        Attribute::Owner => TaskError::SetOwner,
        Attribute::Group => TaskError::SetGroup,
    }
}

/// The changes for the entry at position `entry`: none unless it is a
/// regular file; else the owner, if one is configured, and then the group,
/// if one is configured.
pub open spec fn changes_for(entry: usize, is_file: bool, owner: bool, group: bool) -> Seq<
    AttributeChange,
> {
    let for_owner = if is_file && owner {
        seq![AttributeChange { entry, attribute: Attribute::Owner }]
    } else {
        Seq::empty()
    };
    let for_group = if is_file && group {
        seq![AttributeChange { entry, attribute: Attribute::Group }]
    } else {
        Seq::empty()
    };
    for_owner + for_group
}

/// The changes for a whole listing, entry after entry in the order of the
/// listing. `files` says of each entry whether it is a regular file.
pub open spec fn planned_changes(files: Seq<bool>, owner: bool, group: bool) -> Seq<
    AttributeChange,
>
    decreases files.len(),
{
    if files.len() == 0 {
        Seq::empty()
    } else {
        planned_changes(files.drop_last(), owner, group) + changes_for(
            (files.len() - 1) as usize,
            files.last(),
            owner,
            group,
        )
    }
}

/// A change is planned if and only if its entry is a regular file of the
/// listing and its attribute is configured.
pub proof fn lemma_planned_changes_contain(
    files: Seq<bool>,
    owner: bool,
    group: bool,
    change: AttributeChange,
)
    requires
        files.len() <= usize::MAX,
    ensures
        planned_changes(files, owner, group).contains(change) <==> (change.entry < files.len()
            && files[change.entry as int] && match change.attribute {
            Attribute::Owner => owner,
            Attribute::Group => group,
        }),
    decreases files.len(),
{
    if files.len() > 0 {
        let front = files.drop_last();
        let last = (files.len() - 1) as usize;
        let head = planned_changes(front, owner, group);
        let tail = changes_for(last, files.last(), owner, group);
        lemma_planned_changes_contain(front, owner, group, change);
        if head.contains(change) {
            let i = choose|i: int| 0 <= i < head.len() && head[i] == change;
            assert((head + tail)[i] == change);
        }
        if tail.contains(change) {
            let i = choose|i: int| 0 <= i < tail.len() && tail[i] == change;
            assert((head + tail)[head.len() + i] == change);
        }
        if (head + tail).contains(change) {
            let i = choose|i: int| 0 <= i < (head + tail).len() && (head + tail)[i] == change;
            if i < head.len() {
                assert(head[i] == change);
            } else {
                assert(tail[i - head.len()] == change);
            }
        }
        if files.last() && owner {
            assert(tail[0] == AttributeChange { entry: last, attribute: Attribute::Owner });
        }
        if files.last() && group {
            assert(tail.last() == AttributeChange { entry: last, attribute: Attribute::Group });
        }
    }
}

/// Nothing is changed where neither an owner nor a group is configured.
pub proof fn lemma_nothing_planned_without_owner_and_group(files: Seq<bool>)
    ensures
        planned_changes(files, false, false) == Seq::<AttributeChange>::empty(),
    decreases files.len(),
{
    if files.len() > 0 {
        lemma_nothing_planned_without_owner_and_group(files.drop_last());
    }
}

/// Plans the changes for a listing. `files` says of each entry whether it
/// is a regular file; an owner is set where `set_owner` holds one, a group
/// where `set_group` holds one.
pub fn plan_changes(
    files: &Vec<bool>,
    set_owner: &Option<String>,
    set_group: &Option<String>,
) -> (plan: Vec<AttributeChange>)
    ensures
        plan@ == planned_changes(files@, set_owner is Some, set_group is Some),
{
    let owner = set_owner.is_some();
    let group = set_group.is_some();
    let mut plan: Vec<AttributeChange> = Vec::new();
    let mut i: usize = 0;
    while i < files.len()
        invariant
            i <= files.len(),
            owner == (set_owner is Some),
            group == (set_group is Some),
            plan@ == planned_changes(files@.take(i as int), owner, group),
        decreases files.len() - i,
    {
        if files[i] {
            if owner {
                plan.push(AttributeChange { entry: i, attribute: Attribute::Owner });
            }
            if group {
                plan.push(AttributeChange { entry: i, attribute: Attribute::Group });
            }
        }
        assert(files@.take(i + 1).drop_last() =~= files@.take(i as int));
        i = i + 1;
    }
    assert(files@.take(i as int) =~= files@);
    plan
}

/// The mathematical model of an `AttributePass`.
pub struct PassState {
    /// The changes to make, in order.
    pub plan: Seq<AttributeChange>,
    /// How many of them were made.
    pub done: nat,
    /// The failure that ended the pass.
    pub failure: Option<TaskError>,
}

/// The change that is to be made next, if the pass is not over.
pub open spec fn pending_change(pass: PassState) -> Option<AttributeChange> {
    if pass.failure is None && pass.done < pass.plan.len() {
        Some(pass.plan[pass.done as int])
    } else {
        None
    }
}

/// The pass after the pending change was tried and `ok` says whether it
/// succeeded: a success leads on to the next change, a failure ends the
/// pass. A pass that is over stays as it is.
pub open spec fn change_recorded(pass: PassState, ok: bool) -> PassState {
    match pending_change(pass) {
        None => pass,
        Some(change) => if ok {
            PassState { done: pass.done + 1, ..pass }
        } else {
            PassState { failure: Some(error_of(change.attribute)), ..pass }
        },
    }
}

/// A pass over the planned changes of one output directory.
#[derive(Debug)]
pub struct AttributePass {
    plan: Vec<AttributeChange>,
    done: usize,
    failure: Option<TaskError>,
}

impl View for AttributePass {
    type V = PassState;

    closed spec fn view(&self) -> PassState {
        PassState { plan: self.plan@, done: self.done as nat, failure: self.failure }
    }
}

impl AttributePass {
    /// No more changes are made than were planned.
    #[verifier::type_invariant]
    spec fn within_plan(self) -> bool {
        self.done <= self.plan.len()
    }

    /// The pass over a directory that was listed. `files` says of each entry
    /// whether it is a regular file.
    pub fn new(files: &Vec<bool>, set_owner: &Option<String>, set_group: &Option<String>) -> (pass:
        AttributePass)
        ensures
            pass@ == (PassState {
                plan: planned_changes(files@, set_owner is Some, set_group is Some),
                done: 0,
                failure: None,
            }),
    {
        AttributePass { plan: plan_changes(files, set_owner, set_group), done: 0, failure: None }
    }

    /// The pass over a directory that could not be listed: it is over before
    /// it began.
    pub fn unlisted() -> (pass: AttributePass)
        ensures
            pass@ == (PassState {
                plan: Seq::empty(),
                done: 0,
                failure: Some(TaskError::ListOutputDir),
            }),
    {
        AttributePass { plan: Vec::new(), done: 0, failure: Some(TaskError::ListOutputDir) }
    }

    /// The change to make next, or `None` when the pass is over.
    pub fn next_change(&self) -> (change: Option<AttributeChange>)
        ensures
            change == pending_change(self@),
    {
        if self.failure.is_none() && self.done < self.plan.len() {
            Some(self.plan[self.done])
        } else {
            None
        }
    }

    /// Records whether the change that `next_change` gave succeeded.
    pub fn record(&mut self, ok: bool)
        ensures
            final(self)@ == change_recorded(old(self)@, ok),
    {
        if self.failure.is_none() && self.done < self.plan.len() {
            if ok {
                self.done = self.done + 1;
            } else {
                self.failure = Some(
                    match self.plan[self.done].attribute {
                        Attribute::Owner => TaskError::SetOwner,
                        Attribute::Group => TaskError::SetGroup,
                    },
                );
            }
        }
    }

    /// How many changes were made.
    pub fn changes_made(&self) -> (count: usize)
        ensures
            count == self@.done,
            count <= self@.plan.len(),
    {
        proof {
            use_type_invariant(self);
        }
        self.done
    }

    /// The failure that ended the pass, or `None` if none did.
    pub fn failure(&self) -> (failure: Option<TaskError>)
        ensures
            failure == self@.failure,
    {
        self.failure
    }
}

/// The pass after the results `results` were recorded in order.
pub open spec fn pass_after(pass: PassState, results: Seq<bool>) -> PassState
    decreases results.len(),
{
    if results.len() == 0 {
        pass
    } else {
        change_recorded(pass_after(pass, results.drop_last()), results.last())
    }
}

/// A pass in which every change succeeds makes the changes one by one in
/// the order of the plan and ends without a failure.
pub proof fn lemma_pass_makes_every_change(plan: Seq<AttributeChange>, count: nat)
    requires
        count <= plan.len(),
    ensures
        pass_after(PassState { plan, done: 0, failure: None }, Seq::new(count, |i: int| true))
            == (PassState { plan, done: count, failure: None }),
    decreases count,
{
    let results = Seq::new(count, |i: int| true);
    if count > 0 {
        let fewer = (count - 1) as nat;
        lemma_pass_makes_every_change(plan, fewer);
        assert(results.drop_last() =~= Seq::new(fewer, |i: int| true));
    }
}

/// The first change that fails ends the pass: its failure is reported and
/// whatever is recorded afterwards changes nothing.
pub proof fn lemma_pass_stops_at_first_failure(pass: PassState, later: Seq<bool>)
    requires
        pending_change(pass) is Some,
    ensures
        pass_after(change_recorded(pass, false), later) == change_recorded(pass, false),
        change_recorded(pass, false).failure == Some(error_of(pending_change(pass)->0.attribute)),
        pending_change(change_recorded(pass, false)) is None,
    decreases later.len(),
{
    if later.len() > 0 {
        lemma_pass_stops_at_first_failure(pass, later.drop_last());
    }
}

} // verus!
