//! The updates of a run, one after the other, and the record of those that failed.

use vstd::prelude::*;

use crate::error::failed_updates::Failures;
use crate::error::{FailedUpdates, Failure, Kind};

verus! {

/// A request that is due: it shows or hides the offer `id` on behalf of an update of `kind`.
#[derive(Clone, Copy, Debug, PartialEq, Eq, Hash, Structural)]
pub struct Task {
    /// The update that the request belongs to.
    pub kind: Kind,
    /// The offer.
    pub id: u32,
    /// Whether the request hides the offer; it shows it otherwise.
    pub deactivated: bool,
}

/// The updates of a run in the order in which they are made: all deactivations, then all
/// activations, then all bumps, each list in the order in which it was given.
pub open spec fn plan(deactivate: Seq<u32>, activate: Seq<u32>, bump: Seq<u32>) -> Seq<
    (Kind, u32),
> {
    deactivate.map_values(|id: u32| (Kind::Deactivate, id)) + activate.map_values(
        |id: u32| (Kind::Activate, id),
    ) + bump.map_values(|id: u32| (Kind::Bump, id))
}

/// The state of a run: what is to be done, how far it has come, and what has failed.
pub ghost struct PipelineView {
    /// The updates, in the order in which they are made.
    pub plan: Seq<(Kind, u32)>,
    /// The number of updates that are over.
    pub position: nat,
    /// Whether the update that is due is a bump whose first half went through.
    pub reactivating: bool,
    /// The failures so far.
    pub failed: Failures,
}

impl PipelineView {
    /// The state in which nothing has been done yet.
    pub open spec fn start(plan: Seq<(Kind, u32)>) -> PipelineView {
        PipelineView { plan, position: 0, reactivating: false, failed: Failures::empty() }
    }

    /// What holds of every state that a run can be in.
    pub open spec fn wf(self) -> bool {
        &&& self.position <= self.plan.len()
        &&& self.reactivating ==> {
            &&& self.position < self.plan.len()
            &&& self.plan[self.position as int].0 == Kind::Bump
        }
    }

    /// Whether every update is over.
    pub open spec fn is_done(self) -> bool {
        self.position >= self.plan.len()
    }

    /// The request that is due, if the run is not over. A deactivation hides the offer, an
    /// activation shows it; a bump hides it first, and shows it once that went through.
    pub open spec fn pending(self) -> Option<Task> {
        if self.is_done() {
            None
        } else {
            let (kind, id) = self.plan[self.position as int];
            Some(
                Task {
                    kind,
                    id,
                    deactivated: match kind {
                        Kind::Deactivate => true,
                        Kind::Activate => false,
                        Kind::Bump => !self.reactivating,
                    },
                },
            )
        }
    }

    /// The state with the update that is due over.
    pub open spec fn advance(self) -> PipelineView {
        PipelineView { position: self.position + 1, reactivating: false, ..self }
    }

    /// The state after the request that is due came to `outcome`. On success a bump goes on to
    /// its second half, and any other update is over. On failure the update is over and the
    /// failure is recorded for it; the second half of a bump is then never asked for. Where
    /// nothing is due, nothing changes.
    pub open spec fn record(self, outcome: Result<(), Failure>) -> PipelineView {
        if self.is_done() {
            self
        } else {
            let (kind, id) = self.plan[self.position as int];
            match outcome {
                Ok(_) => if kind == Kind::Bump && !self.reactivating {
                    PipelineView { reactivating: true, ..self }
                } else {
                    self.advance()
                },
                Err(failure) => PipelineView {
                    failed: self.failed.record(kind, id, failure),
                    ..self.advance()
                },
            }
        }
    }

    /// How many requests may still be due at most.
    pub open spec fn remaining(self) -> nat {
        if self.is_done() {
            0
        } else if self.reactivating {
            (2 * (self.plan.len() - self.position) - 1) as nat
        } else {
            (2 * (self.plan.len() - self.position)) as nat
        }
    }

    /// What the run comes to: success if nothing failed, else the failures.
    pub open spec fn result(self) -> Result<(), Failures> {
        if self.failed.is_empty() {
            Ok(())
        } else {
            Err(self.failed)
        }
    }

    /// The state after the requests that are due, one after the other, came to `outcomes`.
    pub open spec fn run(self, outcomes: Seq<Result<(), Failure>>) -> PipelineView
        decreases outcomes.len(),
    {
        if outcomes.len() == 0 {
            self
        } else {
            self.record(outcomes.first()).run(outcomes.drop_first())
        }
    }
}

/// A failure never stops the run: the update that was due is over, the failure is recorded for
/// its kind and offer and for nothing else, and the run stands at the next update.
pub proof fn lemma_failure_is_recorded_once(state: PipelineView, failure: Failure)
    requires
        state.wf(),
        !state.is_done(),
    ensures
        ({
            let task = state.pending()->Some_0;
            let next = state.record(Err(failure));
            &&& next.wf()
            &&& next.plan == state.plan
            &&& next.position == state.position + 1
            &&& !next.reactivating
            &&& next.failed.of(task.kind) == state.failed.of(task.kind).insert(task.id, failure)
            &&& forall|kind: Kind|
                kind != task.kind ==> next.failed.of(kind) == state.failed.of(kind)
        }),
{
}

/// No outcome takes a state out of those that a run can be in, changes what is to be done, or
/// adds to the requests that may still be due; and unless the run is over, it takes one of them
/// away.
pub proof fn lemma_record_goes_on(state: PipelineView, outcome: Result<(), Failure>)
    requires
        state.wf(),
    ensures
        state.record(outcome).wf(),
        state.record(outcome).plan == state.plan,
        state.record(outcome).remaining() <= state.remaining(),
        !state.is_done() ==> state.record(outcome).remaining() < state.remaining(),
{
}

/// No failure aborts a run: whatever comes of the requests, and however many of them fail, the
/// run is over once as many requests as may be due at most have been answered, that is two for
/// each bump that is left and one for any other update; by then every update has had its turn.
pub proof fn lemma_run_is_never_aborted(state: PipelineView, outcomes: Seq<Result<(), Failure>>)
    requires
        state.wf(),
        outcomes.len() >= state.remaining(),
    ensures
        state.run(outcomes).is_done(),
        state.run(outcomes).wf(),
        state.run(outcomes).plan == state.plan,
    decreases outcomes.len(),
{
    if outcomes.len() > 0 {
        lemma_record_goes_on(state, outcomes.first());
        lemma_run_is_never_aborted(state.record(outcomes.first()), outcomes.drop_first());
    }
}

/// A run whose requests all go through records nothing: if nothing had failed before, it comes
/// to success.
pub proof fn lemma_run_without_failure(state: PipelineView, outcomes: Seq<Result<(), Failure>>)
    requires
        forall|i: int| 0 <= i < outcomes.len() ==> (#[trigger] outcomes[i]) is Ok,
    ensures
        state.run(outcomes).failed == state.failed,
    decreases outcomes.len(),
{
    if outcomes.len() > 0 {
        let rest = outcomes.drop_first();
        assert forall|i: int| 0 <= i < rest.len() implies (#[trigger] rest[i]) is Ok by {
            assert(rest[i] == outcomes[i + 1]);
        }
        lemma_run_without_failure(state.record(outcomes.first()), rest);
    }
}

/// A failure that has been recorded for an offer is never lost: whatever follows, a failure
/// stays recorded for that kind and offer.
pub proof fn lemma_failures_are_kept(
    state: PipelineView,
    outcomes: Seq<Result<(), Failure>>,
    kind: Kind,
    id: u32,
)
    requires
        state.failed.of(kind).contains_key(id),
    ensures
        state.run(outcomes).failed.of(kind).contains_key(id),
    decreases outcomes.len(),
{
    if outcomes.len() > 0 {
        lemma_failures_are_kept(state.record(outcomes.first()), outcomes.drop_first(), kind, id);
    }
}

/// A bump asks for exactly two requests, the one that hides the offer first and the one that
/// shows it second, and fails at most once. If the first request fails, the second is never
/// asked for: the failure is recorded and the run stands at the next update. If the first goes
/// through, the second is due, and what comes of it decides the bump.
pub proof fn lemma_bump(
    state: PipelineView,
    first: Result<(), Failure>,
    second: Result<(), Failure>,
)
    requires
        state.wf(),
        !state.is_done(),
        state.plan[state.position as int].0 == Kind::Bump,
        !state.reactivating,
    ensures
        ({
            let id = state.plan[state.position as int].1;
            let halfway = state.record(first);
            let over = halfway.record(second);
            &&& state.pending() == Some(Task { kind: Kind::Bump, id, deactivated: true })
            &&& match first {
                Err(failure) => {
                    &&& halfway.position == state.position + 1
                    &&& !halfway.reactivating
                    &&& halfway.failed == state.failed.record(Kind::Bump, id, failure)
                },
                Ok(_) => {
                    &&& halfway.pending() == Some(
                        Task { kind: Kind::Bump, id, deactivated: false },
                    )
                    &&& halfway.failed == state.failed
                    &&& over.position == state.position + 1
                    &&& !over.reactivating
                    &&& over.failed == match second {
                        Err(failure) => state.failed.record(Kind::Bump, id, failure),
                        Ok(_) => state.failed,
                    }
                },
            }
        }),
{
}

/// Nothing is remembered of an offer between two updates: where the same update of the same
/// offer stands twice in a row and the first goes through, the same request is due again, and
/// when that goes through as well, both are over and nothing has been recorded.
pub proof fn lemma_repeated_update(state: PipelineView)
    requires
        state.wf(),
        state.position + 1 < state.plan.len(),
        state.plan[state.position as int] == state.plan[state.position as int + 1],
        state.plan[state.position as int].0 != Kind::Bump,
    ensures
        state.record(Ok(())).pending() == state.pending(),
        state.record(Ok(())).record(Ok(())).position == state.position + 2,
        state.record(Ok(())).record(Ok(())).failed == state.failed,
{
}

/// The order of a run: the deactivations come first, then the activations, then the bumps,
/// each in the order in which it was given.
pub proof fn lemma_plan_order(deactivate: Seq<u32>, activate: Seq<u32>, bump: Seq<u32>)
    ensures
        plan(deactivate, activate, bump).len() == deactivate.len() + activate.len() + bump.len(),
        forall|i: int|
            0 <= i < deactivate.len() ==> #[trigger] plan(deactivate, activate, bump)[i] == (
                Kind::Deactivate,
                deactivate[i],
            ),
        forall|i: int|
            0 <= i < activate.len() ==> #[trigger] plan(deactivate, activate, bump)[deactivate.len()
                + i] == (Kind::Activate, activate[i]),
        forall|i: int|
            0 <= i < bump.len() ==> #[trigger] plan(deactivate, activate, bump)[deactivate.len()
                + activate.len() + i] == (Kind::Bump, bump[i]),
{
}

/// Drives the updates of a run: it says which request is due, takes what came of it, and never
/// stops at a failure.
#[derive(Debug)]
pub struct Pipeline {
    plan: Vec<(Kind, u32)>,
    position: usize,
    reactivating: bool,
    failed: FailedUpdates,
}

impl View for Pipeline {
    type V = PipelineView;

    closed spec fn view(&self) -> PipelineView {
        PipelineView {
            plan: self.plan@,
            position: self.position as nat,
            reactivating: self.reactivating,
            failed: self.failed@,
        }
    }
}

/// Appends the offers of one list to the plan.
fn extend_plan(plan: &mut Vec<(Kind, u32)>, kind: Kind, ids: &Vec<u32>)
    ensures
        final(plan)@ == old(plan)@ + ids@.map_values(|id: u32| (kind, id)),
{
    let ghost before = plan@;
    let mut i: usize = 0;
    while i < ids.len()
        invariant
            i <= ids.len(),
            plan@ == before + ids@.take(i as int).map_values(|id: u32| (kind, id)),
        decreases ids.len() - i,
    {
        plan.push((kind, ids[i]));
        i = i + 1;
        assert(plan@ =~= before + ids@.take(i as int).map_values(|id: u32| (kind, id)));
    }
    assert(ids@.take(i as int) =~= ids@);
}

impl Pipeline {
    /// A run that deactivates, activates and bumps the given offers, in this order, with
    /// nothing done yet.
    pub fn new(deactivate: &Vec<u32>, activate: &Vec<u32>, bump: &Vec<u32>) -> (pipeline: Self)
        ensures
            pipeline@ == PipelineView::start(plan(deactivate@, activate@, bump@)),
            pipeline@.wf(),
    {
        let mut plan: Vec<(Kind, u32)> = Vec::new();
        extend_plan(&mut plan, Kind::Deactivate, deactivate);
        extend_plan(&mut plan, Kind::Activate, activate);
        extend_plan(&mut plan, Kind::Bump, bump);
        assert(plan@ =~= self::plan(deactivate@, activate@, bump@));
        Pipeline { plan, position: 0, reactivating: false, failed: FailedUpdates::new() }
    }

    /// Whether every update is over.
    pub fn is_done(&self) -> (done: bool)
        ensures
            done == self@.is_done(),
    {
        self.position >= self.plan.len()
    }

    /// The request that is due, if the run is not over.
    pub fn pending(&self) -> (task: Option<Task>)
        ensures
            task == self@.pending(),
    {
        if self.position >= self.plan.len() {
            return None;
        }
        let (kind, id) = self.plan[self.position];
        let deactivated = match kind {
            Kind::Deactivate => true,
            Kind::Activate => false,
            Kind::Bump => !self.reactivating,
        };
        Some(Task { kind, id, deactivated })
    }

    /// Takes what came of the request that was due, and goes on to the next.
    pub fn record(&mut self, outcome: Result<(), Failure>)
        ensures
            final(self)@ == old(self)@.record(outcome),
            old(self)@.wf() ==> final(self)@.wf(),
    {
        if self.position >= self.plan.len() {
            return ;
        }
        let (kind, id) = self.plan[self.position];
        match outcome {
            Ok(_) => {
                if kind == Kind::Bump && !self.reactivating {
                    self.reactivating = true;
                } else {
                    self.position = self.position + 1;
                    self.reactivating = false;
                }
            },
            Err(failure) => {
                self.failed.record(kind, id, failure);
                self.position = self.position + 1;
                self.reactivating = false;
            },
        }
    }

    /// The failures so far.
    pub fn failed(&self) -> (failed: &FailedUpdates)
        ensures
            failed@ == self@.failed,
    {
        &self.failed
    }

    /// What the run comes to: success if nothing failed, else the failures.
    pub fn into_result(self) -> (result: Result<(), FailedUpdates>)
        ensures
            match self@.result() {
                Ok(_) => result is Ok,
                Err(failed) => result is Err && result->Err_0@ == failed,
            },
    {
        if self.failed.is_empty() {
            Ok(())
        } else {
            Err(self.failed)
        }
    }
}

} // verus!
