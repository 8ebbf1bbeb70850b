//! All entities' values of one registered type, and the per-tick steps over them that the
//! host runs in order around its game logic, once per registered type where a step names one:
//!
//! 1. `check_rollback_progress`, then `Timewarp::complete_rollback`;
//! 2. `apply_snapshots`, then `Timewarp::consolidate` and `Timewarp::start_rollback`, and
//!    `restore_all` at the frame the latter returns;
//! 3. the game logic, which advances the clock and changes live values;
//! 4. `record_all`, then `despawn` for entities newly marked for despawn, and
//!    `process_despawn_marker` for every marker.
//!
//! A tick of the host repeats these frames while a rollback is under way.
use vstd::prelude::*;

use crate::entity::{
    InsertComponentAtFrame, InsertComponentResult, RollbackEntity, SnapshotOutcome,
    TimewarpCorrection,
};
use crate::error::TimewarpError;
use crate::resources::RollbackRequest;
use crate::timewarp::{increment, incremented, Timewarp};
use crate::FrameNumber;

verus! {

/// The rollback requests among `outcomes`, in order.
pub open spec fn requests_of(outcomes: Seq<SnapshotOutcome>) -> Seq<RollbackRequest>
    decreases outcomes.len(),
{
    if outcomes.len() == 0 {
        Seq::empty()
    } else {
        let rest = requests_of(outcomes.drop_last());
        match outcomes.last() {
            SnapshotOutcome::Resimulate(r) => rest.push(r),
            _ => rest,
        }
    }
}

/// How many of `outcomes` are `o`.
pub open spec fn count_of(outcomes: Seq<SnapshotOutcome>, o: SnapshotOutcome) -> nat
    decreases outcomes.len(),
{
    if outcomes.len() == 0 {
        0
    } else {
        count_of(outcomes.drop_last(), o) + if outcomes.last() == o {
            1nat
        } else {
            0nat
        }
    }
}

/// `n + k`, saturating at the largest `u64`.
pub open spec fn bumped(n: u64, k: nat) -> u64 {
    if n + k > u64::MAX {
        u64::MAX
    } else {
        (n + k) as u64
    }
}

/// Every entity of one registered type.
pub struct RollbackComponents<T> {
    pub entities: Vec<RollbackEntity<T>>,
    /// Whether histories created for this type record corrections.
    pub correction_logging: bool,
}

impl<T: Clone + PartialEq> RollbackComponents<T> {
    pub open spec fn wf(&self) -> bool {
        forall|i: int| 0 <= i < self.entities@.len() ==> (#[trigger] self.entities@[i]).wf()
    }

    /// What `apply_snapshots` does when no rollback is under way, with `outcomes` the outcome
    /// for each entity.
    pub open spec fn snapshots_applied(
        before: Self,
        after: Self,
        tw_before: Timewarp,
        tw_after: Timewarp,
        outcomes: Seq<SnapshotOutcome>,
    ) -> bool {
        &&& outcomes.len() == before.entities@.len()
        &&& forall|j: int|
            0 <= j < outcomes.len() ==> #[trigger] RollbackEntity::snapshot_applied(
                before.entities@[j],
                after.entities@[j],
                tw_before.clock.spec_frame(),
                tw_before.config.force_rollback_always,
                outcomes[j],
            )
        &&& tw_after.requests@ == tw_before.requests@ + requests_of(outcomes)
        &&& tw_after.stats.range_faults == bumped(
            tw_before.stats.range_faults,
            count_of(outcomes, SnapshotOutcome::RangeFault),
        )
        &&& tw_after.stats.non_rollback_updates == bumped(
            tw_before.stats.non_rollback_updates,
            count_of(outcomes, SnapshotOutcome::AppliedNow),
        )
        &&& tw_after.stats.num_rollbacks == tw_before.stats.num_rollbacks
        &&& tw_after.stats.aborted_rollbacks == tw_before.stats.aborted_rollbacks
        &&& tw_after.config == tw_before.config
        &&& tw_after.clock == tw_before.clock
        &&& tw_after.rollback == tw_before.rollback
        &&& tw_after.previous_rollback == tw_before.previous_rollback
        &&& tw_after.timestep == tw_before.timestep
    }

    pub fn new(correction_logging: bool) -> (r: Self)
        ensures
            r.wf(),
            r.entities@.len() == 0,
            r.correction_logging == correction_logging,
    {
        RollbackComponents { entities: Vec::new(), correction_logging }
    }

    /// Adds an entity whose value was just inserted in the live world; returns its index.
    pub fn spawn(&mut self, value: T) -> (id: usize)
        requires
            old(self).wf(),
        ensures
            final(self).wf(),
            id == old(self).entities@.len(),
            final(self).entities@.len() == old(self).entities@.len() + 1,
            forall|j: int| 0 <= j < id ==> final(self).entities@[j] == old(self).entities@[j],
            final(self).entities@[id as int].live == Some(value),
            final(self).entities@[id as int].history is None,
            final(self).entities@[id as int].snapshot is None,
            final(self).entities@[id as int].added,
            final(self).correction_logging == old(self).correction_logging,
    {
        let id = self.entities.len();
        self.entities.push(RollbackEntity::spawned(value));
        id
    }

    /// The live value of entity `id`.
    pub fn live(&self, id: usize) -> (r: Option<&T>)
        requires
            id < self.entities@.len(),
        ensures
            match r {
                Some(v) => self.entities@[id as int].live == Some(*v),
                None => self.entities@[id as int].live is None,
            },
    {
        self.entities[id].live.as_ref()
    }

    /// The value recorded for entity `id` at `frame`.
    pub fn value_at(&self, id: usize, frame: FrameNumber) -> (r: Option<&T>)
        requires
            self.wf(),
            id < self.entities@.len(),
        ensures
            match r {
                Some(v) => self.entities@[id as int].history matches Some(h) && h.spec_at(
                    frame as int,
                ) == Some(*v),
                None => self.entities@[id as int].history matches Some(h) ==> h.spec_at(
                    frame as int,
                ).is_none(),
            },
    {
        self.entities[id].value_at(frame)
    }

    /// The latest correction recorded for entity `id`.
    pub fn correction(&self, id: usize) -> (r: Option<&TimewarpCorrection<T>>)
        requires
            id < self.entities@.len(),
        ensures
            match r {
                Some(c) => self.entities@[id as int].correction == Some(*c),
                None => self.entities@[id as int].correction is None,
            },
    {
        self.entities[id].correction.as_ref()
    }

    /// Replaces the live value of entity `id`, as game logic does.
    pub fn set_live(&mut self, id: usize, value: Option<T>)
        requires
            old(self).wf(),
            id < old(self).entities@.len(),
        ensures
            final(self).wf(),
            final(self).entities@.len() == old(self).entities@.len(),
            forall|j: int|
                0 <= j < old(self).entities@.len() && j != id ==> final(self).entities@[j]
                    == old(self).entities@[j],
            final(self).entities@[id as int].live == value,
            final(self).entities@[id as int].history == old(self).entities@[id as int].history,
            final(self).entities@[id as int].snapshot == old(self).entities@[id as int].snapshot,
            final(self).correction_logging == old(self).correction_logging,
    {
        self.entities[id].set_live(value);
    }

    /// Writes the authoritative value of `icaf` for entity `id` at its frame; when that creates
    /// the entity's buffers for a past frame, the rollback it needs is requested at once.
    pub fn insert_component_at_frame(
        &mut self,
        id: usize,
        icaf: InsertComponentAtFrame<T>,
        tw: &mut Timewarp,
    ) -> (r: Result<InsertComponentResult, TimewarpError>)
        requires
            old(self).wf(),
            id < old(self).entities@.len(),
        ensures
            final(self).wf(),
            final(self).entities@.len() == old(self).entities@.len(),
            forall|j: int|
                0 <= j < old(self).entities@.len() && j != id ==> final(self).entities@[j]
                    == old(self).entities@[j],
            exists|req: Result<(InsertComponentResult, Option<RollbackRequest>), TimewarpError>|
                {
                    &&& RollbackEntity::component_inserted(
                        old(self).entities@[id as int],
                        final(self).entities@[id as int],
                        icaf.frame,
                        icaf.component,
                        old(tw).clock.spec_frame(),
                        old(tw).config.rollback_window,
                        old(self).correction_logging,
                        req,
                    )
                    &&& r == match req {
                        Ok(x) => Ok::<InsertComponentResult, TimewarpError>(x.0),
                        Err(e) => Err(e),
                    }
                    &&& final(tw).requests@ == match req {
                        Ok(x) => match x.1 {
                            Some(q) => old(tw).requests@.push(q),
                            None => old(tw).requests@,
                        },
                        Err(_) => old(tw).requests@,
                    }
                },
            final(tw).config == old(tw).config,
            final(tw).clock == old(tw).clock,
            final(tw).rollback == old(tw).rollback,
            final(tw).previous_rollback == old(tw).previous_rollback,
            final(tw).stats == old(tw).stats,
            final(tw).timestep == old(tw).timestep,
            final(self).correction_logging == old(self).correction_logging,
    {
        let res = self.entities[id].insert_component_at_frame(
            icaf.frame,
            icaf.component,
            tw.clock.frame(),
            tw.config.rollback_window,
            self.correction_logging,
        );
        match res {
            Ok((kind, request)) => {
                if let Some(q) = request {
                    tw.request_rollback(q);
                }
                Ok(kind)
            },
            Err(e) => Err(e),
        }
    }

    /// Removes the live value of entity `id`, marked for despawn at `frame`.
    pub fn despawn(&mut self, id: usize, frame: FrameNumber)
        requires
            old(self).wf(),
            id < old(self).entities@.len(),
        ensures
            final(self).wf(),
            final(self).entities@.len() == old(self).entities@.len(),
            forall|j: int|
                0 <= j < old(self).entities@.len() && j != id ==> final(self).entities@[j]
                    == old(self).entities@[j],
            RollbackEntity::despawn_removed(
                old(self).entities@[id as int],
                final(self).entities@[id as int],
                frame,
            ),
            final(self).correction_logging == old(self).correction_logging,
    {
        self.entities[id].despawn_remove(frame);
    }

    /// Whether every history holds what a restore at `frame` needs (see
    /// `RollbackEntity::restore`). A host that finds it does not must fail loudly: the
    /// retained window was too short for the rollback.
    pub fn can_restore_all(&self, frame: FrameNumber) -> (r: bool)
        requires
            self.wf(),
        ensures
            r == forall|j: int|
                0 <= j < self.entities@.len() ==> (#[trigger] self.entities@[j]).restore_consistent(
                    frame,
                ),
    {
        let mut i: usize = 0;
        while i < self.entities.len()
            invariant
                i <= self.entities@.len(),
                self.wf(),
                forall|j: int| 0 <= j < i ==> (#[trigger] self.entities@[j]).restore_consistent(frame),
            decreases self.entities@.len() - i,
        {
            if !self.entities[i].can_restore(frame) {
                return false;
            }
            i = i + 1;
        }
        true
    }

    /// Restores every entity's value for `frame`.
    pub fn restore_all(&mut self, frame: FrameNumber)
        requires
            old(self).wf(),
            forall|j: int|
                0 <= j < old(self).entities@.len() ==> (#[trigger] old(
                    self,
                ).entities@[j]).restore_consistent(frame),
        ensures
            final(self).wf(),
            final(self).entities@.len() == old(self).entities@.len(),
            forall|j: int|
                0 <= j < old(self).entities@.len() ==> #[trigger] RollbackEntity::restored(
                    old(self).entities@[j],
                    final(self).entities@[j],
                    frame,
                ),
            final(self).correction_logging == old(self).correction_logging,
    {
        let ghost before = self.entities@;
        let mut i: usize = 0;
        while i < self.entities.len()
            invariant
                i <= self.entities@.len(),
                self.entities@.len() == before.len(),
                self.correction_logging == old(self).correction_logging,
                before == old(self).entities@,
                forall|j: int| 0 <= j < before.len() ==> (#[trigger] before[j]).wf(),
                forall|j: int| 0 <= j < before.len() ==> (#[trigger] before[j]).restore_consistent(frame),
                forall|j: int| 0 <= j < self.entities@.len() ==> (#[trigger] self.entities@[j]).wf(),
                forall|j: int|
                    0 <= j < i ==> #[trigger] RollbackEntity::restored(
                        before[j],
                        self.entities@[j],
                        frame,
                    ),
                forall|j: int| i <= j < before.len() ==> self.entities@[j] == before[j],
            decreases before.len() - i,
        {
            assert(self.entities@[i as int] == before[i as int]);
            assert(before[i as int].restore_consistent(frame));
            self.entities[i].restore(frame);
            i = i + 1;
        }
    }

    /// Outside a rollback, takes removals of live values into account: the value died at the
    /// current frame. During a rollback, restores every entity's value for the current frame,
    /// which revives and re-removes values as the alive ranges say (removal notices of the
    /// replay were dropped by `record_all`).
    pub fn check_rollback_progress(&mut self, tw: &Timewarp)
        requires
            old(self).wf(),
            tw.rollback is Some ==> forall|j: int|
                0 <= j < old(self).entities@.len() ==> (#[trigger] old(
                    self,
                ).entities@[j]).restore_consistent(tw.clock.spec_frame()),
        ensures
            final(self).wf(),
            final(self).entities@.len() == old(self).entities@.len(),
            final(self).correction_logging == old(self).correction_logging,
            tw.rollback is Some ==> forall|j: int|
                0 <= j < old(self).entities@.len() ==> #[trigger] RollbackEntity::restored(
                    old(self).entities@[j],
                    final(self).entities@[j],
                    tw.clock.spec_frame(),
                ),
            tw.rollback is None ==> forall|j: int|
                0 <= j < old(self).entities@.len() ==> #[trigger] RollbackEntity::removal_noted(
                    old(self).entities@[j],
                    final(self).entities@[j],
                    tw.clock.spec_frame(),
                ),
    {
        let frame = tw.clock.frame();
        if tw.rollback.is_some() {
            self.restore_all(frame);
            return ;
        }
        let ghost before = self.entities@;
        let mut i: usize = 0;
        while i < self.entities.len()
            invariant
                i <= self.entities@.len(),
                self.entities@.len() == before.len(),
                self.correction_logging == old(self).correction_logging,
                before == old(self).entities@,
                frame == tw.clock.spec_frame(),
                forall|j: int| 0 <= j < before.len() ==> (#[trigger] before[j]).wf(),
                forall|j: int| 0 <= j < self.entities@.len() ==> (#[trigger] self.entities@[j]).wf(),
                forall|j: int|
                    0 <= j < i ==> #[trigger] RollbackEntity::removal_noted(
                        before[j],
                        self.entities@[j],
                        frame,
                    ),
                forall|j: int| i <= j < before.len() ==> self.entities@[j] == before[j],
            decreases before.len() - i,
        {
            self.entities[i].note_removal(frame);
            i = i + 1;
        }
    }

    /// Applies each entity's newest authoritative value, outside a rollback: raises the
    /// rollbacks they call for and counts range faults and values applied on time. During a
    /// rollback nothing changes.
    pub fn apply_snapshots(&mut self, tw: &mut Timewarp)
        requires
            old(self).wf(),
        ensures
            final(self).wf(),
            final(self).entities@.len() == old(self).entities@.len(),
            final(self).correction_logging == old(self).correction_logging,
            old(tw).rollback is Some ==> final(self).entities@ == old(self).entities@ && *final(tw)
                == *old(tw),
            old(tw).rollback is None ==> exists|outcomes: Seq<SnapshotOutcome>|
                #[trigger] Self::snapshots_applied(
                    *old(self),
                    *final(self),
                    *old(tw),
                    *final(tw),
                    outcomes,
                ),
    {
        if tw.rollback.is_some() {
            return ;
        }
        let ghost before = *self;
        let ghost tw0 = *tw;
        let ghost mut outcomes: Seq<SnapshotOutcome> = Seq::empty();
        let current = tw.clock.frame();
        let forced = tw.config.force_rollback_always;
        let mut i: usize = 0;
        while i < self.entities.len()
            invariant
                i <= self.entities@.len(),
                self.entities@.len() == before.entities@.len(),
                self.correction_logging == before.correction_logging,
                before == *old(self),
                tw0 == *old(tw),
                current == tw0.clock.spec_frame(),
                forced == tw0.config.force_rollback_always,
                outcomes.len() == i,
                forall|j: int| 0 <= j < before.entities@.len() ==> (#[trigger] before.entities@[j]).wf(),
                forall|j: int| 0 <= j < self.entities@.len() ==> (#[trigger] self.entities@[j]).wf(),
                forall|j: int|
                    0 <= j < i ==> #[trigger] RollbackEntity::snapshot_applied(
                        before.entities@[j],
                        self.entities@[j],
                        current,
                        forced,
                        outcomes[j],
                    ),
                forall|j: int| i <= j < before.entities@.len() ==> self.entities@[j] == before.entities@[j],
                tw.requests@ == tw0.requests@ + requests_of(outcomes),
                tw.stats.range_faults == bumped(
                    tw0.stats.range_faults,
                    count_of(outcomes, SnapshotOutcome::RangeFault),
                ),
                tw.stats.non_rollback_updates == bumped(
                    tw0.stats.non_rollback_updates,
                    count_of(outcomes, SnapshotOutcome::AppliedNow),
                ),
                tw.stats.num_rollbacks == tw0.stats.num_rollbacks,
                tw.stats.aborted_rollbacks == tw0.stats.aborted_rollbacks,
                tw.config == tw0.config,
                tw.clock == tw0.clock,
                tw.rollback == tw0.rollback,
                tw.previous_rollback == tw0.previous_rollback,
                tw.timestep == tw0.timestep,
            decreases before.entities@.len() - i,
        {
            let o = self.entities[i].apply_snapshot(current, forced);
            match o {
                SnapshotOutcome::RangeFault => {
                    tw.stats.range_faults = increment(tw.stats.range_faults);
                },
                SnapshotOutcome::AppliedNow => {
                    tw.stats.non_rollback_updates = increment(tw.stats.non_rollback_updates);
                },
                SnapshotOutcome::Resimulate(q) => {
                    tw.request_rollback(q);
                },
                _ => {},
            }
            proof {
                let prev = outcomes;
                outcomes = outcomes.push(o);
                assert(outcomes.drop_last() =~= prev);
                assert(outcomes[i as int] == o);
                assert(tw.requests@ =~= tw0.requests@ + requests_of(outcomes));
            }
            i = i + 1;
        }
        proof {
            assert(Self::snapshots_applied(before, *self, tw0, *tw, outcomes));
        }
    }

    /// Records every entity's live value as simulated for the current frame (see
    /// `RollbackEntity::record`); the result says, per entity, whether a correction was kept.
    pub fn record_all(&mut self, tw: &Timewarp) -> (corrected: Vec<bool>)
        requires
            old(self).wf(),
        ensures
            final(self).wf(),
            final(self).entities@.len() == old(self).entities@.len(),
            final(self).correction_logging == old(self).correction_logging,
            corrected@.len() == old(self).entities@.len(),
            forall|j: int|
                0 <= j < old(self).entities@.len() ==> #[trigger] RollbackEntity::recorded(
                    old(self).entities@[j],
                    final(self).entities@[j],
                    tw.clock.spec_frame(),
                    tw.spec_rollback_end(),
                    tw.config.rollback_window,
                    old(self).correction_logging,
                    corrected@[j],
                ),
    {
        let ghost before = self.entities@;
        let frame = tw.clock.frame();
        let end = tw.rollback_end();
        let window = tw.config.rollback_window;
        let logging = self.correction_logging;
        let mut corrected: Vec<bool> = Vec::new();
        let mut i: usize = 0;
        while i < self.entities.len()
            invariant
                i <= self.entities@.len(),
                self.entities@.len() == before.len(),
                self.correction_logging == old(self).correction_logging,
                logging == old(self).correction_logging,
                before == old(self).entities@,
                frame == tw.clock.spec_frame(),
                end == tw.spec_rollback_end(),
                window == tw.config.rollback_window,
                corrected@.len() == i,
                forall|j: int| 0 <= j < before.len() ==> (#[trigger] before[j]).wf(),
                forall|j: int| 0 <= j < self.entities@.len() ==> (#[trigger] self.entities@[j]).wf(),
                forall|j: int|
                    0 <= j < i ==> #[trigger] RollbackEntity::recorded(
                        before[j],
                        self.entities@[j],
                        frame,
                        end,
                        window,
                        logging,
                        corrected@[j],
                    ),
                forall|j: int| i <= j < before.len() ==> self.entities@[j] == before[j],
            decreases before.len() - i,
        {
            let c = self.entities[i].record(frame, end, window, logging);
            corrected.push(c);
            i = i + 1;
        }
        corrected
    }
}

} // verus!
