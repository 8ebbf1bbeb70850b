//! One entity's rolled-back value of one type, and the steps each tick applies to it: applying an
//! authoritative update, restoring during a rollback, recording the simulated value, noting
//! births and deaths, and removing the value when the entity is marked for despawn.
use vstd::prelude::*;
use vstd::std_specs::cmp::PartialEqSpec;

use crate::components::{
    birth_recorded, death_recorded, lemma_ranges_disjoint, lemma_ranges_ordered, range_contains,
    ranges_cover, ranges_well_formed, ComponentHistory, FrameRange, ServerSnapshot,
};
use crate::error::TimewarpError;
use crate::frame_buffer::FrameBuffer;
use crate::resources::{RollbackRequest, TimewarpStatus};
use crate::FrameNumber;

verus! {

/// How many snapshot slots are kept per frame of the rollback window: authoritative updates
/// arrive at a lower rate than simulation ticks.
pub const SNAPSHOT_SLOTS_PER_WINDOW_FRAME: usize = 60;

/// A misprediction found by a rollback: the value predicted for `frame` and the value the
/// resimulation produced for it.
#[derive(Debug, Clone)]
pub struct TimewarpCorrection<T> {
    pub before: T,
    pub after: T,
    pub frame: FrameNumber,
}

/// A value for an older frame, as received from the server, to be inserted for an entity.
#[derive(Debug)]
pub struct InsertComponentAtFrame<T> {
    pub component: T,
    pub frame: FrameNumber,
}

impl<T> InsertComponentAtFrame<T> {
    pub fn new(frame: FrameNumber, component: T) -> (r: Self)
        ensures
            r.component == component,
            r.frame == frame,
    {
        InsertComponentAtFrame { component, frame }
    }
}

/// What applying the newest authoritative value did.
#[derive(Debug, Clone, Copy, PartialEq, Eq, Structural)]
pub enum SnapshotOutcome {
    /// No new authoritative value to apply.
    Unchanged,
    /// The value is for the current frame: it became the live value, no rollback needed.
    AppliedNow,
    /// The value equals the recorded prediction: nothing to resimulate.
    Confirmed,
    /// The value is older than the retained history and was dropped.
    RangeFault,
    /// The value is for a frame not yet simulated; it was recorded.
    Stored,
    /// The value was recorded for a past frame; frames from the request onwards must be
    /// simulated again.
    Resimulate(RollbackRequest),
}

/// How `insert_component_at_frame` stored a value.
#[derive(Debug, Clone, Copy, PartialEq, Eq, Structural)]
pub enum InsertComponentResult {
    /// The entity already had a snapshot buffer; the value went into it.
    IntoExistingSnapshot,
    /// The entity had no history for this type: history and snapshot buffer were created.
    ComponentsAdded,
}

/// The success or failure of `r`, without its value.
pub open spec fn unit_result<A>(r: Result<A, TimewarpError>) -> Result<(), TimewarpError> {
    match r {
        Ok(_) => Ok(()),
        Err(e) => Err(e),
    }
}

/// Whether `o` holds a clone of `v`.
pub open spec fn holds_clone_of<T: Clone>(o: Option<T>, v: T) -> bool {
    o matches Some(w) && vstd::pervasive::cloned(v, w)
}

/// The capacity of a history buffer for a rollback window (at least one frame).
pub open spec fn history_capacity(window: FrameNumber) -> usize {
    if window == 0 {
        1usize
    } else {
        window as usize
    }
}

/// The capacity of a snapshot buffer for a rollback window.
pub open spec fn snapshot_capacity(window: FrameNumber) -> usize {
    if history_capacity(window) as int * SNAPSHOT_SLOTS_PER_WINDOW_FRAME > usize::MAX {
        usize::MAX
    } else {
        (history_capacity(window) as int * SNAPSHOT_SLOTS_PER_WINDOW_FRAME) as usize
    }
}

fn capacities(window: FrameNumber) -> (r: (usize, usize))
    ensures
        r.0 == history_capacity(window),
        r.1 == snapshot_capacity(window),
{
    let h: usize = if window == 0 {
        1
    } else {
        window as usize
    };
    let s = h.checked_mul(SNAPSHOT_SLOTS_PER_WINDOW_FRAME);
    match s {
        Some(s) => (h, s),
        None => (h, usize::MAX),
    }
}

/// One entity's value of one registered type, with its history and authoritative snapshots.
///
/// `added` and `removed` are the change notices of the live world: set when the host inserts
/// or removes the live value, cleared when the next tick has taken them into account.
pub struct RollbackEntity<T> {
    /// The value currently present in the live world.
    pub live: Option<T>,
    /// Recorded values and alive ranges; created the first tick the value is recorded.
    pub history: Option<ComponentHistory<T>>,
    /// Authoritative values received for this entity.
    pub snapshot: Option<ServerSnapshot<T>>,
    /// The latest misprediction found by a rollback, when correction logging is on.
    pub correction: Option<TimewarpCorrection<T>>,
    /// The newest frame this entity received an authoritative value for; attached together
    /// with the buffers.
    pub status: Option<TimewarpStatus>,
    pub added: bool,
    pub removed: bool,
    pub snapshot_changed: bool,
}

/// The status after an authoritative value for `frame` arrived: attached at `frame` when there
/// was none, else raised to `frame` if that is newer.
pub open spec fn status_raised(
    before: Option<TimewarpStatus>,
    after: Option<TimewarpStatus>,
    frame: int,
) -> bool {
    after matches Some(st) && st.spec_last_snap_frame() == match before {
        Some(b) => if frame > b.spec_last_snap_frame() {
            frame
        } else {
            b.spec_last_snap_frame() as int
        },
        None => frame,
    }
}

/// A history just created for a value born at `frame`: alive from `frame` on, holding a clone
/// of `value` at `frame` and nothing else, with `frame` as newest and authoritative frame.
pub open spec fn fresh_history<T: Clone>(
    h: ComponentHistory<T>,
    frame: FrameNumber,
    window: FrameNumber,
    correction_logging: bool,
    value: T,
) -> bool {
    &&& h.spec_ranges() == seq![(frame, None::<FrameNumber>)]
    &&& h.spec_values().spec_capacity() == history_capacity(window)
    &&& h.spec_values().spec_newest() == frame
    &&& h.spec_authoritative_frame() == frame
    &&& h.spec_correction_logging() == correction_logging
    &&& frame >= 1 ==> holds_clone_of(h.spec_at(frame as int), value)
    &&& forall|f: int| (f != frame || frame < 1) ==> (#[trigger] h.spec_at(f)).is_none()
}

/// Raises `status` to `frame`, attaching one when there is none.
fn raise_status(status: &mut Option<TimewarpStatus>, frame: FrameNumber)
    ensures
        status_raised(*old(status), *final(status), frame as int),
{
    match status.take() {
        Some(mut st) => {
            st.set_snapped_at(frame);
            *status = Some(st);
        },
        None => {
            *status = Some(TimewarpStatus::new(frame));
        },
    }
}

impl<T: Clone + PartialEq> RollbackEntity<T> {
    pub open spec fn wf(&self) -> bool {
        &&& self.history matches Some(h) ==> h.wf()
        &&& self.snapshot matches Some(s) ==> s.wf()
    }

    /// An entity whose value was just inserted in the live world; its history is created
    /// when the value is first recorded.
    pub fn spawned(value: T) -> (r: Self)
        ensures
            r.wf(),
            r.live == Some(value),
            r.history is None,
            r.snapshot is None,
            r.correction is None,
            r.status is None,
            r.added,
            !r.removed,
            !r.snapshot_changed,
    {
        RollbackEntity {
            live: Some(value),
            history: None,
            snapshot: None,
            correction: None,
            status: None,
            added: true,
            removed: false,
            snapshot_changed: false,
        }
    }

    /// Replaces the live value as the host's game logic does, noting an insertion or a removal.
    pub fn set_live(&mut self, value: Option<T>)
        ensures
            final(self).live == value,
            final(self).history == old(self).history,
            final(self).snapshot == old(self).snapshot,
            final(self).correction == old(self).correction,
            final(self).status == old(self).status,
            final(self).snapshot_changed == old(self).snapshot_changed,
            final(self).added == (old(self).added || (old(self).live is None && value is Some)),
            final(self).removed == (old(self).removed || (old(self).live is Some && value is None)),
    {
        if self.live.is_none() && value.is_some() {
            self.added = true;
        }
        if self.live.is_some() && value.is_none() {
            self.removed = true;
        }
        self.live = value;
    }

    /// The recorded value for `frame`.
    pub fn value_at(&self, frame: FrameNumber) -> (r: Option<&T>)
        requires
            self.wf(),
        ensures
            match r {
                Some(v) => self.history matches Some(h) && h.spec_at(frame as int) == Some(*v),
                None => self.history matches Some(h) ==> h.spec_at(frame as int).is_none(),
            },
    {
        match &self.history {
            Some(h) => h.at_frame(frame),
            None => None,
        }
    }

    /// What `insert_component_at_frame(frame, value, current, window, correction_logging)`
    /// does, returning `r`.
    pub open spec fn component_inserted(
        before: Self,
        after: Self,
        frame: FrameNumber,
        value: T,
        current: FrameNumber,
        window: FrameNumber,
        correction_logging: bool,
        r: Result<(InsertComponentResult, Option<RollbackRequest>), TimewarpError>,
    ) -> bool {
        &&& after.correction == before.correction
        &&& after.removed == before.removed
        &&& match before.snapshot {
            Some(s) => {
                &&& after.snapshot matches Some(s2) && FrameBuffer::inserted(
                    s.spec_values(),
                    frame as int,
                    value,
                    s2.spec_values(),
                    unit_result(r),
                )
                &&& r is Ok ==> r == Ok::<_, TimewarpError>(
                    (InsertComponentResult::IntoExistingSnapshot, None::<RollbackRequest>),
                )
                &&& after.snapshot_changed == (before.snapshot_changed || r is Ok)
                &&& after.live == before.live
                &&& after.history == before.history
                &&& after.added == before.added
                &&& after.status == before.status
            },
            None => {
                &&& r is Ok
                &&& r.unwrap().0 == InsertComponentResult::ComponentsAdded
                &&& r.unwrap().1 == if frame < current {
                    Some(RollbackRequest((frame + 1) as FrameNumber))
                } else {
                    None
                }
                &&& after.history matches Some(h) && fresh_history(
                    h,
                    frame,
                    window,
                    correction_logging,
                    value,
                )
                &&& after.snapshot matches Some(s) && s.spec_values().spec_capacity()
                    == snapshot_capacity(window) && s.spec_values().spec_newest() == frame && (
                forall|f: int|
                    #[trigger] s.spec_values().spec_at(f) == if f == frame && frame >= 1 {
                        Some(value)
                    } else {
                        None
                    })
                &&& status_raised(before.status, after.status, frame as int)
                &&& !after.snapshot_changed
                &&& frame == current ==> holds_clone_of(after.live, value)
                &&& frame != current ==> after.live == before.live
                &&& after.added == before.added
            },
        }
    }

    /// Writes an authoritative `value` for `frame` into the snapshot buffer, creating history
    /// and snapshot buffers (sized for `window`) when the entity has none for this type.
    ///
    /// With an existing buffer the value is picked up by the next `apply_snapshot`. Otherwise
    /// the outcome is decided here against the clock `current`: a value for the current frame
    /// becomes live, one for a past frame asks to resimulate from the frame after it, one for
    /// a future frame is only stored.
    pub fn insert_component_at_frame(
        &mut self,
        frame: FrameNumber,
        value: T,
        current: FrameNumber,
        window: FrameNumber,
        correction_logging: bool,
    ) -> (r: Result<(InsertComponentResult, Option<RollbackRequest>), TimewarpError>)
        requires
            old(self).wf(),
        ensures
            final(self).wf(),
            Self::component_inserted(
                *old(self),
                *final(self),
                frame,
                value,
                current,
                window,
                correction_logging,
                r,
            ),
    {
        if self.snapshot.is_some() {
            let mut s = self.snapshot.take().unwrap();
            let res = s.insert(frame, value);
            self.snapshot = Some(s);
            match res {
                Ok(()) => {
                    self.snapshot_changed = true;
                    Ok((InsertComponentResult::IntoExistingSnapshot, None))
                },
                Err(e) => Err(e),
            }
        } else {
            let (hcap, scap) = capacities(window);
            let mut h = ComponentHistory::with_capacity(hcap, frame, value.clone());
            let ghost h0 = h;
            if correction_logging {
                h.enable_correction_logging();
            }
            assert forall|f: int| (f != frame || frame < 1) implies (#[trigger] h.spec_at(
                f,
            )).is_none() by {
                assert(h.spec_at(f) == h0.spec_at(f));
            }
            let live_now = if frame == current {
                Some(value.clone())
            } else {
                None
            };
            let mut s = ServerSnapshot::with_capacity(scap);
            let _ = s.insert(frame, value);
            self.history = Some(h);
            self.snapshot = Some(s);
            self.snapshot_changed = false;
            raise_status(&mut self.status, frame);
            if let Some(w) = live_now {
                self.live = Some(w);
            }
            let request = if frame < current {
                Some(RollbackRequest(frame + 1))
            } else {
                None
            };
            Ok((InsertComponentResult::ComponentsAdded, request))
        }
    }

    /// Whether an authoritative update is waiting to be applied: the snapshot buffer changed
    /// and holds a value for its newest frame.
    pub open spec fn snapshot_pending(&self) -> bool {
        &&& self.snapshot_changed
        &&& self.history is Some
        &&& self.snapshot matches Some(s) && s.spec_values().spec_newest() != 0
            && s.spec_values().spec_at(s.spec_values().spec_newest()) is Some
    }

    /// The newest authoritative frame.
    pub open spec fn snap_frame(&self) -> int {
        self.snapshot.unwrap().spec_values().spec_newest()
    }

    /// The authoritative value for the newest authoritative frame.
    pub open spec fn snap_value(&self) -> T {
        self.snapshot.unwrap().spec_values().spec_at(self.snap_frame()).unwrap()
    }

    /// What `apply_snapshot(current, forced)` does, returning `r`.
    pub open spec fn snapshot_applied(
        before: Self,
        after: Self,
        current: FrameNumber,
        forced: bool,
        r: SnapshotOutcome,
    ) -> bool {
        &&& !after.snapshot_changed
        &&& after.snapshot == before.snapshot
        &&& after.correction == before.correction
        &&& after.removed == before.removed
        &&& !before.snapshot_pending() ==> {
            &&& r == SnapshotOutcome::Unchanged
            &&& after.live == before.live
            &&& after.history == before.history
            &&& after.added == before.added
            &&& after.status == before.status
        }
        &&& before.snapshot_pending() ==> status_raised(
            before.status,
            after.status,
            before.snap_frame(),
        )
        &&& before.snapshot_pending() && before.snap_frame() == current ==> {
            &&& r == SnapshotOutcome::AppliedNow
            &&& holds_clone_of(after.live, before.snap_value())
            &&& after.history == before.history
            &&& after.added == (before.added || before.live is None)
        }
        &&& before.snapshot_pending() && before.snap_frame() != current ==> {
            let h = before.history.unwrap();
            let snap = before.snap_frame();
            let v = before.snap_value();
            &&& after.live == before.live
            &&& after.added == before.added
            &&& r == SnapshotOutcome::Confirmed ==> {
                &&& !forced
                &&& h.spec_at(snap) is Some
                &&& T::obeys_eq_spec() ==> h.spec_at(snap).unwrap().eq_spec(&v)
                &&& after.history == before.history
            }
            &&& (!forced && h.spec_at(snap) is Some && T::obeys_eq_spec()
                && h.spec_at(snap).unwrap().eq_spec(&v)) ==> r == SnapshotOutcome::Confirmed
            &&& r != SnapshotOutcome::Confirmed ==> exists|w: T, res: Result<(), TimewarpError>|
                {
                    let h2 = after.history.unwrap();
                    &&& vstd::pervasive::cloned(v, w)
                    &&& after.history is Some
                    &&& #[trigger] FrameBuffer::inserted(
                        h.spec_values(),
                        snap,
                        w,
                        after.history.unwrap().spec_values(),
                        res,
                    )
                    &&& h2.spec_correction_logging() == h.spec_correction_logging()
                    &&& res is Err ==> r == SnapshotOutcome::RangeFault && after.history
                        == before.history
                    &&& res is Ok ==> {
                        &&& h2.spec_authoritative_frame() == snap
                        &&& birth_recorded(h.spec_ranges(), h2.spec_ranges(), snap)
                        &&& r == if snap < current {
                            SnapshotOutcome::Resimulate(RollbackRequest((snap + 1) as FrameNumber))
                        } else {
                            SnapshotOutcome::Stored
                        }
                    }
                }
        }
    }

    /// Whether the history holds what a restore at `frame` needs: a recorded value if the
    /// component was alive at `frame`. A history that lacks it means the retained window was
    /// too short for the rollback: an internal fault that must not be papered over.
    pub open spec fn restore_consistent(&self, frame: FrameNumber) -> bool {
        match self.history {
            None => true,
            Some(h) => !h.spec_alive(frame as int) || h.spec_at(frame as int) is Some,
        }
    }

    /// What `restore(frame)` does.
    pub open spec fn restored(before: Self, after: Self, frame: FrameNumber) -> bool {
        &&& after.history == before.history
        &&& after.snapshot == before.snapshot
        &&& after.correction == before.correction
        &&& after.status == before.status
        &&& after.added == before.added
        &&& after.removed == before.removed
        &&& after.snapshot_changed == before.snapshot_changed
        &&& match before.history {
            None => after.live == before.live,
            Some(h) => if h.spec_alive(frame as int) {
                holds_clone_of(after.live, h.spec_at(frame as int).unwrap())
            } else {
                after.live is None
            },
        }
    }

    /// What `record(frame, rollback_end, window, correction_logging)` does, returning
    /// `corrected`.
    pub open spec fn recorded(
        before: Self,
        after: Self,
        frame: FrameNumber,
        rollback_end: Option<FrameNumber>,
        window: FrameNumber,
        correction_logging: bool,
        corrected: bool,
    ) -> bool {
        &&& after.live == before.live
        &&& after.removed == (before.removed && rollback_end is None)
        &&& after.snapshot_changed == before.snapshot_changed
        &&& before.live is None ==> {
            &&& !corrected
            &&& after.status == before.status
            &&& after.history == before.history
            &&& after.snapshot == before.snapshot
            &&& after.correction == before.correction
            &&& after.added == before.added
        }
        &&& before.live is Some && before.history is None ==> {
            let v = before.live.unwrap();
            &&& !corrected
            &&& !after.added
            &&& after.correction == before.correction
            &&& after.history matches Some(h) && fresh_history(
                h,
                frame,
                window,
                correction_logging,
                v,
            )
            &&& before.snapshot is Some ==> after.snapshot == before.snapshot
            &&& before.snapshot is None ==> (after.snapshot matches Some(s)
                && s.spec_values().spec_capacity() == snapshot_capacity(window)
                && s.spec_values().spec_newest() == 0 && forall|f: int|
                (#[trigger] s.spec_values().spec_at(f)).is_none())
            &&& status_raised(before.status, after.status, 0)
        }
        &&& before.live is Some && before.history is Some ==> {
            let v = before.live.unwrap();
            let h = before.history.unwrap();
            let due = h.spec_correction_logging() && rollback_end == Some(frame) && h.spec_at(
                frame as int,
            ) is Some;
            let predicted = h.spec_at(frame as int).unwrap();
            &&& !after.added
            &&& after.snapshot == before.snapshot
            &&& after.status == before.status
            &&& corrected ==> due && (T::obeys_eq_spec() ==> !predicted.eq_spec(&v))
            &&& due && T::obeys_eq_spec() && !predicted.eq_spec(&v) ==> corrected
            &&& corrected ==> (after.correction matches Some(c) && vstd::pervasive::cloned(
                predicted,
                c.before,
            ) && vstd::pervasive::cloned(v, c.after) && c.frame == frame)
            &&& !corrected ==> after.correction == before.correction
            &&& after.history matches Some(h2) && exists|w: T, res: Result<(), TimewarpError>|
                {
                    &&& vstd::pervasive::cloned(v, w)
                    &&& #[trigger] FrameBuffer::inserted(
                        h.spec_values(),
                        frame as int,
                        w,
                        h2.spec_values(),
                        res,
                    )
                }
            &&& after.history.unwrap().spec_correction_logging() == h.spec_correction_logging()
            &&& before.added && rollback_end is None ==> birth_recorded(
                h.spec_ranges(),
                after.history.unwrap().spec_ranges(),
                frame as int,
            )
            &&& !(before.added && rollback_end is None) ==> after.history.unwrap().spec_ranges()
                == h.spec_ranges()
        }
    }

    /// What `note_removal(frame)` does.
    pub open spec fn removal_noted(before: Self, after: Self, frame: FrameNumber) -> bool {
        &&& !after.removed
        &&& after.live == before.live
        &&& after.status == before.status
        &&& after.snapshot == before.snapshot
        &&& after.correction == before.correction
        &&& after.added == before.added
        &&& after.snapshot_changed == before.snapshot_changed
        &&& before.removed && before.history is Some ==> (after.history matches Some(h2)
            && died_at(before.history.unwrap(), h2, frame as int))
        &&& !(before.removed && before.history is Some) ==> after.history == before.history
    }

    /// What `despawn_remove(frame)` does.
    pub open spec fn despawn_removed(before: Self, after: Self, frame: FrameNumber) -> bool {
        &&& after.live is None
        &&& after.status == before.status
        &&& after.snapshot == before.snapshot
        &&& after.correction == before.correction
        &&& after.added == before.added
        &&& after.removed == before.removed
        &&& after.snapshot_changed == before.snapshot_changed
        &&& before.live is Some && before.history is Some ==> (after.history matches Some(
            h2,
        ) && died_at(before.history.unwrap(), h2, frame as int))
        &&& !(before.live is Some && before.history is Some) ==> after.history == before.history
    }

    /// Applies the newest authoritative value, if the snapshot buffer changed, at the clock
    /// reading `current` (the last simulated frame).
    ///
    /// A value for the current frame becomes the live value. A value equal to the recorded
    /// prediction is confirmed and changes nothing, unless `forced`. Otherwise the value is
    /// recorded in the history (dropped with `RangeFault` when too old), the value is marked
    /// alive at its frame, and a past frame asks to resimulate from the frame after it.
    pub fn apply_snapshot(&mut self, current: FrameNumber, forced: bool) -> (r: SnapshotOutcome)
        requires
            old(self).wf(),
        ensures
            final(self).wf(),
            Self::snapshot_applied(*old(self), *final(self), current, forced, r),
    {
        if !self.snapshot_changed || self.history.is_none() || self.snapshot.is_none() {
            self.snapshot_changed = false;
            return SnapshotOutcome::Unchanged;
        }
        self.snapshot_changed = false;
        let s = self.snapshot.as_ref().unwrap();
        let snap = s.values().newest_frame();
        if snap == 0 {
            return SnapshotOutcome::Unchanged;
        }
        let sv = match s.at_frame(snap) {
            Some(v) => v,
            None => {
                return SnapshotOutcome::Unchanged;
            },
        };
        raise_status(&mut self.status, snap);
        if snap == current {
            if self.live.is_none() {
                self.added = true;
            }
            self.live = Some(sv.clone());
            return SnapshotOutcome::AppliedNow;
        }
        let mut h = self.history.take().unwrap();
        let ghost h0 = h;
        let confirmed = match h.at_frame(snap) {
            Some(stored) => !forced && stored.eq(sv),
            None => false,
        };
        if confirmed {
            self.history = Some(h);
            return SnapshotOutcome::Confirmed;
        }
        let w = sv.clone();
        let ghost wg = w;
        let res = h.insert_authoritative(snap, w);
        let r = match res {
            Err(_) => SnapshotOutcome::RangeFault,
            Ok(()) => {
                h.report_birth_at_frame(snap);
                if snap < current {
                    SnapshotOutcome::Resimulate(RollbackRequest(snap + 1))
                } else {
                    SnapshotOutcome::Stored
                }
            },
        };
        self.history = Some(h);
        proof {
            let h2 = self.history.unwrap();
            assert(vstd::pervasive::cloned(old(self).snap_value(), wg));
            assert(FrameBuffer::inserted(h0.spec_values(), snap as int, wg, h2.spec_values(), res));
            assert(res is Err ==> r == SnapshotOutcome::RangeFault && h2 == h0);
            assert(res is Ok ==> birth_recorded(h0.spec_ranges(), h2.spec_ranges(), snap as int));
        }
        r
    }

    /// Restores the live value for `frame` at the start of, or during, a rollback.
    ///
    /// | alive at `frame` | present now | result                                  |
    /// |------------------|-------------|-----------------------------------------|
    /// | yes              | yes or no   | the recorded value for `frame` is live  |
    /// | no               | yes         | the live value is removed               |
    /// | no               | no          | nothing                                 |
    ///
    /// A history that says the component was alive at `frame` without holding a value for
    /// it is an internal fault: callers test `can_restore` first and fail loudly.
    pub fn restore(&mut self, frame: FrameNumber)
        requires
            old(self).wf(),
            old(self).restore_consistent(frame),
        ensures
            final(self).wf(),
            Self::restored(*old(self), *final(self), frame),
    {
        let h = match &self.history {
            Some(h) => h,
            None => {
                return ;
            },
        };
        if !h.alive_at_frame(frame) {
            self.live = None;
            return ;
        }
        match h.at_frame(frame) {
            Some(v) => {
                self.live = Some(v.clone());
            },
            None => {},
        }
    }

    /// Whether the history holds what a restore at `frame` needs (see `restore`).
    pub fn can_restore(&self, frame: FrameNumber) -> (r: bool)
        requires
            self.wf(),
        ensures
            r == self.restore_consistent(frame),
    {
        match &self.history {
            Some(h) => !h.alive_at_frame(frame) || h.at_frame(frame).is_some(),
            None => true,
        }
    }

    /// Records the live value as the value simulated for `frame`.
    ///
    /// The first time, this creates the history (sized for `window`, with correction logging
    /// as `correction_logging` says) and the snapshot buffer. Afterwards it writes the value
    /// into the history; when the component was just inserted outside a rollback it also
    /// records its birth. When correction logging is on and this is the final frame of a
    /// rollback (`rollback_end`), a value that differs from the one predicted before the
    /// rollback is kept as a correction; the result says whether one was. During a rollback
    /// (`rollback_end` is `Some`) removal notices are dropped: they come from the replay.
    pub fn record(
        &mut self,
        frame: FrameNumber,
        rollback_end: Option<FrameNumber>,
        window: FrameNumber,
        correction_logging: bool,
    ) -> (corrected: bool)
        requires
            old(self).wf(),
        ensures
            final(self).wf(),
            Self::recorded(*old(self), *final(self), frame, rollback_end, window, correction_logging, corrected),
    {
        if rollback_end.is_some() {
            self.removed = false;
        }
        let v = match &self.live {
            Some(v) => v,
            None => {
                return false;
            },
        };
        if self.history.is_none() {
            let (hcap, scap) = capacities(window);
            let mut h = ComponentHistory::with_capacity(hcap, frame, v.clone());
            let ghost h0 = h;
            if correction_logging {
                h.enable_correction_logging();
            }
            assert forall|f: int| (f != frame || frame < 1) implies (#[trigger] h.spec_at(
                f,
            )).is_none() by {
                assert(h.spec_at(f) == h0.spec_at(f));
            }
            self.history = Some(h);
            if self.snapshot.is_none() {
                self.snapshot = Some(ServerSnapshot::with_capacity(scap));
            }
            raise_status(&mut self.status, 0);
            self.added = false;
            return false;
        }
        let mut h = self.history.take().unwrap();
        let ghost h0 = h;
        let mut corrected = false;
        if h.correction_logging_enabled() && rollback_end == Some(frame) {
            match h.at_frame(frame) {
                Some(predicted) => {
                    if !predicted.eq(v) {
                        self.correction = Some(
                            TimewarpCorrection { before: predicted.clone(), after: v.clone(), frame },
                        );
                        corrected = true;
                    }
                },
                None => {},
            }
        }
        let w = v.clone();
        let ghost wg = w;
        let res = h.insert(frame, w);
        proof {
            assert(FrameBuffer::inserted(h0.spec_values(), frame as int, wg, h.spec_values(), res));
        }
        if self.added && rollback_end.is_none() {
            h.report_birth_at_frame(frame);
        }
        self.added = false;
        self.history = Some(h);
        proof {
            assert(self.status == old(self).status);
            assert(self.snapshot == old(self).snapshot);
            assert(self.live == old(self).live);
            let h2 = self.history.unwrap();
            assert(FrameBuffer::inserted(h0.spec_values(), frame as int, wg, h2.spec_values(), res));
        }
        corrected
    }

    /// Takes a removal of the live value into account outside a rollback: the component died
    /// at `frame`.
    pub fn note_removal(&mut self, frame: FrameNumber)
        requires
            old(self).wf(),
        ensures
            final(self).wf(),
            Self::removal_noted(*old(self), *final(self), frame),
    {
        if self.removed && self.history.is_some() {
            let mut h = self.history.take().unwrap();
            h.report_death_at_frame(frame);
            self.history = Some(h);
        }
        self.removed = false;
    }

    /// Removes the live value because the entity was marked for despawn at `frame`; the
    /// history is kept so that a rollback can still revive the value.
    pub fn despawn_remove(&mut self, frame: FrameNumber)
        requires
            old(self).wf(),
        ensures
            final(self).wf(),
            Self::despawn_removed(*old(self), *final(self), frame),
    {
        if self.live.is_some() && self.history.is_some() {
            let mut h = self.history.take().unwrap();
            h.report_death_at_frame(frame);
            self.history = Some(h);
        }
        self.live = None;
    }
}

/// `after` is `before` with a death reported at `frame`.
pub open spec fn died_at<T>(before: ComponentHistory<T>, after: ComponentHistory<T>, frame: int) -> bool {
    &&& death_recorded(before.spec_ranges(), after.spec_ranges(), frame)
    &&& after.spec_values() == before.spec_values()
    &&& after.spec_authoritative_frame() == before.spec_authoritative_frame()
    &&& after.spec_correction_logging() == before.spec_correction_logging()
}

/// An authoritative value equal, by `T`'s `==`, to the prediction already recorded for its
/// frame triggers no rollback: applying it leaves the history and the live value as they were.
pub proof fn lemma_confirmed_prediction<T: Clone + PartialEq>(
    before: RollbackEntity<T>,
    after: RollbackEntity<T>,
    current: FrameNumber,
    r: SnapshotOutcome,
)
    requires
        T::obeys_eq_spec(),
        before.snapshot_pending(),
        before.history.unwrap().spec_at(before.snap_frame()) matches Some(p) && p.eq_spec(
            &before.snap_value(),
        ),
        RollbackEntity::snapshot_applied(before, after, current, false, r),
    ensures
        !(r is Resimulate),
        r == SnapshotOutcome::Confirmed || r == SnapshotOutcome::AppliedNow,
        after.history == before.history,
{
}

/// Correction logging at the last frame of a rollback: a resimulated value that differs, by
/// `T`'s `==`, from the prediction recorded before the rollback is kept as `{before:
/// predicted, after: resimulated}`; an equal value leaves the correction as it was.
pub proof fn lemma_correction_logging<T: Clone + PartialEq>(
    before: RollbackEntity<T>,
    after: RollbackEntity<T>,
    frame: FrameNumber,
    window: FrameNumber,
    correction_logging: bool,
    corrected: bool,
)
    requires
        T::obeys_eq_spec(),
        before.live is Some,
        before.history matches Some(h) && h.spec_correction_logging() && h.spec_at(frame as int) is Some,
        RollbackEntity::recorded(before, after, frame, Some(frame), window, correction_logging, corrected),
    ensures
        ({
            let predicted = before.history.unwrap().spec_at(frame as int).unwrap();
            let resimulated = before.live.unwrap();
            &&& !predicted.eq_spec(&resimulated) ==> (after.correction matches Some(c)
                && vstd::pervasive::cloned(predicted, c.before) && vstd::pervasive::cloned(
                resimulated,
                c.after,
            ) && c.frame == frame)
            &&& predicted.eq_spec(&resimulated) ==> after.correction == before.correction
        }),
{
}

/// A death reported at `frame` inside the last, open range leaves the value dead at `frame`
/// and at every later frame, and alive exactly as before at every earlier frame: a despawned
/// value stays removed until a rollback revives it.
pub proof fn lemma_death_ends_life(
    before: Seq<FrameRange>,
    after: Seq<FrameRange>,
    frame: int,
)
    requires
        ranges_well_formed(before),
        before.len() > 0,
        before.last().1 is None,
        before.last().0 <= frame <= FrameNumber::MAX,
        death_recorded(before, after, frame),
    ensures
        forall|g: int| g >= frame ==> !ranges_cover(after, g),
        forall|g: int| g < frame ==> (ranges_cover(after, g) == ranges_cover(before, g)),
{
    let n = before.len() - 1;
    assert(range_contains(before[n], frame));
    let i = choose|i: int|
        0 <= i < before.len() && range_contains(before[i], frame) && after == before.update(
            i,
            (before[i].0, Some(frame as FrameNumber)),
        );
    lemma_ranges_disjoint(before, frame, i, n);
    assert(after[n] == (before[n].0, Some(frame as FrameNumber)));
    assert forall|g: int| g >= frame implies !ranges_cover(after, g) by {
        if ranges_cover(after, g) {
            let k = choose|k: int| 0 <= k < after.len() && range_contains(#[trigger] after[k], g);
            if k != n {
                lemma_ranges_ordered(before, k, n);
                assert(after[k] == before[k]);
            }
        }
    }
    assert forall|g: int| g < frame implies (ranges_cover(after, g) == ranges_cover(before, g)) by {
        if ranges_cover(before, g) {
            let k = choose|k: int| 0 <= k < before.len() && range_contains(#[trigger] before[k], g);
            if k == n {
                assert(range_contains(after[k], g));
            } else {
                assert(after[k] == before[k]);
            }
        }
        if ranges_cover(after, g) {
            let k = choose|k: int| 0 <= k < after.len() && range_contains(#[trigger] after[k], g);
            if k == n {
                assert(range_contains(before[k], g));
            } else {
                assert(after[k] == before[k]);
            }
        }
    }
}

} // verus!
