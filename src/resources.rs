//! Process-wide rollback state: configuration, the clock, the active rollback, the requests
//! that lead to one, counters, and the per-entity markers the coordinator reads.
use std::ops::Range;
use vstd::prelude::*;

use crate::FrameNumber;

verus! {

/// When several rollbacks are requested within one tick, which requested frame wins.
#[derive(Debug, Clone, Copy, PartialEq, Eq, Structural)]
pub enum RollbackConsolidationStrategy {
    /// The smallest requested frame: needed when updates may be partial world deltas.
    Oldest,
    /// The largest requested frame: cheaper, safe only with whole-world snapshots.
    Newest,
}

/// Frames of history kept when no other window is configured.
pub const DEFAULT_ROLLBACK_WINDOW: FrameNumber = 30;

/// Configuration of the rollback machinery.
#[derive(Debug, Clone, Copy)]
pub struct TimewarpConfig {
    /// Which requested frame a tick's rollback starts from.
    pub consolidation_strategy: RollbackConsolidationStrategy,
    /// How many frames of history are kept; no rollback reaches further back.
    pub rollback_window: FrameNumber,
    /// Roll back on every authoritative update, even one that confirms the prediction.
    pub force_rollback_always: bool,
}

impl TimewarpConfig {
    /// The defaults: `Newest` consolidation, a window of `DEFAULT_ROLLBACK_WINDOW` frames,
    /// no forced rollbacks.
    pub fn new() -> (r: Self)
        ensures
            r.consolidation_strategy == RollbackConsolidationStrategy::Newest,
            r.rollback_window == DEFAULT_ROLLBACK_WINDOW,
            !r.force_rollback_always,
    {
        TimewarpConfig {
            consolidation_strategy: RollbackConsolidationStrategy::Newest,
            rollback_window: DEFAULT_ROLLBACK_WINDOW,
            force_rollback_always: false,
        }
    }

    pub fn with_forced_rollback(self, enabled: bool) -> (r: Self)
        ensures
            r == (TimewarpConfig { force_rollback_always: enabled, ..self }),
    {
        TimewarpConfig { force_rollback_always: enabled, ..self }
    }

    pub fn with_rollback_window(self, num_frames: FrameNumber) -> (r: Self)
        ensures
            r == (TimewarpConfig { rollback_window: num_frames, ..self }),
    {
        TimewarpConfig { rollback_window: num_frames, ..self }
    }

    pub fn with_consolidation_strategy(self, strategy: RollbackConsolidationStrategy) -> (r: Self)
        ensures
            r == (TimewarpConfig { consolidation_strategy: strategy, ..self }),
    {
        TimewarpConfig { consolidation_strategy: strategy, ..self }
    }

    pub fn forced_rollback(&self) -> (r: bool)
        ensures
            r == self.force_rollback_always,
    {
        self.force_rollback_always
    }

    pub fn rollback_window(&self) -> (r: FrameNumber)
        ensures
            r == self.rollback_window,
    {
        self.rollback_window
    }

    pub fn consolidation_strategy(&self) -> (r: RollbackConsolidationStrategy)
        ensures
            r == self.consolidation_strategy,
    {
        self.consolidation_strategy
    }

    pub fn set_consolidation_strategy(&mut self, strategy: RollbackConsolidationStrategy)
        ensures
            *final(self) == (TimewarpConfig { consolidation_strategy: strategy, ..*old(self) }),
    {
        self.consolidation_strategy = strategy;
    }

    /// Whether `target_frame` is still retained when the clock reads `current_frame`, that is
    /// whether it lies less than `rollback_window` frames back.
    pub fn is_within_rollback_window(&self, current_frame: FrameNumber, target_frame: FrameNumber) -> (r: bool)
        ensures
            r == (target_frame + self.rollback_window > current_frame),
    {
        target_frame as u64 + self.rollback_window as u64 > current_frame as u64
    }
}

/// The simulation clock: the frame most recently simulated (0 before the first one).
#[derive(Debug, Clone, Copy)]
pub struct GameClock {
    frame: FrameNumber,
}

impl GameClock {
    pub closed spec fn spec_frame(&self) -> FrameNumber {
        self.frame
    }

    pub fn new() -> (r: Self)
        ensures
            r.spec_frame() == 0,
    {
        GameClock { frame: 0 }
    }

    /// The current frame.
    pub fn frame(&self) -> (r: FrameNumber)
        ensures
            r == self.spec_frame(),
    {
        self.frame
    }

    /// Moves the clock `ticks` frames forward.
    pub fn advance(&mut self, ticks: FrameNumber)
        requires
            old(self).spec_frame() + ticks <= FrameNumber::MAX,
        ensures
            final(self).spec_frame() == old(self).spec_frame() + ticks,
    {
        self.frame = self.frame + ticks;
    }

    /// Sets the clock to `frame`, as a rollback does when it rewinds.
    pub fn set(&mut self, frame: FrameNumber)
        ensures
            final(self).spec_frame() == frame,
    {
        self.frame = frame;
    }
}

/// Counters of what the rollback machinery did.
#[derive(Debug, Clone, Copy)]
pub struct RollbackStats {
    /// Rollbacks that started resimulating.
    pub num_rollbacks: u64,
    /// Authoritative writes dropped because their frame was older than the retained window.
    pub range_faults: u64,
    /// Authoritative values that arrived exactly for the current frame and were applied
    /// without a rollback.
    pub non_rollback_updates: u64,
    /// Rollbacks refused because they reached further back than the rollback window.
    pub aborted_rollbacks: u64,
}

impl RollbackStats {
    pub fn new() -> (r: Self)
        ensures
            r.num_rollbacks == 0,
            r.range_faults == 0,
            r.non_rollback_updates == 0,
            r.aborted_rollbacks == 0,
    {
        RollbackStats { num_rollbacks: 0, range_faults: 0, non_rollback_updates: 0, aborted_rollbacks: 0 }
    }
}

/// An active rollback: frames `range.start` up to `range.end` are simulated again.
#[derive(Debug)]
pub struct Rollback {
    /// `start` is the first frame to resimulate; `end` is the frame the clock read when the
    /// rollback was created, the present it returns to.
    pub range: Range<FrameNumber>,
    /// The timestep in force before the rollback, in nanoseconds, restored on completion.
    pub original_period: Option<u64>,
    /// Set when the rollback was refused rather than run.
    pub aborted: bool,
}

impl Rollback {
    pub fn new(start: FrameNumber, end: FrameNumber) -> (r: Self)
        ensures
            r.range.start == start,
            r.range.end == end,
            r.original_period is None,
            !r.aborted,
    {
        Rollback { range: Range { start, end }, original_period: None, aborted: false }
    }

    /// How many frames back the rollback reaches.
    pub open spec fn spec_depth(&self) -> int {
        self.range.end - self.range.start
    }
}

/// A request, raised during a tick, to resimulate from `frame` onwards because authoritative
/// data for the frame before it now exists.
#[derive(Debug, Clone, Copy, PartialEq, Eq, Structural)]
pub struct RollbackRequest(pub FrameNumber);

impl RollbackRequest {
    pub fn resimulate_this_frame_onwards(frame: FrameNumber) -> (r: Self)
        ensures
            r.0 == frame,
    {
        RollbackRequest(frame)
    }

    pub fn frame(&self) -> (r: FrameNumber)
        ensures
            r == self.0,
    {
        self.0
    }
}

/// Whether `frame` is the frame `strategy` picks out of `requests`: one of them, and no
/// other request is older (`Oldest`) or newer (`Newest`).
pub open spec fn is_consolidated_frame(
    requests: Seq<RollbackRequest>,
    strategy: RollbackConsolidationStrategy,
    frame: FrameNumber,
) -> bool {
    &&& exists|i: int| 0 <= i < requests.len() && (#[trigger] requests[i]).0 == frame
    &&& forall|j: int|
        0 <= j < requests.len() ==> match strategy {
            RollbackConsolidationStrategy::Oldest => frame <= (#[trigger] requests[j]).0,
            RollbackConsolidationStrategy::Newest => frame >= (#[trigger] requests[j]).0,
        }
}

/// Reduces the requests of one tick to a single rollback, from the frame `strategy` picks up
/// to `current_frame`; no rollback when nothing was requested.
pub fn consolidate_rollback_requests(
    requests: &Vec<RollbackRequest>,
    strategy: RollbackConsolidationStrategy,
    current_frame: FrameNumber,
) -> (r: Option<Rollback>)
    ensures
        r is None <==> requests@.len() == 0,
        r matches Some(rb) ==> {
            &&& is_consolidated_frame(requests@, strategy, rb.range.start)
            &&& rb.range.end == current_frame
            &&& rb.original_period is None
            &&& !rb.aborted
        },
{
    if requests.len() == 0 {
        return None;
    }
    let mut frame = requests[0].0;
    let mut i: usize = 1;
    while i < requests.len()
        invariant
            1 <= i <= requests@.len(),
            exists|k: int| 0 <= k < i && (#[trigger] requests@[k]).0 == frame,
            forall|j: int|
                0 <= j < i ==> match strategy {
                    RollbackConsolidationStrategy::Oldest => frame <= (#[trigger] requests@[j]).0,
                    RollbackConsolidationStrategy::Newest => frame >= (#[trigger] requests@[j]).0,
                },
        decreases requests@.len() - i,
    {
        let f = requests[i].0;
        let better = match strategy {
            RollbackConsolidationStrategy::Oldest => f < frame,
            RollbackConsolidationStrategy::Newest => f > frame,
        };
        if better {
            frame = f;
        }
        assert(requests@[i as int].0 == f);
        i = i + 1;
    }
    Some(Rollback::new(frame, current_frame))
}

/// Every time a rollback completes it is kept here, for whoever wants to inspect it.
#[derive(Debug)]
pub struct PreviousRollback(pub Rollback);

/// Marks an entity for removal that can still be undone by a rollback: its registered values are
/// removed at once, the entity itself only `rollback_window` frames after `0`'s frame.
#[derive(Debug, Clone, Copy, PartialEq, Eq, Structural)]
pub struct DespawnMarker(pub Option<FrameNumber>);

impl DespawnMarker {
    /// A marker whose frame is set when it is first processed.
    pub fn new() -> (r: Self)
        ensures
            r.0 is None,
    {
        DespawnMarker(None)
    }

    pub fn for_frame(frame: FrameNumber) -> (r: Self)
        ensures
            r.0 == Some(frame),
    {
        DespawnMarker(Some(frame))
    }
}

/// The frame from which a marker's entity may really be destroyed.
pub open spec fn despawn_due_frame(marker_frame: FrameNumber, window: FrameNumber) -> int {
    marker_frame + window
}

/// Processes a despawn marker at the clock reading `current_frame`: a marker without a frame
/// gets the current one; the result says whether the entity is due for destruction, which is
/// only once `rollback_window` frames have passed since the marker's frame.
pub fn process_despawn_marker(
    marker: &mut DespawnMarker,
    current_frame: FrameNumber,
    rollback_window: FrameNumber,
) -> (destroy: bool)
    ensures
        final(marker).0 == Some(
            match old(marker).0 {
                Some(f) => f,
                None => current_frame,
            },
        ),
        destroy == (old(marker).0 is Some && current_frame >= despawn_due_frame(
            old(marker).0.unwrap(),
            rollback_window,
        )),
{
    match marker.0 {
        None => {
            marker.0 = Some(current_frame);
            false
        },
        Some(f) => current_frame as u64 >= f as u64 + rollback_window as u64,
    }
}

/// Tracks, per entity, the newest frame it received an authoritative update for.
#[derive(Debug, Clone, Copy)]
pub struct TimewarpStatus {
    last_snapshot_frame: FrameNumber,
}

impl TimewarpStatus {
    pub closed spec fn spec_last_snap_frame(&self) -> FrameNumber {
        self.last_snapshot_frame
    }

    pub fn new(last_snapshot_frame: FrameNumber) -> (r: Self)
        ensures
            r.spec_last_snap_frame() == last_snapshot_frame,
    {
        TimewarpStatus { last_snapshot_frame }
    }

    /// The frame of the most recent authoritative update of any of the entity's values.
    pub fn last_snap_frame(&self) -> (r: FrameNumber)
        ensures
            r == self.spec_last_snap_frame(),
    {
        self.last_snapshot_frame
    }

    /// Notes an update at `frame`; the status never moves backwards.
    pub fn set_snapped_at(&mut self, frame: FrameNumber)
        ensures
            final(self).spec_last_snap_frame() == if frame > old(self).spec_last_snap_frame() {
                frame
            } else {
                old(self).spec_last_snap_frame()
            },
    {
        if frame > self.last_snapshot_frame {
            self.last_snapshot_frame = frame;
        }
    }
}

} // verus!
