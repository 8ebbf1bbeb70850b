//! The rollback coordinator: the clock, the active rollback and its lifecycle (creation from
//! the tick's requests, depth check and rewind, completion), and the counters.
use std::ops::Range;
use vstd::prelude::*;

use crate::resources::{
    consolidate_rollback_requests, is_consolidated_frame, GameClock, PreviousRollback, Rollback,
    RollbackRequest, RollbackStats, TimewarpConfig,
};
use crate::FrameNumber;

verus! {

/// The timestep, in nanoseconds, in force while a rollback replays frames back to back.
pub const FAST_FORWARD_TIMESTEP: u64 = 1;

/// `n` plus one, saturating at the largest `u64`.
pub open spec fn incremented(n: u64) -> u64 {
    if n < u64::MAX {
        (n + 1) as u64
    } else {
        n
    }
}

pub(crate) fn increment(n: u64) -> (r: u64)
    ensures
        r == incremented(n),
{
    if n < u64::MAX {
        n + 1
    } else {
        n
    }
}

/// Whether a rollback over `start..end` stays within a window of `window` frames: it must
/// not start after its end, and must reach back fewer than `window` frames.
pub open spec fn within_window(start: FrameNumber, end: FrameNumber, window: FrameNumber) -> bool {
    start <= end && end - start < window
}

/// The frame the clock is rewound to when a rollback starting at `start` begins: the frame
/// before it, whose values are restored before `start` is simulated again.
pub open spec fn rewind_frame(start: FrameNumber) -> FrameNumber {
    if start == 0 {
        0
    } else {
        (start - 1) as FrameNumber
    }
}

/// The process-wide rollback state, passed to every per-tick step.
pub struct Timewarp {
    pub config: TimewarpConfig,
    pub clock: GameClock,
    /// Present while a rollback is under way.
    pub rollback: Option<Rollback>,
    /// The last rollback that completed or was refused.
    pub previous_rollback: Option<PreviousRollback>,
    pub stats: RollbackStats,
    /// Rollback requests raised during the current tick.
    pub requests: Vec<RollbackRequest>,
    /// The timestep in force, in nanoseconds.
    pub timestep: u64,
}

impl Timewarp {
    pub fn new(config: TimewarpConfig, timestep: u64) -> (r: Self)
        ensures
            r.config == config,
            r.clock.spec_frame() == 0,
            r.rollback is None,
            r.previous_rollback is None,
            r.stats.num_rollbacks == 0,
            r.stats.range_faults == 0,
            r.stats.non_rollback_updates == 0,
            r.stats.aborted_rollbacks == 0,
            r.requests@ == Seq::<RollbackRequest>::empty(),
            r.timestep == timestep,
    {
        Timewarp {
            config,
            clock: GameClock::new(),
            rollback: None,
            previous_rollback: None,
            stats: RollbackStats::new(),
            requests: Vec::new(),
            timestep,
        }
    }

    /// The current frame.
    pub fn frame(&self) -> (r: FrameNumber)
        ensures
            r == self.clock.spec_frame(),
    {
        self.clock.frame()
    }

    pub fn in_rollback(&self) -> (r: bool)
        ensures
            r == self.rollback is Some,
    {
        self.rollback.is_some()
    }

    /// The last frame of the active rollback, if one is under way.
    pub open spec fn spec_rollback_end(&self) -> Option<FrameNumber> {
        match self.rollback {
            Some(rb) => Some(rb.range.end),
            None => None,
        }
    }

    /// The last frame of the active rollback, if one is under way.
    pub fn rollback_end(&self) -> (r: Option<FrameNumber>)
        ensures
            r == self.spec_rollback_end(),
    {
        match &self.rollback {
            Some(rb) => Some(rb.range.end),
            None => None,
        }
    }

    /// Moves the clock to the next frame, as the game logic does at the start of a frame.
    pub fn advance_frame(&mut self)
        requires
            old(self).clock.spec_frame() < FrameNumber::MAX,
        ensures
            final(self).clock.spec_frame() == old(self).clock.spec_frame() + 1,
            final(self).config == old(self).config,
            final(self).rollback == old(self).rollback,
            final(self).previous_rollback == old(self).previous_rollback,
            final(self).stats == old(self).stats,
            final(self).requests == old(self).requests,
            final(self).timestep == old(self).timestep,
    {
        self.clock.advance(1);
    }

    /// Raises a request to resimulate from `request`'s frame onwards.
    pub fn request_rollback(&mut self, request: RollbackRequest)
        ensures
            final(self).requests@ == old(self).requests@.push(request),
            final(self).config == old(self).config,
            final(self).clock == old(self).clock,
            final(self).rollback == old(self).rollback,
            final(self).previous_rollback == old(self).previous_rollback,
            final(self).stats == old(self).stats,
            final(self).timestep == old(self).timestep,
    {
        self.requests.push(request);
    }

    /// Whether the rollback, if any, has not started resimulating yet.
    pub open spec fn rollback_pending(&self) -> bool {
        match self.rollback {
            None => true,
            Some(rb) => rb.original_period is None,
        }
    }

    /// Reduces the tick's requests to one rollback: a new one from the frame the strategy
    /// picks up to the current frame, or, when a rollback was created this tick and has not
    /// started yet, that rollback with its start moved back to the picked frame if it is
    /// older (a rollback is never shortened). The requests are consumed. Nothing happens
    /// without requests, or while a rollback is under way. The result says whether the
    /// requests were consumed.
    pub fn consolidate(&mut self) -> (consumed: bool)
        ensures
            final(self).config == old(self).config,
            final(self).clock == old(self).clock,
            final(self).previous_rollback == old(self).previous_rollback,
            final(self).stats == old(self).stats,
            final(self).timestep == old(self).timestep,
            consumed == (old(self).rollback_pending() && old(self).requests@.len() > 0),
            consumed ==> exists|frame: FrameNumber|
                {
                    &&& #[trigger] is_consolidated_frame(
                        old(self).requests@,
                        old(self).config.consolidation_strategy,
                        frame,
                    )
                    &&& final(self).rollback == Some(
                        match old(self).rollback {
                            None => Rollback {
                                range: Range { start: frame, end: old(self).clock.spec_frame() },
                                original_period: None,
                                aborted: false,
                            },
                            Some(rb) => Rollback {
                                range: Range {
                                    start: if frame < rb.range.start {
                                        frame
                                    } else {
                                        rb.range.start
                                    },
                                    end: rb.range.end,
                                },
                                ..rb
                            },
                        },
                    )
                    &&& final(self).requests@ == Seq::<RollbackRequest>::empty()
                },
            !consumed ==> final(self).rollback == old(self).rollback && final(self).requests
                == old(self).requests,
    {
        if self.requests.len() == 0 {
            return false;
        }
        let pending = match &self.rollback {
            None => true,
            Some(rb) => rb.original_period.is_none(),
        };
        if !pending {
            return false;
        }
        let fresh = consolidate_rollback_requests(
            &self.requests,
            self.config.consolidation_strategy,
            self.clock.frame(),
        ).unwrap();
        let frame = fresh.range.start;
        match self.rollback.take() {
            None => {
                self.rollback = Some(fresh);
            },
            Some(mut rb) => {
                if frame < rb.range.start {
                    rb.range.start = frame;
                }
                self.rollback = Some(rb);
            },
        }
        self.requests = Vec::new();
        true
    }

    /// What `start_rollback` does, returning `restore_frame`.
    pub open spec fn rollback_started(before: Self, after: Self, restore_frame: Option<FrameNumber>) -> bool {
        &&& after.config == before.config
        &&& after.requests == before.requests
        &&& match before.rollback {
            None => restore_frame is None && after == before,
            Some(rb) => if !within_window(rb.range.start, rb.range.end, before.config.rollback_window) {
                &&& restore_frame is None
                &&& after.rollback is None
                &&& after.previous_rollback == Some(PreviousRollback(Rollback { aborted: true, ..rb }))
                &&& after.stats == (RollbackStats {
                    aborted_rollbacks: incremented(before.stats.aborted_rollbacks),
                    ..before.stats
                })
                &&& after.clock == before.clock
                &&& after.timestep == before.timestep
            } else {
                &&& restore_frame == Some(rewind_frame(rb.range.start))
                &&& after.clock.spec_frame() == rewind_frame(rb.range.start)
                &&& after.rollback == Some(Rollback { original_period: Some(before.timestep), ..rb })
                &&& after.timestep == FAST_FORWARD_TIMESTEP
                &&& after.stats == (RollbackStats {
                    num_rollbacks: incremented(before.stats.num_rollbacks),
                    ..before.stats
                })
                &&& after.previous_rollback == before.previous_rollback
            },
        }
    }

    /// Begins the rollback just created.
    ///
    /// A rollback that reaches `rollback_window` frames back or more, or starts after its
    /// end, is refused: it is kept, marked aborted, as the previous rollback, and nothing is
    /// resimulated. Otherwise the timestep in force is saved and replaced by
    /// `FAST_FORWARD_TIMESTEP`, the rollback is counted, and the clock is rewound to the
    /// frame before the rollback's start; that frame is returned, for the values to be
    /// restored at it.
    pub fn start_rollback(&mut self) -> (restore_frame: Option<FrameNumber>)
        ensures
            Self::rollback_started(*old(self), *final(self), restore_frame),
    {
        let mut rb = match self.rollback.take() {
            Some(rb) => rb,
            None => {
                return None;
            },
        };
        let start = rb.range.start;
        let end = rb.range.end;
        if start > end || end - start >= self.config.rollback_window {
            rb.aborted = true;
            self.previous_rollback = Some(PreviousRollback(rb));
            self.stats.aborted_rollbacks = increment(self.stats.aborted_rollbacks);
            return None;
        }
        rb.original_period = Some(self.timestep);
        self.rollback = Some(rb);
        self.timestep = FAST_FORWARD_TIMESTEP;
        self.stats.num_rollbacks = increment(self.stats.num_rollbacks);
        let frame = if start == 0 {
            0
        } else {
            start - 1
        };
        self.clock.set(frame);
        Some(frame)
    }

    /// Ends the active rollback once the clock is back at its end: the saved timestep is
    /// restored and the rollback is kept as the previous one. The result says whether it
    /// ended.
    pub fn complete_rollback(&mut self) -> (completed: bool)
        ensures
            final(self).config == old(self).config,
            final(self).clock == old(self).clock,
            final(self).stats == old(self).stats,
            final(self).requests == old(self).requests,
            completed == (old(self).rollback matches Some(rb) && rb.range.end
                == old(self).clock.spec_frame()),
            completed ==> {
                let rb = old(self).rollback.unwrap();
                &&& final(self).rollback is None
                &&& final(self).previous_rollback == Some(PreviousRollback(rb))
                &&& final(self).timestep == match rb.original_period {
                    Some(p) => p,
                    None => old(self).timestep,
                }
            },
            !completed ==> *final(self) == *old(self),
    {
        let done = match &self.rollback {
            Some(rb) => rb.range.end == self.clock.frame(),
            None => false,
        };
        if !done {
            return false;
        }
        let rb = self.rollback.take().unwrap();
        if let Some(p) = rb.original_period {
            self.timestep = p;
        }
        self.previous_rollback = Some(PreviousRollback(rb));
        true
    }
}

/// A rollback reaching `rollback_window` frames back or further is never resimulated: starting
/// it rewinds nothing, counts no rollback, and leaves no rollback under way.
pub proof fn lemma_depth_enforced(before: Timewarp, after: Timewarp, restore_frame: Option<FrameNumber>)
    requires
        before.rollback matches Some(rb) && rb.spec_depth() >= before.config.rollback_window,
        Timewarp::rollback_started(before, after, restore_frame),
    ensures
        restore_frame is None,
        after.rollback is None,
        after.previous_rollback matches Some(p) && p.0.aborted,
        after.clock == before.clock,
        after.timestep == before.timestep,
        after.stats.num_rollbacks == before.stats.num_rollbacks,
{
}

} // verus!
