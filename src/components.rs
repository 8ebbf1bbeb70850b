//! Per-entity, per-type stores: the history of predicted values with the frames during which
//! the value existed, and the sparse buffer of authoritative values received from a server.
use vstd::prelude::*;

use crate::error::TimewarpError;
use crate::frame_buffer::FrameBuffer;
use crate::FrameNumber;

verus! {

/// Frames during which a value existed: `(start, end)`, `end` exclusive, open while `None`.
pub type FrameRange = (FrameNumber, Option<FrameNumber>);

/// Whether `range` covers `frame`.
pub open spec fn range_contains(range: FrameRange, frame: int) -> bool {
    &&& range.0 <= frame
    &&& match range.1 {
        Some(end) => frame < end,
        None => true,
    }
}

/// Alive ranges are sorted and do not overlap, no closed range ends before it starts, and
/// only the last one may be open.
pub open spec fn ranges_well_formed(ranges: Seq<FrameRange>) -> bool {
    &&& forall|i: int|
        0 <= i < ranges.len() ==> match (#[trigger] ranges[i]).1 {
            Some(end) => ranges[i].0 <= end,
            None => true,
        }
    &&& forall|i: int|
        0 <= i < ranges.len() - 1 ==> match (#[trigger] ranges[i]).1 {
            Some(end) => end <= ranges[i + 1].0,
            None => false,
        }
}

/// Whether some range of `ranges` covers `frame`.
pub open spec fn ranges_cover(ranges: Seq<FrameRange>, frame: int) -> bool {
    exists|i: int| 0 <= i < ranges.len() && range_contains(#[trigger] ranges[i], frame)
}

/// The ranges after a birth at `frame`, inserted at position `i`: open when no recorded range
/// starts later, otherwise ending where the next recorded range starts.
pub open spec fn ranges_with_birth(ranges: Seq<FrameRange>, frame: int, i: int) -> Seq<FrameRange> {
    ranges.insert(
        i,
        (
            frame as FrameNumber,
            if i < ranges.len() {
                Some(ranges[i].0)
            } else {
                None
            },
        ),
    )
}

/// The alive ranges after reporting a birth at `frame`: unchanged when a range already covers
/// `frame`, otherwise with a range for `frame` inserted at its sorted position.
pub open spec fn birth_recorded(before: Seq<FrameRange>, after: Seq<FrameRange>, frame: int) -> bool {
    if ranges_cover(before, frame) {
        after == before
    } else {
        exists|i: int|
            {
                &&& 0 <= i <= before.len()
                &&& (i == 0 || before[i - 1].0 <= frame)
                &&& (i == before.len() || frame < before[i].0)
                &&& after == ranges_with_birth(before, frame, i)
            }
    }
}

/// The alive ranges after reporting a death at `frame`: unchanged when no range covers
/// `frame`, otherwise with the covering range ending at `frame`.
pub open spec fn death_recorded(before: Seq<FrameRange>, after: Seq<FrameRange>, frame: int) -> bool {
    if ranges_cover(before, frame) {
        exists|i: int|
            {
                &&& 0 <= i < before.len()
                &&& range_contains(before[i], frame)
                &&& after == before.update(i, (before[i].0, Some(frame as FrameNumber)))
            }
    } else {
        after == before
    }
}

/// In well-formed ranges, an earlier range is closed and ends no later than a later one starts.
pub proof fn lemma_ranges_ordered(ranges: Seq<FrameRange>, i: int, j: int)
    requires
        ranges_well_formed(ranges),
        0 <= i < j < ranges.len(),
    ensures
        ranges[i].1 is Some,
        ranges[i].1.unwrap() <= ranges[j].0,
    decreases j - i,
{
    if j > i + 1 {
        lemma_ranges_ordered(ranges, i, j - 1);
        let k = j - 1;
        assert(ranges[k].1 is Some);
        assert(ranges[k].0 <= ranges[k].1.unwrap());
    }
}

/// In well-formed ranges at most one range covers a frame: the alive ranges never overlap.
pub proof fn lemma_ranges_disjoint(ranges: Seq<FrameRange>, frame: int, i: int, j: int)
    requires
        ranges_well_formed(ranges),
        0 <= i < ranges.len(),
        0 <= j < ranges.len(),
        range_contains(ranges[i], frame),
        range_contains(ranges[j], frame),
    ensures
        i == j,
{
    if i < j {
        lemma_ranges_ordered(ranges, i, j);
    } else if j < i {
        lemma_ranges_ordered(ranges, j, i);
    }
}

/// Buffers component values for the last few frames, and the frames during which the
/// component existed.
pub struct ComponentHistory<T> {
    values: FrameBuffer<T>,
    alive_ranges: Vec<FrameRange>,
    most_recent_authoritative_frame: FrameNumber,
    correction_logging_enabled: bool,
}

impl<T> ComponentHistory<T> {
    /// Well-formedness: a well-formed buffer and well-formed alive ranges.
    pub closed spec fn wf(&self) -> bool {
        &&& self.values.wf()
        &&& ranges_well_formed(self.alive_ranges@)
    }

    /// The buffered values.
    pub closed spec fn spec_values(&self) -> FrameBuffer<T> {
        self.values
    }

    /// The alive ranges, oldest first.
    pub closed spec fn spec_ranges(&self) -> Seq<FrameRange> {
        self.alive_ranges@
    }

    pub closed spec fn spec_authoritative_frame(&self) -> FrameNumber {
        self.most_recent_authoritative_frame
    }

    pub closed spec fn spec_correction_logging(&self) -> bool {
        self.correction_logging_enabled
    }

    /// The value recorded for `frame`.
    pub open spec fn spec_at(&self, frame: int) -> Option<T> {
        self.spec_values().spec_at(frame)
    }

    /// Whether the component existed at `frame`.
    pub open spec fn spec_alive(&self, frame: int) -> bool {
        ranges_cover(self.spec_ranges(), frame)
    }

    /// A history of `len` frames for a component born at `birth_frame` with `component`.
    pub fn with_capacity(len: usize, birth_frame: FrameNumber, component: T) -> (r: Self)
        requires
            len >= 1,
        ensures
            r.wf(),
            r.spec_values().spec_capacity() == len,
            r.spec_values().spec_newest() == birth_frame,
            r.spec_at(birth_frame as int) == if birth_frame >= 1 {
                Some(component)
            } else {
                None
            },
            forall|f: int| f != birth_frame ==> (#[trigger] r.spec_at(f)).is_none(),
            r.spec_ranges() == seq![(birth_frame, None::<FrameNumber>)],
            r.spec_authoritative_frame() == birth_frame,
            !r.spec_correction_logging(),
    {
        let mut values = FrameBuffer::with_capacity(len);
        let _ = values.insert(birth_frame, component);
        let r = ComponentHistory {
            values,
            alive_ranges: vec![(birth_frame, None)],
            most_recent_authoritative_frame: birth_frame,
            correction_logging_enabled: false,
        };
        assert(r.spec_ranges() =~= seq![(birth_frame, None::<FrameNumber>)]);
        r
    }

    /// The buffered values.
    pub fn values(&self) -> (r: &FrameBuffer<T>)
        ensures
            *r == self.spec_values(),
    {
        &self.values
    }

    /// The alive ranges, oldest first.
    pub fn alive_ranges(&self) -> (r: &Vec<FrameRange>)
        ensures
            r@ == self.spec_ranges(),
    {
        &self.alive_ranges
    }

    /// The frame of the last authoritative value written with `insert_authoritative`.
    pub fn most_recent_authoritative_frame(&self) -> (r: FrameNumber)
        ensures
            r == self.spec_authoritative_frame(),
    {
        self.most_recent_authoritative_frame
    }

    pub fn correction_logging_enabled(&self) -> (r: bool)
        ensures
            r == self.spec_correction_logging(),
    {
        self.correction_logging_enabled
    }

    /// Turns on the recording of corrections when a rollback replaces a predicted value.
    pub fn enable_correction_logging(&mut self)
        requires
            old(self).wf(),
        ensures
            final(self).wf(),
            final(self).spec_correction_logging(),
            final(self).spec_values() == old(self).spec_values(),
            final(self).spec_ranges() == old(self).spec_ranges(),
            final(self).spec_authoritative_frame() == old(self).spec_authoritative_frame(),
    {
        self.correction_logging_enabled = true;
    }

    /// The value recorded for `frame`, if any.
    pub fn at_frame(&self, frame: FrameNumber) -> (r: Option<&T>)
        requires
            self.wf(),
        ensures
            match r {
                Some(v) => self.spec_at(frame as int) == Some(*v),
                None => self.spec_at(frame as int).is_none(),
            },
    {
        self.values.get(frame)
    }

    /// Records `val` for `frame`; refused with `FrameTooOld` below the retained window.
    pub fn insert(&mut self, frame: FrameNumber, val: T) -> (r: Result<(), TimewarpError>)
        requires
            old(self).wf(),
        ensures
            final(self).wf(),
            FrameBuffer::inserted(old(self).spec_values(), frame as int, val, final(self).spec_values(), r),
            final(self).spec_ranges() == old(self).spec_ranges(),
            final(self).spec_authoritative_frame() == old(self).spec_authoritative_frame(),
            final(self).spec_correction_logging() == old(self).spec_correction_logging(),
            r is Err ==> *final(self) == *old(self),
    {
        self.values.insert(frame, val)
    }

    /// Records an authoritative `val` for `frame`, and remembers `frame` as the most recent
    /// authoritative one; a refused write changes nothing.
    pub fn insert_authoritative(&mut self, frame: FrameNumber, val: T) -> (r: Result<(), TimewarpError>)
        requires
            old(self).wf(),
        ensures
            final(self).wf(),
            FrameBuffer::inserted(old(self).spec_values(), frame as int, val, final(self).spec_values(), r),
            final(self).spec_ranges() == old(self).spec_ranges(),
            final(self).spec_authoritative_frame() == if r is Ok {
                frame
            } else {
                old(self).spec_authoritative_frame()
            },
            final(self).spec_correction_logging() == old(self).spec_correction_logging(),
            r is Err ==> *final(self) == *old(self),
    {
        let r = self.values.insert(frame, val);
        if r.is_ok() {
            self.most_recent_authoritative_frame = frame;
        }
        r
    }

    /// Removes the values buffered for `frame` and every later frame.
    pub fn remove_frame_and_beyond(&mut self, frame: FrameNumber)
        requires
            old(self).wf(),
        ensures
            final(self).wf(),
            forall|f: int|
                #[trigger] final(self).spec_at(f) == if f < frame {
                    old(self).spec_at(f)
                } else {
                    None
                },
            final(self).spec_ranges() == old(self).spec_ranges(),
            final(self).spec_authoritative_frame() == old(self).spec_authoritative_frame(),
            final(self).spec_correction_logging() == old(self).spec_correction_logging(),
    {
        self.values.remove_entries_newer_than(frame.saturating_sub(1));
        proof {
            assert forall|f: int|
                #[trigger] self.spec_at(f) == if f < frame {
                    old(self).spec_at(f)
                } else {
                    None
                } by {
                if frame == 0 && f <= 0 {
                    crate::frame_buffer::lemma_outside_window(old(self).spec_values(), f);
                }
            }
        }
    }

    /// Position of the range covering `frame`, if any.
    fn covering_range(&self, frame: FrameNumber) -> (r: Option<usize>)
        ensures
            match r {
                Some(i) => i < self.spec_ranges().len() && range_contains(
                    self.spec_ranges()[i as int],
                    frame as int,
                ),
                None => !self.spec_alive(frame as int),
            },
    {
        let mut i: usize = 0;
        while i < self.alive_ranges.len()
            invariant
                i <= self.alive_ranges@.len(),
                forall|k: int| 0 <= k < i ==> !range_contains(#[trigger] self.alive_ranges@[k], frame as int),
            decreases self.alive_ranges@.len() - i,
        {
            let (start, maybe_end) = self.alive_ranges[i];
            let covered = match maybe_end {
                Some(end) => start <= frame && frame < end,
                None => start <= frame,
            };
            if covered {
                return Some(i);
            }
            i = i + 1;
        }
        None
    }

    /// Whether the component existed at `frame`.
    pub fn alive_at_frame(&self, frame: FrameNumber) -> (r: bool)
        ensures
            r == self.spec_alive(frame as int),
    {
        self.covering_range(frame).is_some()
    }

    /// Records that the component came into existence at `frame`.
    ///
    /// A birth while already alive at `frame` is tolerated and changes nothing. Otherwise a
    /// range starting at `frame` is added in order: open when no recorded range starts later,
    /// otherwise running up to the start of the next recorded range.
    pub fn report_birth_at_frame(&mut self, frame: FrameNumber)
        requires
            old(self).wf(),
        ensures
            final(self).wf(),
            birth_recorded(old(self).spec_ranges(), final(self).spec_ranges(), frame as int),
            final(self).spec_alive(frame as int),
            final(self).spec_values() == old(self).spec_values(),
            final(self).spec_authoritative_frame() == old(self).spec_authoritative_frame(),
            final(self).spec_correction_logging() == old(self).spec_correction_logging(),
    {
        if self.alive_at_frame(frame) {
            return ;
        }
        let ghost before = self.alive_ranges@;
        let mut i: usize = 0;
        while i < self.alive_ranges.len() && self.alive_ranges[i].0 <= frame
            invariant
                i <= self.alive_ranges@.len(),
                self.alive_ranges@ == before,
                forall|k: int| 0 <= k < i ==> (#[trigger] before[k]).0 <= frame,
            decreases self.alive_ranges@.len() - i,
        {
            i = i + 1;
        }
        let end = if i < self.alive_ranges.len() {
            Some(self.alive_ranges[i].0)
        } else {
            None
        };
        self.alive_ranges.insert(i, (frame, end));
        proof {
            let after = self.alive_ranges@;
            assert(after == ranges_with_birth(before, frame as int, i as int));
            if i > 0 {
                let p = i - 1;
                assert(!range_contains(before[p as int], frame as int));
                if p + 1 < before.len() {
                    assert(before[p as int].1 is Some);
                }
            }
            assert forall|k: int| 0 <= k < after.len() - 1 implies match (#[trigger] after[k]).1 {
                Some(e) => e <= after[k + 1].0,
                None => false,
            } by {
                if k < i - 1 {
                    assert(after[k] == before[k]);
                    assert(after[k + 1] == before[k + 1]);
                } else if k == i - 1 {
                    assert(after[k] == before[k]);
                } else if k == i {
                } else {
                    assert(after[k] == before[k - 1]);
                    assert(after[k + 1] == before[k]);
                }
            }
            assert forall|k: int| 0 <= k < after.len() implies match (#[trigger] after[k]).1 {
                Some(e) => after[k].0 <= e,
                None => true,
            } by {
                if k < i {
                    assert(after[k] == before[k]);
                } else if k > i {
                    assert(after[k] == before[k - 1]);
                }
            }
            assert(range_contains(after[i as int], frame as int));
        }
    }

    /// Records that the component ceased to exist at `frame`: the range covering `frame` now
    /// ends there. Reporting a death while not alive at `frame` is tolerated and changes
    /// nothing (stale removal notices are normal while a rollback replays frames).
    pub fn report_death_at_frame(&mut self, frame: FrameNumber)
        requires
            old(self).wf(),
        ensures
            final(self).wf(),
            death_recorded(old(self).spec_ranges(), final(self).spec_ranges(), frame as int),
            !final(self).spec_alive(frame as int),
            final(self).spec_values() == old(self).spec_values(),
            final(self).spec_authoritative_frame() == old(self).spec_authoritative_frame(),
            final(self).spec_correction_logging() == old(self).spec_correction_logging(),
    {
        let ghost before = self.alive_ranges@;
        if let Some(i) = self.covering_range(frame) {
            let start = self.alive_ranges[i].0;
            self.alive_ranges.set(i, (start, Some(frame)));
            proof {
                let after = self.alive_ranges@;
                assert(range_contains(before[i as int], frame as int));
                if i > 0 {
                    let p = (i - 1) as int;
                    assert(before[p].1 is Some);
                }
                assert forall|k: int| 0 <= k < after.len() - 1 implies match (#[trigger] after[k]).1 {
                    Some(e) => e <= after[k + 1].0,
                    None => false,
                } by {
                    if k == i {
                        assert(before[k].1 is Some);
                    }
                }
                assert forall|k: int| 0 <= k < after.len() implies match (#[trigger] after[k]).1 {
                    Some(e) => after[k].0 <= e,
                    None => true,
                } by {
                    if k != i {
                        assert(after[k] == before[k]);
                    }
                }
                assert forall|k: int| 0 <= k < after.len() implies !range_contains(
                    #[trigger] after[k],
                    frame as int,
                ) by {
                    if k != i && range_contains(before[k], frame as int) {
                        lemma_ranges_disjoint(before, frame as int, k, i as int);
                    }
                }
            }
        }
    }
}

/// What a well-formed history guarantees: a well-formed buffer of at least one frame, and
/// well-formed alive ranges.
pub proof fn lemma_history_wf<T>(h: ComponentHistory<T>)
    requires
        h.wf(),
    ensures
        h.spec_values().wf(),
        h.spec_values().spec_capacity() >= 1,
        0 <= h.spec_values().spec_newest() <= FrameNumber::MAX,
        ranges_well_formed(h.spec_ranges()),
{
    crate::frame_buffer::lemma_buffer_wf(h.spec_values());
}

/// Whatever alive ranges a well-formed history holds, they are sorted and pairwise disjoint,
/// and the history reports the component alive at a frame exactly when one range covers it.
pub proof fn lemma_alive_ranges_invariant<T>(h: ComponentHistory<T>, frame: int, i: int, j: int)
    requires
        h.wf(),
        0 <= i < j < h.spec_ranges().len(),
    ensures
        h.spec_ranges()[i].1 is Some,
        h.spec_ranges()[i].0 <= h.spec_ranges()[i].1.unwrap() <= h.spec_ranges()[j].0,
        !(range_contains(h.spec_ranges()[i], frame) && range_contains(h.spec_ranges()[j], frame)),
        h.spec_alive(frame) <==> exists|k: int|
            0 <= k < h.spec_ranges().len() && range_contains(#[trigger] h.spec_ranges()[k], frame),
{
    lemma_ranges_ordered(h.spec_ranges(), i, j);
    if range_contains(h.spec_ranges()[i], frame) && range_contains(h.spec_ranges()[j], frame) {
        lemma_ranges_disjoint(h.spec_ranges(), frame, i, j);
    }
}

/// What a well-formed snapshot buffer guarantees: a well-formed buffer of at least one frame.
pub proof fn lemma_snapshot_wf<T>(s: ServerSnapshot<T>)
    requires
        s.wf(),
    ensures
        s.spec_values().wf(),
        s.spec_values().spec_capacity() >= 1,
        0 <= s.spec_values().spec_newest() <= FrameNumber::MAX,
{
    crate::frame_buffer::lemma_buffer_wf(s.spec_values());
}

/// Buffers the last few authoritative values received from the server.
pub struct ServerSnapshot<T> {
    values: FrameBuffer<T>,
}

impl<T> ServerSnapshot<T> {
    pub closed spec fn wf(&self) -> bool {
        self.values.wf()
    }

    /// The buffered authoritative values.
    pub closed spec fn spec_values(&self) -> FrameBuffer<T> {
        self.values
    }

    pub fn with_capacity(len: usize) -> (r: Self)
        requires
            len >= 1,
        ensures
            r.wf(),
            r.spec_values().spec_capacity() == len,
            r.spec_values().spec_newest() == 0,
            forall|f: int| (#[trigger] r.spec_values().spec_at(f)).is_none(),
    {
        ServerSnapshot { values: FrameBuffer::with_capacity(len) }
    }

    /// The buffered authoritative values.
    pub fn values(&self) -> (r: &FrameBuffer<T>)
        ensures
            *r == self.spec_values(),
    {
        &self.values
    }

    /// The authoritative value for `frame`, if one was received.
    pub fn at_frame(&self, frame: FrameNumber) -> (r: Option<&T>)
        requires
            self.wf(),
        ensures
            match r {
                Some(v) => self.spec_values().spec_at(frame as int) == Some(*v),
                None => self.spec_values().spec_at(frame as int).is_none(),
            },
    {
        self.values.get(frame)
    }

    /// Stores an authoritative `val` for `frame`; refused with `FrameTooOld` below the window.
    pub fn insert(&mut self, frame: FrameNumber, val: T) -> (r: Result<(), TimewarpError>)
        requires
            old(self).wf(),
        ensures
            final(self).wf(),
            FrameBuffer::inserted(old(self).spec_values(), frame as int, val, final(self).spec_values(), r),
    {
        self.values.insert(frame, val)
    }

    /// The newest frame holding an authoritative value, or `None` before the first one.
    pub fn newest_snap_frame(&self) -> (r: Option<FrameNumber>)
        ensures
            r == if self.spec_values().spec_newest() == 0 {
                None
            } else {
                Some(self.spec_values().spec_newest() as FrameNumber)
            },
    {
        let nf = self.values.newest_frame();
        if nf == 0 {
            None
        } else {
            Some(nf)
        }
    }
}

} // verus!
