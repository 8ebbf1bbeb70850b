//! A short buffer of the last few values of `T`, indexed by frame number.
//!
//! Writing below the oldest retained frame is refused. Writing past the newest frame slides
//! the window forward and fills the skipped frames with explicit empty slots.
use std::collections::VecDeque;
use std::ops::Range;
use vstd::prelude::*;

use crate::error::TimewarpError;
use crate::FrameNumber;

verus! {

/// The oldest frame a buffer of `capacity` slots keeps when its newest frame is `newest`.
/// Frame 0 is never stored, so the window never reaches below 1.
pub open spec fn oldest_of(newest: int, capacity: nat) -> int {
    if newest >= capacity {
        newest - capacity + 1
    } else {
        1
    }
}

/// Values for new frames are pushed at the front of the deque: slot `i` holds the value for
/// frame `front_frame - i`.
pub struct FrameBuffer<T> {
    /// `None` marks a frame in the window that holds no value.
    entries: VecDeque<Option<T>>,
    /// The newest frame in the window; 0 while nothing was ever stored.
    front_frame: FrameNumber,
    capacity: usize,
}

impl<T> FrameBuffer<T> {
    /// Well-formedness: the deque never holds more slots than the capacity, nor a slot for
    /// frame 0 or below.
    pub closed spec fn wf(&self) -> bool {
        &&& self.capacity >= 1
        &&& self.entries@.len() <= self.capacity
        &&& self.entries@.len() <= self.front_frame
    }

    /// How many frames the buffer retains.
    pub closed spec fn spec_capacity(&self) -> nat {
        self.capacity as nat
    }

    /// The newest frame of the window (0 when empty).
    pub closed spec fn spec_newest(&self) -> int {
        self.front_frame as int
    }

    /// The oldest frame of the window.
    pub open spec fn spec_oldest(&self) -> int {
        oldest_of(self.spec_newest(), self.spec_capacity())
    }

    /// The value stored for `frame`; `None` for an empty slot and for a frame out of the window.
    pub closed spec fn spec_at(&self, frame: int) -> Option<T> {
        let i = self.front_frame - frame;
        if self.spec_oldest() <= frame <= self.front_frame && i < self.entries@.len() {
            self.entries@[i]
        } else {
            None
        }
    }

    /// What `insert(frame, value)` does: refuse a frame below the window and leave the buffer
    /// as it was, or store the value, slide the window up to `frame` if it lies beyond the
    /// newest frame, and keep every other frame that is still in the window.
    pub open spec fn inserted(
        before: Self,
        frame: int,
        value: T,
        after: Self,
        r: Result<(), TimewarpError>,
    ) -> bool {
        &&& after.spec_capacity() == before.spec_capacity()
        &&& if frame < before.spec_oldest() {
            &&& r == Err::<(), TimewarpError>(TimewarpError::FrameTooOld)
            &&& after == before
        } else {
            &&& r == Ok::<(), TimewarpError>(())
            &&& after.spec_newest() == if frame > before.spec_newest() {
                frame
            } else {
                before.spec_newest()
            }
            &&& after.spec_at(frame) == Some(value)
            &&& forall|f: int|
                f != frame ==> #[trigger] after.spec_at(f) == if f >= after.spec_oldest() {
                    before.spec_at(f)
                } else {
                    None
                }
        }
    }

    pub fn with_capacity(len: usize) -> (r: Self)
        requires
            len >= 1,
        ensures
            r.wf(),
            r.spec_capacity() == len,
            r.spec_newest() == 0,
            forall|f: int| (#[trigger] r.spec_at(f)).is_none(),
    {
        FrameBuffer { entries: VecDeque::with_capacity(len), front_frame: 0, capacity: len }
    }

    /// The frames of the window, as a half-open range.
    pub fn current_range(&self) -> (r: Range<FrameNumber>)
        requires
            self.wf(),
            self.spec_newest() < FrameNumber::MAX,
        ensures
            r.start == self.spec_oldest(),
            r.end == self.spec_newest() + 1,
    {
        Range { start: self.oldest_frame(), end: self.newest_frame() + 1 }
    }

    /// Greatest frame number with a buffered value.
    pub fn newest_frame(&self) -> (r: FrameNumber)
        ensures
            r == self.spec_newest(),
    {
        self.front_frame
    }

    /// Smallest frame number that can still be written.
    pub fn oldest_frame(&self) -> (r: FrameNumber)
        requires
            self.wf(),
        ensures
            r == self.spec_oldest(),
    {
        if self.front_frame as usize >= self.capacity {
            self.front_frame - (self.capacity - 1) as FrameNumber
        } else {
            1
        }
    }

    /// Slot index of `frame`, when `frame` lies in the window.
    fn index(&self, frame: FrameNumber) -> (r: Option<usize>)
        requires
            self.wf(),
        ensures
            r == if self.spec_oldest() <= frame <= self.spec_newest() {
                Some((self.spec_newest() - frame) as usize)
            } else {
                None::<usize>
            },
    {
        if frame > self.front_frame || frame < self.oldest_frame() {
            None
        } else {
            Some((self.front_frame - frame) as usize)
        }
    }

    /// The value at `frame`, or `None` for an empty slot or a frame outside the window.
    pub fn get(&self, frame: FrameNumber) -> (r: Option<&T>)
        requires
            self.wf(),
        ensures
            match r {
                Some(v) => self.spec_at(frame as int) == Some(*v),
                None => self.spec_at(frame as int).is_none(),
            },
    {
        match self.index(frame) {
            Some(i) => {
                if i < self.entries.len() {
                    self.entries[i].as_ref()
                } else {
                    None
                }
            },
            None => None,
        }
    }

    /// Drops every value for a frame newer than `frame`; the newest frame becomes `frame`.
    pub fn remove_entries_newer_than(&mut self, frame: FrameNumber)
        requires
            old(self).wf(),
        ensures
            final(self).wf(),
            final(self).spec_capacity() == old(self).spec_capacity(),
            final(self).spec_newest() == if frame < old(self).spec_newest() {
                frame as int
            } else {
                old(self).spec_newest()
            },
            forall|f: int|
                #[trigger] final(self).spec_at(f) == if f <= frame {
                    old(self).spec_at(f)
                } else {
                    None
                },
    {
        if frame >= self.front_frame {
            return ;
        }
        let ghost before = *self;
        let drop = self.front_frame - frame;
        let mut k: FrameNumber = 0;
        while k < drop && self.entries.len() > 0
            invariant
                k <= drop,
                drop == before.front_frame - frame,
                self.capacity == before.capacity,
                self.front_frame == before.front_frame,
                k <= before.entries@.len(),
                self.entries@ == before.entries@.subrange(k as int, before.entries@.len() as int),
            decreases drop - k,
        {
            self.entries.pop_front();
            k = k + 1;
        }
        self.front_frame = frame;
        proof {
            assert forall|f: int|
                #[trigger] self.spec_at(f) == if f <= frame {
                    before.spec_at(f)
                } else {
                    None
                } by {
                if f <= frame && self.spec_oldest() <= f && frame - f < self.entries@.len() {
                    assert(self.entries@[frame - f] == before.entries@[before.front_frame - f]);
                }
            }
        }
    }

    /// Stores `value` for `frame`.
    ///
    /// A frame below the window is refused with `FrameTooOld`. A frame inside the window is
    /// overwritten in place. A frame past the newest one slides the window forward: the frames
    /// in between become empty slots and the oldest slots fall out.
    pub fn insert(&mut self, frame: FrameNumber, value: T) -> (r: Result<(), TimewarpError>)
        requires
            old(self).wf(),
        ensures
            final(self).wf(),
            Self::inserted(*old(self), frame as int, value, *final(self), r),
    {
        let ghost before = *self;
        if frame < self.oldest_frame() {
            return Err(TimewarpError::FrameTooOld);
        }
        if frame <= self.front_frame {
            let i = (self.front_frame - frame) as usize;
            while self.entries.len() < i
                invariant
                    i < self.capacity,
                    i <= self.front_frame,
                    self.capacity == before.capacity,
                    self.front_frame == before.front_frame,
                    before.entries@.len() <= self.entries@.len() <= i || self.entries@
                        == before.entries@,
                    self.entries@.len() >= before.entries@.len(),
                    forall|j: int|
                        0 <= j < self.entries@.len() ==> #[trigger] self.entries@[j] == if j
                            < before.entries@.len() {
                            before.entries@[j]
                        } else {
                            None
                        },
                decreases i - self.entries@.len(),
            {
                self.entries.push_back(None);
            }
            if i < self.entries.len() {
                self.entries.remove(i);
                self.entries.insert(i, Some(value));
            } else {
                self.entries.push_back(Some(value));
            }
            proof {
                assert forall|f: int| f != frame implies #[trigger] self.spec_at(f) == if f
                    >= self.spec_oldest() {
                    before.spec_at(f)
                } else {
                    None
                } by {
                    let j = self.front_frame - f;
                    if self.spec_oldest() <= f <= self.front_frame && j < self.entries@.len() {
                        assert(self.entries@[j] == if j < before.entries@.len() {
                            before.entries@[j]
                        } else {
                            None
                        });
                    }
                }
            }
            Ok(())
        } else {
            let gap = frame - self.front_frame - 1;
            if gap as usize >= self.capacity {
                self.entries.clear();
                self.entries.push_front(Some(value));
            } else {
                let mut k: FrameNumber = 0;
                while k < gap
                    invariant
                        k <= gap,
                        self.capacity == before.capacity,
                        self.front_frame == before.front_frame,
                        self.entries@ == Seq::new(k as nat, |j: int| None::<T>) + before.entries@,
                    decreases gap - k,
                {
                    self.entries.push_front(None);
                    k = k + 1;
                    assert(self.entries@ =~= Seq::new(k as nat, |j: int| None::<T>) + before.entries@);
                }
                self.entries.push_front(Some(value));
                self.entries.truncate(self.capacity);
            }
            self.front_frame = frame;
            proof {
                assert forall|f: int| f != frame implies #[trigger] self.spec_at(f) == if f
                    >= self.spec_oldest() {
                    before.spec_at(f)
                } else {
                    None
                } by {
                    let j = frame - f;
                    if self.spec_oldest() <= f <= frame && j < self.entries@.len() && gap < self.capacity {
                        let full = seq![Some(value)] + (Seq::new(gap as nat, |j: int| None::<T>) + before.entries@);
                        assert(self.entries@[j] == full[j]);
                    }
                }
            }
            Ok(())
        }
    }
}

/// What a well-formed buffer guarantees: at least one frame of capacity, and a newest frame
/// that is a frame number.
pub proof fn lemma_buffer_wf<T>(fb: FrameBuffer<T>)
    requires
        fb.wf(),
    ensures
        fb.spec_capacity() >= 1,
        0 <= fb.spec_newest() <= FrameNumber::MAX,
        fb.spec_oldest() >= 1,
{
}

/// Nothing is stored outside the window.
pub proof fn lemma_outside_window<T>(fb: FrameBuffer<T>, frame: int)
    requires
        frame < fb.spec_oldest() || frame > fb.spec_newest(),
    ensures
        fb.spec_at(frame).is_none(),
{
}

/// Writing a frame inside the window and reading it back gives the value written.
pub proof fn lemma_round_trip<T>(
    before: FrameBuffer<T>,
    frame: int,
    value: T,
    after: FrameBuffer<T>,
    r: Result<(), TimewarpError>,
)
    requires
        before.wf(),
        before.spec_oldest() <= frame <= before.spec_newest(),
        FrameBuffer::inserted(before, frame, value, after, r),
    ensures
        r is Ok,
        after.spec_at(frame) == Some(value),
{
}

proof fn lemma_ascending(frames: Seq<FrameNumber>, i: int)
    requires
        0 <= i < frames.len(),
        forall|k: int| 0 <= k < frames.len() - 1 ==> #[trigger] frames[k] < frames[k + 1],
    ensures
        frames[i] >= frames[0] + i,
    decreases i,
{
    if i > 0 {
        lemma_ascending(frames, i - 1);
        assert(frames[i - 1] < frames[i]);
    }
}

proof fn lemma_capacity_kept<T>(
    states: Seq<FrameBuffer<T>>,
    frames: Seq<FrameNumber>,
    values: Seq<T>,
    results: Seq<Result<(), TimewarpError>>,
    i: int,
)
    requires
        0 <= i < states.len(),
        states.len() == frames.len() + 1,
        values.len() == frames.len(),
        results.len() == frames.len(),
        forall|k: int|
            0 <= k < frames.len() ==> #[trigger] FrameBuffer::inserted(
                states[k],
                frames[k] as int,
                values[k],
                states[k + 1],
                results[k],
            ),
    ensures
        states[i].spec_capacity() == states[0].spec_capacity(),
    decreases i,
{
    if i > 0 {
        lemma_capacity_kept(states, frames, values, results, i - 1);
        let j = i - 1;
        assert(FrameBuffer::inserted(states[j], frames[j] as int, values[j], states[j + 1], results[j]));
    }
}

/// Inserting `capacity + 1` strictly ascending frames evicts the first of them: afterwards
/// that frame reads as empty.
pub proof fn lemma_eviction<T>(
    states: Seq<FrameBuffer<T>>,
    frames: Seq<FrameNumber>,
    values: Seq<T>,
    results: Seq<Result<(), TimewarpError>>,
)
    requires
        states.len() == frames.len() + 1,
        values.len() == frames.len(),
        results.len() == frames.len(),
        frames.len() == states[0].spec_capacity() + 1,
        forall|k: int| 0 <= k < frames.len() - 1 ==> #[trigger] frames[k] < frames[k + 1],
        forall|k: int|
            0 <= k < frames.len() ==> #[trigger] FrameBuffer::inserted(
                states[k],
                frames[k] as int,
                values[k],
                states[k + 1],
                results[k],
            ),
    ensures
        states[frames.len() as int].spec_at(frames[0] as int).is_none(),
{
    let n = frames.len() as int;
    lemma_ascending(frames, n - 1);
    lemma_capacity_kept(states, frames, values, results, n - 1);
    lemma_capacity_kept(states, frames, values, results, n);
    let j = n - 1;
    assert(FrameBuffer::inserted(states[j], frames[j] as int, values[j], states[j + 1], results[j]));
}

/// Writing `k > 1` frames past the newest one leaves every frame in between empty and the
/// new frame holding the value.
pub proof fn lemma_gap_fill<T>(
    before: FrameBuffer<T>,
    k: int,
    value: T,
    after: FrameBuffer<T>,
    r: Result<(), TimewarpError>,
)
    requires
        before.wf(),
        k > 1,
        FrameBuffer::inserted(before, before.spec_newest() + k, value, after, r),
    ensures
        r is Ok,
        after.spec_at(before.spec_newest() + k) == Some(value),
        forall|f: int|
            before.spec_newest() < f < before.spec_newest() + k ==> (#[trigger] after.spec_at(
                f,
            )).is_none(),
{
    assert forall|f: int|
        before.spec_newest() < f < before.spec_newest() + k implies (#[trigger] after.spec_at(
            f,
        )).is_none() by {
        assert(before.spec_at(f).is_none());
    }
}

} // verus!
