//! A fixed number of slots indexed by 16-bit sequence numbers that wrap around.
//!
//! Sequence `s` lives in slot `s % len`; a slot remembers which sequence it holds, so a stale
//! sequence sharing the slot reads as empty.
use std::ops::Range;
use vstd::prelude::*;

use crate::error::TimewarpError;

verus! {

/// The value a slot's sequence tag holds when the slot is empty: no `u16` equals it.
pub const EMPTY_SLOT: u32 = 0xFFFF_FFFF;

/// `a + b` modulo 2^16.
pub open spec fn seq_add(a: u16, b: u16) -> u16 {
    if a + b > u16::MAX {
        (a + b - 0x10000) as u16
    } else {
        (a + b) as u16
    }
}

/// `a - b` modulo 2^16.
pub open spec fn seq_sub(a: u16, b: u16) -> u16 {
    if a - b < 0 {
        (a - b + 0x10000) as u16
    } else {
        (a - b) as u16
    }
}

/// Whether `s1` is newer than `s2`, accounting for wrap-around: ahead by at most half the
/// sequence space.
pub open spec fn seq_greater(s1: u16, s2: u16) -> bool {
    (s1 > s2 && s1 - s2 <= 32768) || (s1 < s2 && s2 - s1 > 32768)
}

/// Whether some sequence in `start..end` (counted without wrapping) uses slot `slot`.
pub open spec fn range_hits_slot(start: int, end: int, slot: int, len: int) -> bool {
    exists|i: int| start <= i < end && #[trigger] (i % len) == slot
}

proof fn lemma_slot_bounds(s: u16, len: int)
    requires
        len >= 1,
    ensures
        0 <= s as int % len < len,
        (0int) % len == 0,
{
    vstd::arithmetic::div_mod::lemma_mod_pos_bound(s as int, len);
    vstd::arithmetic::div_mod::lemma_small_mod(0nat, len as nat);
}

pub struct SequenceBuffer<T> {
    entries: Vec<Option<T>>,
    entry_sequences: Vec<u32>,
    sequence: u16,
}

impl<T> SequenceBuffer<T> {
    /// Well-formedness: one tag per slot, between 1 and 2^16 - 1 slots.
    pub closed spec fn wf(&self) -> bool {
        &&& 1 <= self.entries@.len() <= u16::MAX
        &&& self.entry_sequences@.len() == self.entries@.len()
    }

    /// The number of slots.
    pub closed spec fn spec_len(&self) -> int {
        self.entries@.len() as int
    }

    /// The next sequence expected.
    pub closed spec fn spec_sequence(&self) -> u16 {
        self.sequence
    }

    /// The slot of sequence `s`.
    pub open spec fn slot_of(&self, s: u16) -> int {
        s as int % self.spec_len()
    }

    /// The value in slot `i`, whatever sequence it is tagged with.
    pub closed spec fn spec_slot_value(&self, i: int) -> Option<T> {
        self.entries@[i]
    }

    /// The value held for sequence `s`.
    pub closed spec fn spec_get(&self, s: u16) -> Option<T> {
        let i = self.slot_of(s);
        if 0 <= i < self.entries@.len() && self.entry_sequences@[i] == s as u32 {
            self.entries@[i]
        } else {
            None
        }
    }

    pub fn with_capacity(size: usize) -> (r: Self)
        requires
            1 <= size <= u16::MAX,
        ensures
            r.wf(),
            r.spec_len() == size,
            r.spec_sequence() == 0,
            forall|s: u16| (#[trigger] r.spec_get(s)).is_none(),
    {
        let mut entries: Vec<Option<T>> = Vec::with_capacity(size);
        let mut entry_sequences: Vec<u32> = Vec::with_capacity(size);
        let mut i: usize = 0;
        while i < size
            invariant
                i <= size,
                entries@.len() == i,
                entry_sequences@.len() == i,
                forall|j: int| 0 <= j < i ==> #[trigger] entry_sequences@[j] == EMPTY_SLOT,
            decreases size - i,
        {
            entries.push(None);
            entry_sequences.push(EMPTY_SLOT);
            i = i + 1;
        }
        let r = SequenceBuffer { sequence: 0, entries, entry_sequences };
        assert forall|s: u16| (#[trigger] r.spec_get(s)).is_none() by {
            let k = r.slot_of(s);
            if 0 <= k < r.entries@.len() {
                assert(r.entry_sequences@[k] == EMPTY_SLOT);
            }
        }
        r
    }

    fn index(&self, sequence: u16) -> (r: usize)
        requires
            self.wf(),
        ensures
            r == self.slot_of(sequence),
            r < self.spec_len(),
    {
        (sequence % (self.entries.len() as u16)) as usize
    }

    /// The value held for `sequence`, if its slot still holds that sequence.
    pub fn get(&self, sequence: u16) -> (r: Option<&T>)
        requires
            self.wf(),
        ensures
            match r {
                Some(v) => self.spec_get(sequence) == Some(*v),
                None => self.spec_get(sequence).is_none(),
            },
    {
        let index = self.index(sequence);
        if self.entry_sequences[index] != sequence as u32 {
            return None;
        }
        self.entries[index].as_ref()
    }

    /// Empties the slot of `sequence`.
    pub fn remove(&mut self, sequence: u16)
        requires
            old(self).wf(),
        ensures
            final(self).wf(),
            final(self).spec_len() == old(self).spec_len(),
            final(self).spec_sequence() == old(self).spec_sequence(),
            forall|s: u16|
                #[trigger] final(self).spec_get(s) == if final(self).slot_of(s) == old(
                    self,
                ).slot_of(sequence) {
                    None
                } else {
                    old(self).spec_get(s)
                },
    {
        let index = self.index(sequence);
        self.entries.set(index, None);
        self.entry_sequences.set(index, EMPTY_SLOT);
    }

    /// Empties the slots of every sequence from `range.start` up to and including `range.end`
    /// (only the slot of `range.end` when the range is empty).
    pub fn remove_range(&mut self, range: Range<u16>)
        requires
            old(self).wf(),
        ensures
            final(self).wf(),
            final(self).spec_len() == old(self).spec_len(),
            final(self).spec_sequence() == old(self).spec_sequence(),
            forall|s: u16|
                #[trigger] final(self).spec_get(s) == if old(self).slot_of(s) == old(self).slot_of(
                    range.end,
                ) || range_hits_slot(
                    range.start as int,
                    range.end as int,
                    old(self).slot_of(s),
                    old(self).spec_len(),
                ) {
                    None
                } else {
                    old(self).spec_get(s)
                },
    {
        let ghost before = *self;
        let mut i = range.start;
        while i < range.end
            invariant
                self.wf(),
                self.spec_len() == before.spec_len(),
                self.spec_sequence() == before.spec_sequence(),
                range.start <= i,
                i <= range.end || i == range.start,
                forall|s: u16|
                    #[trigger] self.spec_get(s) == if range_hits_slot(
                        range.start as int,
                        i as int,
                        before.slot_of(s),
                        before.spec_len(),
                    ) {
                        None
                    } else {
                        before.spec_get(s)
                    },
            decreases range.end - i,
        {
            self.remove(i);
            proof {
                assert forall|s: u16|
                    #[trigger] self.spec_get(s) == if range_hits_slot(
                        range.start as int,
                        i + 1,
                        before.slot_of(s),
                        before.spec_len(),
                    ) {
                        None
                    } else {
                        before.spec_get(s)
                    } by {
                    let len = before.spec_len();
                    if before.slot_of(s) == (i as int) % len {
                        assert(range_hits_slot(range.start as int, i + 1, before.slot_of(s), len));
                    } else {
                        if range_hits_slot(range.start as int, i + 1, before.slot_of(s), len) {
                            let k = choose|k: int|
                                range.start <= k < i + 1 && #[trigger] (k % len) == before.slot_of(s);
                            assert(k != i);
                            assert(range_hits_slot(range.start as int, i as int, before.slot_of(s), len));
                        }
                    }
                }
            }
            i = i + 1;
        }
        self.remove(range.end);
        proof {
            if range.start >= range.end {
                assert forall|s: u16|
                    !range_hits_slot(range.start as int, range.end as int, before.slot_of(s), before.spec_len()) by {}
            }
        }
    }

    /// Whether `sequence` is older than the buffer's window, that is older than the next
    /// sequence expected minus the number of slots.
    pub open spec fn spec_too_old(&self, sequence: u16) -> bool {
        seq_greater(seq_sub(self.spec_sequence(), self.spec_len() as u16), sequence)
    }

    /// Stores `data` for `sequence`.
    ///
    /// A sequence older than the window is refused with `SequenceBufferFull`. A sequence
    /// newer than the next one expected first empties the slots of the skipped sequences.
    /// Afterwards the next sequence expected is the one after `sequence`.
    pub fn insert(&mut self, data: T, sequence: u16) -> (r: Result<(), TimewarpError>)
        requires
            old(self).wf(),
        ensures
            final(self).wf(),
            final(self).spec_len() == old(self).spec_len(),
            old(self).spec_too_old(sequence) ==> r == Err::<(), TimewarpError>(
                TimewarpError::SequenceBufferFull,
            ) && *final(self) == *old(self),
            !old(self).spec_too_old(sequence) ==> {
                &&& r == Ok::<(), TimewarpError>(())
                &&& final(self).spec_sequence() == seq_add(sequence, 1)
                &&& final(self).spec_get(sequence) == Some(data)
                &&& forall|s: u16|
                    s != sequence ==> #[trigger] final(self).spec_get(s) == if old(self).slot_of(s)
                        == old(self).slot_of(sequence) || (seq_greater(
                        seq_add(sequence, 1),
                        old(self).spec_sequence(),
                    ) && range_hits_slot(
                        old(self).spec_sequence() as int,
                        sequence as int,
                        old(self).slot_of(s),
                        old(self).spec_len(),
                    )) {
                        None
                    } else {
                        old(self).spec_get(s)
                    }
            },
    {
        let len = self.entries.len() as u16;
        if Self::sequence_less_than(sequence, self.sequence.wrapping_sub(len)) {
            return Err(TimewarpError::SequenceBufferFull);
        }
        let ghost before = *self;
        let greater = Self::sequence_greater_than(sequence.wrapping_add(1), self.sequence);
        assert(greater == seq_greater(seq_add(sequence, 1), before.spec_sequence()));
        if greater {
            let start = self.sequence;
            self.remove_range(start..sequence);
            let ghost removed = *self;
            self.sequence = sequence.wrapping_add(1);
            assert forall|s: u16| #[trigger] self.spec_get(s) == removed.spec_get(s) by {}
        }
        let ghost mid = *self;
        let index = self.index(sequence);
        self.entries.set(index, Some(data));
        self.entry_sequences.set(index, sequence as u32);
        self.sequence = sequence.wrapping_add(1);
        proof {
            assert forall|s: u16|
                s != sequence implies #[trigger] self.spec_get(s) == if before.slot_of(s)
                    == before.slot_of(sequence) || (seq_greater(
                    seq_add(sequence, 1),
                    before.spec_sequence(),
                ) && range_hits_slot(
                    before.spec_sequence() as int,
                    sequence as int,
                    before.slot_of(s),
                    before.spec_len(),
                )) {
                    None
                } else {
                    before.spec_get(s)
                } by {
                lemma_slot_bounds(s, before.spec_len());
                lemma_slot_bounds(sequence, before.spec_len());
                if self.slot_of(s) != self.slot_of(sequence) {
                    assert(self.spec_get(s) == mid.spec_get(s));
                }
            }
        }
        Ok(())
    }

    /// Restarts the sequence at 0 and marks every slot as holding sequence 0.
    pub fn reset(&mut self)
        requires
            old(self).wf(),
        ensures
            final(self).wf(),
            final(self).spec_len() == old(self).spec_len(),
            final(self).spec_sequence() == 0,
            forall|s: u16|
                #[trigger] final(self).spec_get(s) == if s == 0 {
                    old(self).spec_slot_value(0)
                } else {
                    None
                },
    {
        self.sequence = 0;
        let n = self.entry_sequences.len();
        let mut i: usize = 0;
        while i < n
            invariant
                self.wf(),
                self.spec_len() == old(self).spec_len(),
                self.entries@ == old(self).entries@,
                self.sequence == 0,
                n == self.entry_sequences@.len(),
                i <= n,
                forall|j: int| 0 <= j < i ==> #[trigger] self.entry_sequences@[j] == 0,
            decreases n - i,
        {
            self.entry_sequences.set(i, 0);
            i = i + 1;
        }
        proof {
            assert forall|s: u16|
                #[trigger] self.spec_get(s) == if s == 0 {
                    old(self).spec_slot_value(0)
                } else {
                    None
                } by {
                lemma_slot_bounds(s, self.spec_len());
                let k = self.slot_of(s);
                assert(self.entry_sequences@[k] == 0);
            }
        }
    }

    /// The next sequence expected.
    pub fn sequence(&self) -> (r: u16)
        ensures
            r == self.spec_sequence(),
    {
        self.sequence
    }

    /// The number of slots.
    pub fn len(&self) -> (r: usize)
        ensures
            r == self.spec_len(),
    {
        self.entries.len()
    }

    /// Whether the buffer has no slot at all.
    pub fn is_empty(&self) -> (r: bool)
        ensures
            r == (self.spec_len() == 0),
    {
        self.entries.len() == 0
    }

    /// How many sequences the buffer can hold at once: its number of slots.
    pub fn capacity(&self) -> (r: usize)
        ensures
            r == self.spec_len(),
    {
        self.entries.len()
    }

    /// Whether `s1` is newer than `s2`, accounting for wrap-around.
    pub fn sequence_greater_than(s1: u16, s2: u16) -> (r: bool)
        ensures
            r == seq_greater(s1, s2),
    {
        ((s1 > s2) && (s1 - s2 <= 32768)) || ((s1 < s2) && (s2 - s1 > 32768))
    }

    /// Whether `s1` is older than `s2`, accounting for wrap-around.
    pub fn sequence_less_than(s1: u16, s2: u16) -> (r: bool)
        ensures
            r == seq_greater(s2, s1),
    {
        Self::sequence_greater_than(s2, s1)
    }

    /// Whether `sequence` is still inside the buffer's window.
    pub fn check_sequence(&self, sequence: u16) -> (r: bool)
        requires
            self.wf(),
        ensures
            r == seq_greater(sequence, seq_sub(self.spec_sequence(), self.spec_len() as u16)),
    {
        Self::sequence_greater_than(sequence, self.sequence.wrapping_sub(self.entries.len() as u16))
    }
}

} // verus!
