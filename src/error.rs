use vstd::prelude::*;

verus! {

/// Faults reported by the frame-indexed stores.
#[derive(Debug, Clone, Copy, PartialEq, Eq, Structural)]
pub enum TimewarpError {
    /// A write below the oldest frame still retained; the write was dropped.
    FrameTooOld,
    /// A sequence older than a sequence buffer's window; the write was dropped.
    SequenceBufferFull,
}

} // verus!
