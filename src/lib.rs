//! Frame-indexed history and rollback bookkeeping for client-side prediction.
//!
//! Clients simulate every dynamic entity into the future; when authoritative data for a
//! past frame arrives, the simulation rewinds, overwrites predicted state and fast-forwards
//! back to the present. This crate holds the data structures and decisions behind that:
//! the circular per-frame buffer, per-entity component histories with alive ranges,
//! authoritative snapshots, rollback request consolidation, the rollback lifecycle, and
//! misprediction correction and delayed despawn.
use vstd::prelude::*;

pub mod components;
pub mod entity;
pub mod error;
pub mod frame_buffer;
pub mod registry;
pub mod resources;
pub mod sequence_buffer;
pub mod timewarp;

pub use error::TimewarpError;
pub use components::{ComponentHistory, FrameRange, ServerSnapshot};
pub use entity::{
    InsertComponentAtFrame, InsertComponentResult, RollbackEntity, SnapshotOutcome, TimewarpCorrection,
    SNAPSHOT_SLOTS_PER_WINDOW_FRAME,
};
pub use frame_buffer::FrameBuffer;
pub use registry::RollbackComponents;
pub use sequence_buffer::SequenceBuffer;
pub use resources::{
    consolidate_rollback_requests, process_despawn_marker, DespawnMarker, GameClock,
    PreviousRollback, Rollback, RollbackConsolidationStrategy, RollbackRequest, RollbackStats,
    TimewarpConfig, TimewarpStatus, DEFAULT_ROLLBACK_WINDOW,
};
pub use timewarp::{Timewarp, FAST_FORWARD_TIMESTEP};

verus! {

/// A simulation tick. Frame 0 is reserved to mean "no data yet".
pub type FrameNumber = u32;

} // verus!
