//! Core engine of a disk-image burner: a verified model of the pipeline that
//! copies a fixed-size source image onto a destination device, reports live
//! progress, supports cooperative cancellation, and optionally re-reads both
//! sides to verify the copy byte for byte.
//!
//! The engine's decisions — which event to emit, when an operation is over,
//! how counters and the cancellation flag evolve — live here, verified.
//! The surrounding process (threads, channels, file handles) performs the
//! I/O and feeds its outcomes to this model.

pub mod devices;
pub mod event;
pub mod operation;
pub mod pipeline;
pub mod supervisor;
