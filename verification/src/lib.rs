//! Batched, parallel external-command pipeline for sweeping ignored files out
//! of a Perforce workspace.
//!
//! The library holds the verified core: partitioning argument lists into
//! size-bounded batches, assembling the argument vectors handed to the
//! external client, decoding its line-oriented output tolerantly, and the
//! pure stage-to-stage steps of the pipeline. Spawning the client and the
//! worker pool that dispatches batches live outside the library.

use vstd::prelude::*;

pub mod batch;
pub mod dispatch;
pub mod lines;
pub mod p4;
pub mod pipeline;

verus! {

/// Byte-size ceiling of a whole command line on the platforms the tool
/// targets.
pub const WINDOWS_MAX_ARG_SIZE: usize = 32768;

/// Allowance reserved for the executable path and the fixed flags, before any
/// batched arguments.
pub const MAX_COMMAND_SIZE: usize = 1024;

} // verus!
