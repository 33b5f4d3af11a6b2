//! Batch download orchestration for a desktop music library manager.
//!
//! The library models the core of the application: validating download
//! requests, planning segments, bounding the number of concurrently running
//! converter processes, classifying the outcome of each external process,
//! and accounting for partial failure across a whole batch.

pub mod download;
pub mod errors;
pub mod job;
pub mod lastfm;
pub mod metadata;
pub mod music;
pub mod paths;
pub mod spotify;
pub mod text;
pub mod validation;

use vstd::prelude::*;

verus! {

/// Largest number of identifiers a single batch job may carry.
pub const MAX_SONGS_PER_BATCH: usize = 100;

} // verus!
