//! Core of an event-driven image transcoding pipeline.
//!
//! The library reacts to object-creation notifications from a blob store:
//! it extracts (container, key) records from a notification batch, derives
//! a predictable key for the re-encoded derivative of each source image,
//! and sequences the per-record fetch / decode / encode / store steps while
//! enforcing the batch-level failure policy (a malformed batch is fatal,
//! a failed record is merely skipped).

pub mod batch;
pub mod codec;
pub mod keys;
pub mod record;
pub mod transcode;
