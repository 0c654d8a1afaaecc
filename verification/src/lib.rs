//! Verified core of a safety wrapper around a content-addressed artifact
//! store's native C interface.
//!
//! The native library reports failures through a per-call error context,
//! returns variable-length text through a one-shot marshaling callback, and
//! hands out opaque resource handles that must be released exactly once.
//! This crate holds the decision logic of that boundary as verified code on
//! plain values: interpreting an error code and message, enforcing the
//! one-shot marshaling protocol, caching the one-time library initialization
//! outcome, and owning non-null handle addresses. The raw calls themselves
//! live outside the library, feed their results into these functions, and
//! act on the verdicts.

pub mod context;
pub mod error;
pub mod handle;
pub mod init;
pub mod marshal;
pub mod path;
pub mod store;
pub mod text;
