//! Update-check coordination for short-lived workflow executables.
//!
//! The crate models the durable state of a workflow updater (current
//! version, time of the last release check, cached release metadata),
//! decides when a remote check is due, merges check results into the
//! state, and selects a downloadable asset from release metadata.
//! Network transfer, file storage and clock reads are reached through
//! narrow interfaces so that every decision the updater takes is
//! verified.

pub mod channel;
pub mod clock;
pub mod error;
pub mod names;
pub mod releaser;
pub mod state;
pub mod store;
pub mod text;
pub mod updater;
pub mod version;
