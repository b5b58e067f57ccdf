//! Where the updater persists its state between invocations.
//!
//! The host process exits after every invocation, so everything the
//! updater must remember goes through this interface. An implementation
//! is expected to write atomically (write to a temporary file, then
//! rename over the target) and to answer a failed or corrupt load with
//! `None`, so that a corrupt file heals itself on the next save; the
//! updater states what it does with every answer, so nothing is assumed
//! of an implementation here.

use vstd::prelude::*;

use crate::error::UpdaterError;
use crate::state::{UpdateInfo, UpdaterState};

verus! {

/// Load and save of the updater's two records, keyed by file name.
pub trait StateStore: Sized {
    /// Persists the durable updater state under `name`.
    fn save_state(&self, name: &str, state: &UpdaterState) -> Result<(), UpdaterError>;

    /// The updater state stored under `name`; `None` when it is
    /// missing, unreadable or corrupt.
    fn load_state(&self, name: &str) -> Option<UpdaterState>;

    /// Persists the result of the last release check under `name`.
    fn save_status(&self, name: &str, status: &Option<UpdateInfo>) -> Result<(), UpdaterError>;

    /// The last check's result stored under `name`; `None` when it is
    /// missing, unreadable or corrupt.
    fn load_status(&self, name: &str) -> Option<Option<UpdateInfo>>;
}

} // verus!
