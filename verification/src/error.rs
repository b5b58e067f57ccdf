//! Error taxonomy of the updater.

use vstd::prelude::*;

verus! {

/// Everything that can go wrong while coordinating an update check.
///
/// The variants separate usage errors (asking for a download before any
/// release is known, polling before a result is available) from
/// environment, parse, storage and network failures, so that callers can
/// react to each differently.
#[derive(Debug, Clone)]
pub enum UpdaterError {
    /// The workflow's unique identifier is not available from the
    /// environment; nothing can be persisted without it.
    MissingUid,
    /// A version string did not follow the semantic-version grammar.
    InvalidVersion,
    /// A selected download address could not be parsed as a URL.
    InvalidUrl,
    /// No asset of a release is in a downloadable state.
    NoDownloadUrl,
    /// Release metadata was requested before any had been stored.
    NoReleaseData,
    /// A download was requested before a release check made one known.
    NoReleaseInfo,
    /// A non-blocking poll found no worker result yet; retry later.
    NotReady,
    /// The hand-off channel to the background worker was broken.
    WorkerCommunication,
    /// Saving or loading persisted state failed; the message comes from
    /// the storage implementation.
    Storage(String),
    /// The release source failed; the message comes from its
    /// implementation.
    Network(String),
}

impl UpdaterError {
    /// A short, fixed description of the error variant.
    pub fn message(&self) -> (r: &'static str)
        ensures
            r@.len() > 0,
    {
        proof {
            reveal_strlit("missing env variable for uid");
            reveal_strlit("version does not follow semantic version rules");
            reveal_strlit("selected download address is not a valid url");
            reveal_strlit("no usable download url");
            reveal_strlit("no release item available");
            reveal_strlit("no release info avail yet");
            reveal_strlit("worker has not delivered a result yet");
            reveal_strlit("could not communicate with worker");
            reveal_strlit("storage error");
            reveal_strlit("network error");
        }
        match self {
            UpdaterError::MissingUid => "missing env variable for uid",
            UpdaterError::InvalidVersion => "version does not follow semantic version rules",
            UpdaterError::InvalidUrl => "selected download address is not a valid url",
            UpdaterError::NoDownloadUrl => "no usable download url",
            UpdaterError::NoReleaseData => "no release item available",
            UpdaterError::NoReleaseInfo => "no release info avail yet",
            UpdaterError::NotReady => "worker has not delivered a result yet",
            UpdaterError::WorkerCommunication => "could not communicate with worker",
            UpdaterError::Storage(_) => "storage error",
            UpdaterError::Network(_) => "network error",
        }
    }
}

} // verus!
