//! The durable record of one workflow's updater.
//!
//! A host process lives for one invocation only, so this record is
//! reloaded from disk at every start and rewritten after every
//! meaningful transition. Timestamps are seconds since the Unix epoch;
//! the check interval is seconds as well and is always reset to its
//! compile-time default on load, never taken from disk.

use vstd::prelude::*;

use crate::version::{adopted_version, semver_lt, SemVer};

verus! {

/// Default update interval: 24 hours, in seconds.
pub const UPDATE_INTERVAL: i64 = 24 * 60 * 60;

/// The interval a freshly loaded or freshly created state carries.
pub fn default_interval() -> (r: i64)
    ensures
        r == UPDATE_INTERVAL,
{
    UPDATE_INTERVAL
}

/// The newest release known so far: its version, where to download it,
/// and when it was fetched (seconds since the Unix epoch), if a network
/// check rather than a cache produced it.
#[derive(Debug, Clone)]
pub struct UpdateInfo {
    pub version: SemVer,
    pub fetched_at: Option<i64>,
    pub downloadable_url: String,
}

impl UpdateInfo {
    /// A release record without a fetch time.
    pub fn new(version: SemVer, downloadable_url: String) -> (r: UpdateInfo)
        ensures
            r.version == version,
            r.fetched_at is None,
            r.downloadable_url == downloadable_url,
    {
        UpdateInfo { version, fetched_at: None, downloadable_url }
    }

    /// The release's version.
    pub fn version(&self) -> (r: &SemVer)
        ensures
            *r == self.version,
    {
        &self.version
    }

    /// When the record was fetched, if it came from the network.
    pub fn fetched_at(&self) -> (r: Option<i64>)
        ensures
            r == self.fetched_at,
    {
        self.fetched_at
    }

    /// Records when the release information was fetched.
    pub fn set_fetched_at(&mut self, t: i64)
        ensures
            final(self).version == old(self).version,
            final(self).fetched_at == Some(t),
            final(self).downloadable_url == old(self).downloadable_url,
    {
        self.fetched_at = Some(t);
    }
}

/// The durable state: current version, time of the last check, the
/// newest release known, and the session-scoped check interval.
#[derive(Debug, Clone)]
pub struct UpdaterState {
    pub current_version: SemVer,
    pub last_check: Option<i64>,
    pub avail_release: Option<UpdateInfo>,
    pub update_interval: i64,
}

/// Whether a newer release than the current version is known.
/// An absent release record means "not ready", never an error.
pub open spec fn ready_spec(st: UpdaterState) -> bool {
    match st.avail_release {
        Some(info) => semver_lt(st.current_version, info.version),
        None => false,
    }
}

/// Whether enough time has passed at `now` to justify a network check:
/// always on a state that never checked, otherwise once more than the
/// interval has elapsed since the last check.
pub open spec fn due_spec(st: UpdaterState, now: i64) -> bool {
    match st.last_check {
        None => true,
        Some(t) => now - t > st.update_interval,
    }
}

/// The timestamp of the last check after a payload is merged: a fetch
/// time moves it forward, never backward.
pub open spec fn merged_last_check_spec(st: UpdaterState, payload: Option<UpdateInfo>) -> Option<
    i64,
> {
    match payload {
        Some(info) => match info.fetched_at {
            Some(ft) => match st.last_check {
                Some(t) => if t < ft {
                    Some(ft)
                } else {
                    Some(t)
                },
                None => Some(ft),
            },
            None => st.last_check,
        },
        None => st.last_check,
    }
}

/// The state after a check's payload is merged: the release record is
/// replaced outright (last writer wins), the last-check time moves
/// forward to the payload's fetch time when that is more recent, and
/// everything else stays.
pub open spec fn merge_spec(st: UpdaterState, payload: Option<UpdateInfo>) -> UpdaterState {
    UpdaterState {
        avail_release: payload,
        last_check: merged_last_check_spec(st, payload),
        ..st
    }
}

impl UpdaterState {
    /// The state of a workflow that was never checked: no last-check
    /// time, no known release, the default interval.
    pub fn fresh(current_version: SemVer) -> (r: UpdaterState)
        ensures
            r.current_version == current_version,
            r.last_check is None,
            r.avail_release is None,
            r.update_interval == UPDATE_INTERVAL,
    {
        UpdaterState {
            current_version,
            last_check: None,
            avail_release: None,
            update_interval: UPDATE_INTERVAL,
        }
    }

    /// The workflow's current version.
    pub fn current_version(&self) -> (r: &SemVer)
        ensures
            *r == self.current_version,
    {
        &self.current_version
    }

    /// Replaces the current version.
    pub fn set_version(&mut self, v: SemVer)
        ensures
            *final(self) == (UpdaterState { current_version: v, ..*old(self) }),
    {
        self.current_version = v;
    }

    /// Adopts an externally supplied version only when it is strictly
    /// newer than the one persisted: newer wins, not newest supplier.
    pub fn adopt_version(&mut self, v: SemVer)
        ensures
            final(self).current_version == adopted_version(old(self).current_version, v),
            final(self).last_check == old(self).last_check,
            final(self).avail_release == old(self).avail_release,
            final(self).update_interval == old(self).update_interval,
    {
        if self.current_version.lt(&v) {
            self.current_version = v;
        }
    }

    /// The version of the newest known release, if any.
    pub fn latest_avail_version(&self) -> (r: Option<SemVer>)
        ensures
            match self.avail_release {
                Some(info) => r == Some(info.version),
                None => r is None,
            },
    {
        match &self.avail_release {
            Some(info) => Some(info.version),
            None => None,
        }
    }

    /// Where the newest known release can be downloaded, if any is known.
    pub fn download_url(&self) -> (r: Option<&String>)
        ensures
            match self.avail_release {
                Some(info) => r == Some(&info.downloadable_url),
                None => r is None,
            },
    {
        match &self.avail_release {
            Some(info) => Some(&info.downloadable_url),
            None => None,
        }
    }

    /// Whether a check is due at `now`.
    pub fn due_at(&self, now: i64) -> (r: bool)
        ensures
            r == due_spec(*self, now),
    {
        match self.last_check {
            None => true,
            Some(t) => (now as i128) - (t as i128) > (self.update_interval as i128),
        }
    }

    /// Merges a check's payload: replaces the known release, moves the
    /// last-check time forward to the payload's fetch time when that is
    /// more recent.
    pub fn merge_payload(&mut self, payload: Option<UpdateInfo>)
        ensures
            final(self).avail_release == payload,
            final(self).last_check == merged_last_check_spec(*old(self), payload),
            final(self).current_version == old(self).current_version,
            final(self).update_interval == old(self).update_interval,
            *final(self) == merge_spec(*old(self), payload),
    {
        match &payload {
            Some(info) => match info.fetched_at {
                Some(ft) => {
                    let bump = match self.last_check {
                        Some(t) => t < ft,
                        None => true,
                    };
                    if bump {
                        self.last_check = Some(ft);
                    }
                },
                None => {},
            },
            None => {},
        }
        self.avail_release = payload;
    }

    /// Whether the state already shows a newer release than the current
    /// version.
    pub fn ready(&self) -> (r: bool)
        ensures
            r == ready_spec(*self),
    {
        match &self.avail_release {
            Some(info) => self.current_version.lt(&info.version),
            None => false,
        }
    }
}

} // verus!
