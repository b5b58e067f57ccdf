//! Semantic versions, modelled as their numeric triple.
//!
//! The updater only needs to know whether one release is strictly newer
//! than another, so a version is carried as its `major.minor.patch`
//! triple and compared lexicographically, which is the precedence the
//! semantic-versioning rules give to versions without pre-release
//! identifiers. Checking a string against the full semantic-version
//! grammar is left to the `semver` crate, behind a trusted wrapper.

use vstd::prelude::*;

use crate::error::UpdaterError;

verus! {

/// A semantic version, reduced to its numeric components.
#[derive(Debug, Clone, Copy, PartialEq, Eq, Structural)]
pub struct SemVer {
    pub major: u64,
    pub minor: u64,
    pub patch: u64,
}

/// Strict lexicographic order on the numeric components: the order the
/// semantic-versioning rules give to two versions without pre-release
/// identifiers.
pub open spec fn semver_lt(a: SemVer, b: SemVer) -> bool {
    ||| a.major < b.major
    ||| (a.major == b.major && a.minor < b.minor)
    ||| (a.major == b.major && a.minor == b.minor && a.patch < b.patch)
}

impl SemVer {
    /// The version `major.minor.patch`.
    pub fn new(major: u64, minor: u64, patch: u64) -> (r: SemVer)
        ensures
            r == (SemVer { major, minor, patch }),
    {
        SemVer { major, minor, patch }
    }

    /// The lowest version, `0.0.0`: the fallback when the environment
    /// supplies no version at all.
    pub fn zero() -> (r: SemVer)
        ensures
            r == (SemVer { major: 0u64, minor: 0u64, patch: 0u64 }),
    {
        SemVer { major: 0, minor: 0, patch: 0 }
    }

    /// Whether `self` is strictly older than `other`.
    pub fn lt(&self, other: &SemVer) -> (r: bool)
        ensures
            r == semver_lt(*self, *other),
    {
        if self.major != other.major {
            self.major < other.major
        } else if self.minor != other.minor {
            self.minor < other.minor
        } else {
            self.patch < other.patch
        }
    }
}

/// The version an updater carries after it sees an externally
/// supplied version beside a persisted one: the newer of the two,
/// never a downgrade.
pub open spec fn adopted_version(persisted: SemVer, supplied: SemVer) -> SemVer {
    if semver_lt(persisted, supplied) {
        supplied
    } else {
        persisted
    }
}

/// The numeric triple that the semantic-version grammar gives to a
/// string, or `None` where the grammar rejects it. The grammar is a
/// function of the characters alone, so the triple is too.
pub uninterp spec fn semver_triple(s: Seq<char>) -> Option<(u64, u64, u64)>;

/// Relies on `semver::Version::parse`: it accepts exactly the strings of
/// the semantic-version grammar and returns their numeric components.
/// Pre-release and build identifiers are accepted by the grammar but not
/// carried into the triple.
#[verifier::external_body]
pub fn parse_semver(s: &str) -> (r: Option<SemVer>)
    ensures
        match r {
            Some(v) => semver_triple(s@) == Some((v.major, v.minor, v.patch)),
            None => semver_triple(s@) is None,
        },
{
    match semver::Version::parse(s) {
        Ok(v) => Some(SemVer { major: v.major, minor: v.minor, patch: v.patch }),
        Err(_) => None,
    }
}

/// Parses a version string that must follow the semantic-version
/// grammar; rejection is the hard error the construction rules ask for.
pub fn parse_semver_required(s: &str) -> (r: Result<SemVer, UpdaterError>)
    ensures
        match r {
            Ok(v) => semver_triple(s@) == Some((v.major, v.minor, v.patch)),
            Err(e) => e is InvalidVersion && semver_triple(s@) is None,
        },
{
    match parse_semver(s) {
        Some(v) => Ok(v),
        None => Err(UpdaterError::InvalidVersion),
    }
}

} // verus!
