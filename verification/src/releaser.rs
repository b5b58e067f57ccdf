//! Release sources: where the updater learns about the newest release.
//!
//! The [`Releaser`] trait is the interface an updater talks to; callers
//! hosting their workflow outside `github.com` implement it for their
//! own service. [`GithubReleaser`] holds release metadata in the shape
//! GitHub's "latest release" endpoint answers with and selects a
//! version and a downloadable asset from it; transporting the metadata
//! over the network is the caller's part.

use vstd::prelude::*;

use crate::error::UpdaterError;
use crate::text::{ends_with, str_ends_with, str_eq};
use crate::version::{parse_semver, semver_triple, SemVer};

verus! {

/// An interface for checking with remote servers to identify the latest
/// release of a workflow.
///
/// No behaviour is assumed of an implementation: the updater states
/// what it does with whatever a release source answers.
pub trait Releaser: Sized {
    /// A release source identified as `project_id`.
    fn new(project_id: String) -> Self;

    /// The latest release's version and download address, or an error
    /// when the source cannot tell.
    fn fetch_latest_release(&self) -> Result<(SemVer, String), UpdaterError>;

    /// The latest release's version and download address; the default
    /// simply asks [`Releaser::fetch_latest_release`].
    fn latest_release(&self) -> Result<(SemVer, String), UpdaterError> {
        self.fetch_latest_release()
    }
}

/// A single downloadable asset of a release.
#[derive(Debug, Clone)]
pub struct ReleaseAsset {
    pub url: String,
    pub name: String,
    pub state: String,
    pub browser_download_url: String,
}

/// One release point, as GitHub's "latest release" endpoint describes
/// it: a tag that should hold a semantic version, and the downloadable
/// assets attached to the release.
#[derive(Debug, Clone)]
pub struct ReleaseItem {
    /// Name of the release; should hold a semantic-version identifier,
    /// optionally prefixed with `v`.
    pub tag_name: String,
    pub assets: Vec<ReleaseAsset>,
}

/// The tag with one leading `v` removed, if it has one: release tags may
/// prefix the semantic version with the letter.
pub open spec fn strip_v(s: Seq<char>) -> Seq<char> {
    if s.len() > 0 && s[0] == 'v' {
        s.skip(1)
    } else {
        s
    }
}

/// Whether an asset is downloadable at all: fully uploaded and a
/// workflow bundle by its address.
pub open spec fn usable_asset(a: ReleaseAsset) -> bool {
    a.state@ == "uploaded"@ && (ends_with(a.browser_download_url@, "alfredworkflow"@)
        || ends_with(a.browser_download_url@, "alfred3workflow"@))
}

/// Whether an asset is of the preferred, more specific kind.
pub open spec fn preferred_asset(a: ReleaseAsset) -> bool {
    usable_asset(a) && ends_with(a.browser_download_url@, "alfred3workflow"@)
}

/// The first asset (in the order the server lists them) that is usable.
pub open spec fn first_usable(assets: Seq<ReleaseAsset>) -> Option<ReleaseAsset>
    decreases assets.len(),
{
    if assets.len() == 0 {
        None
    } else if usable_asset(assets[0]) {
        Some(assets[0])
    } else {
        first_usable(assets.skip(1))
    }
}

/// The first asset that is usable and of the preferred kind.
pub open spec fn first_preferred(assets: Seq<ReleaseAsset>) -> Option<ReleaseAsset>
    decreases assets.len(),
{
    if assets.len() == 0 {
        None
    } else if preferred_asset(assets[0]) {
        Some(assets[0])
    } else {
        first_preferred(assets.skip(1))
    }
}

/// The asset a release is downloaded from: the first of the preferred
/// kind where one exists, else the first usable one.
pub open spec fn selected_asset(assets: Seq<ReleaseAsset>) -> Option<ReleaseAsset> {
    match first_preferred(assets) {
        Some(a) => Some(a),
        None => first_usable(assets),
    }
}

/// The serialized form the URL grammar gives to a string, or `None`
/// where the grammar rejects it. The grammar is a function of the
/// characters alone, so the serialized form is too.
pub uninterp spec fn url_normalized(s: Seq<char>) -> Option<Seq<char>>;

/// Relies on `url::Url::parse` and `url::Url::as_str`: parsing accepts
/// exactly the strings of the URL grammar, and serializing a parsed URL
/// yields its normalized text.
#[verifier::external_body]
pub fn parse_url(s: &str) -> (r: Option<String>)
    ensures
        match r {
            Some(u) => url_normalized(s@) == Some(u@),
            None => url_normalized(s@) is None,
        },
{
    match url::Url::parse(s) {
        Ok(u) => Some(String::from_str(u.as_str())),
        Err(_) => None,
    }
}

/// Handles checking and finding release files hosted on `github.com`.
///
/// Asset selection favours addresses that end in `alfred3workflow` over
/// those that end in `alfredworkflow`; among several of the favoured
/// kind, the first one the server lists wins.
#[derive(Debug, Clone)]
pub struct GithubReleaser {
    pub repo: String,
    pub latest_release: Option<ReleaseItem>,
}

impl GithubReleaser {
    /// The repository the releaser asks about, in `user/repository`
    /// form.
    pub fn repo(&self) -> (r: &String)
        ensures
            r == self.repo,
    {
        &self.repo
    }

    /// The metadata address of the repository's latest release.
    pub fn latest_release_endpoint(&self) -> (r: String)
        ensures
            r@ == "https://api.github.com/repos/"@ + self.repo@ + "/releases/latest"@,
    {
        let mut out = "https://api.github.com/repos/".to_owned();
        out.append(self.repo.as_str());
        out.append("/releases/latest");
        out
    }

    /// Whether release metadata has been stored already.
    pub fn has_release_data(&self) -> (r: bool)
        ensures
            r == self.latest_release is Some,
    {
        self.latest_release.is_some()
    }

    /// Stores fetched release metadata, removing one leading `v` from
    /// the tag so that the tag holds a plain semantic version.
    pub fn set_release_data(&mut self, item: ReleaseItem)
        ensures
            final(self).repo == old(self).repo,
            final(self).latest_release matches Some(stored) && stored.tag_name@ == strip_v(
                item.tag_name@,
            ) && stored.assets == item.assets,
    {
        let tag_len = item.tag_name.as_str().unicode_len();
        let tag = if tag_len > 0 && item.tag_name.as_str().get_char(0) == 'v' {
            item.tag_name.as_str().substring_char(1, tag_len).to_owned()
        } else {
            item.tag_name
        };
        self.latest_release = Some(ReleaseItem { tag_name: tag, assets: item.assets });
    }

    /// The version of the stored release: its tag, parsed as a semantic
    /// version. Asks for metadata to be stored first and rejects a tag
    /// outside the semantic-version grammar.
    pub fn latest_version(&self) -> (r: Result<SemVer, UpdaterError>)
        ensures
            match r {
                Ok(v) => self.latest_release matches Some(item) && semver_triple(item.tag_name@)
                    == Some((v.major, v.minor, v.patch)),
                Err(e) => match self.latest_release {
                    None => e is NoReleaseData,
                    Some(item) => e is InvalidVersion && semver_triple(item.tag_name@) is None,
                },
            },
    {
        match &self.latest_release {
            None => Err(UpdaterError::NoReleaseData),
            Some(item) => match parse_semver(item.tag_name.as_str()) {
                Some(v) => Ok(v),
                None => Err(UpdaterError::InvalidVersion),
            },
        }
    }

    /// The address the stored release is downloaded from: the selected
    /// asset's address, checked against the URL grammar.
    pub fn downloadable_url(&self) -> (r: Result<String, UpdaterError>)
        ensures
            match self.latest_release {
                None => r matches Err(e) && e is NoReleaseData,
                Some(item) => match selected_asset(item.assets@) {
                    None => r matches Err(e) && e is NoDownloadUrl,
                    Some(a) => match r {
                        Ok(u) => url_normalized(a.browser_download_url@) == Some(u@),
                        Err(e) => e is InvalidUrl && url_normalized(
                            a.browser_download_url@,
                        ) is None,
                    },
                },
            },
    {
        match &self.latest_release {
            None => Err(UpdaterError::NoReleaseData),
            Some(item) => match select_asset(&item.assets) {
                None => Err(UpdaterError::NoDownloadUrl),
                Some(a) => match parse_url(a.browser_download_url.as_str()) {
                    Some(u) => Ok(u),
                    None => Err(UpdaterError::InvalidUrl),
                },
            },
        }
    }
}

impl Releaser for GithubReleaser {
    /// A releaser for the repository named `project_id`, with no release
    /// metadata stored yet.
    fn new(project_id: String) -> Self {
        GithubReleaser { repo: project_id, latest_release: None }
    }

    /// The stored release's version and download address. Metadata must
    /// have been stored first; fetching it is the caller's part.
    fn fetch_latest_release(&self) -> Result<(SemVer, String), UpdaterError> {
        if !self.has_release_data() {
            return Err(UpdaterError::NoReleaseData);
        }
        let version = self.latest_version()?;
        let link = self.downloadable_url()?;
        Ok((version, link))
    }
}

/// Whether the asset is usable: fully uploaded and a workflow bundle.
fn asset_usable(a: &ReleaseAsset) -> (r: bool)
    ensures
        r == usable_asset(*a),
{
    str_eq(a.state.as_str(), "uploaded") && (str_ends_with(
        a.browser_download_url.as_str(),
        "alfredworkflow",
    ) || str_ends_with(a.browser_download_url.as_str(), "alfred3workflow"))
}

/// Picks the asset a release should be downloaded from.
fn select_asset(assets: &Vec<ReleaseAsset>) -> (r: Option<&ReleaseAsset>)
    ensures
        match r {
            Some(a) => selected_asset(assets@) == Some(*a),
            None => selected_asset(assets@) is None,
        },
{
    let len = assets.len();
    let mut pick_usable: Option<usize> = None;
    let mut pick_preferred: Option<usize> = None;
    let mut i: usize = len;
    while i > 0
        invariant
            len == assets@.len(),
            i <= len,
            match pick_usable {
                Some(k) => k < len && first_usable(assets@.skip(i as int)) == Some(assets@[k as int]),
                None => first_usable(assets@.skip(i as int)) is None,
            },
            match pick_preferred {
                Some(k) => k < len && first_preferred(assets@.skip(i as int)) == Some(
                    assets@[k as int],
                ),
                None => first_preferred(assets@.skip(i as int)) is None,
            },
        decreases i,
    {
        i = i - 1;
        proof {
            assert(assets@.skip(i as int).skip(1) =~= assets@.skip(i + 1 as int));
            assert(assets@.skip(i as int)[0] == assets@[i as int]);
        }
        if asset_usable(&assets[i]) {
            pick_usable = Some(i);
            if str_ends_with(assets[i].browser_download_url.as_str(), "alfred3workflow") {
                pick_preferred = Some(i);
            }
        }
    }
    proof {
        assert(assets@.skip(0) =~= assets@);
    }
    match pick_preferred {
        Some(k) => Some(&assets[k]),
        None => match pick_usable {
            Some(k) => Some(&assets[k]),
            None => None,
        },
    }
}

} // verus!
