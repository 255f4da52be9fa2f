//! The version record of a spin CLI build, and how two records compare.

use vstd::prelude::*;

use crate::text::{contains_seq, str_contains};

verus! {

/// Marker that the version string of a pre-release (canary) build carries.
pub const PRE_RELEASE_MARKER: &'static str = "pre";

/// The version string and commit identifier of one spin CLI build.
#[derive(Debug, Clone)]
pub struct SpinCliVersion {
    pub version: String,
    pub commit_sha: String,
}

/// The mathematical model of a `SpinCliVersion`.
pub ghost struct VersionModel {
    pub version: Seq<char>,
    pub commit_sha: Seq<char>,
}

impl VersionModel {
    /// A build is canary when its version string holds the pre-release marker.
    pub open spec fn is_canary(self) -> bool {
        contains_seq(self.version, PRE_RELEASE_MARKER@)
    }

    /// An installed build is outdated against the latest one when, for a canary
    /// build, the commits differ, and otherwise when the version strings differ.
    pub open spec fn is_outdated(self, latest: VersionModel) -> bool {
        if self.is_canary() {
            self.commit_sha != latest.commit_sha
        } else {
            self.version != latest.version
        }
    }

    /// Both the version string and the commit identifier are non-empty, as a
    /// record the check works with must be.
    pub open spec fn is_complete(self) -> bool {
        self.version.len() > 0 && self.commit_sha.len() > 0
    }

    /// The record rendered as `<version> (<commit>)`.
    pub open spec fn text(self) -> Seq<char> {
        self.version + " ("@ + self.commit_sha + ")"@
    }
}

impl View for SpinCliVersion {
    type V = VersionModel;

    open spec fn view(&self) -> VersionModel {
        VersionModel { version: self.version@, commit_sha: self.commit_sha@ }
    }
}

impl SpinCliVersion {
    /// A record of the given version string and commit identifier.
    pub fn new(version: String, commit_sha: String) -> (r: SpinCliVersion)
        ensures
            r.version@ == version@,
            r.commit_sha@ == commit_sha@,
    {
        SpinCliVersion { version, commit_sha }
    }

    /// Whether neither the version string nor the commit identifier is empty.
    pub fn is_complete(&self) -> (r: bool)
        ensures
            r == self@.is_complete(),
    {
        !self.version.as_str().is_empty() && !self.commit_sha.as_str().is_empty()
    }

    /// Whether this is a pre-release build, which selects the canary channel.
    pub fn is_canary(&self) -> (r: bool)
        ensures
            r == self@.is_canary(),
    {
        str_contains(self.version.as_str(), PRE_RELEASE_MARKER)
    }

    /// Whether this (installed) build is older than `other` (the latest one).
    pub fn is_outdated(&self, other: &SpinCliVersion) -> (r: bool)
        ensures
            r == self@.is_outdated(other@),
    {
        if self.is_canary() {
            return self.commit_sha != other.commit_sha;
        }
        self.version != other.version
    }

    /// The record rendered as `<version> (<commit>)`.
    pub fn to_string(&self) -> (r: String)
        ensures
            r@ == self@.text(),
    {
        let r = self.version.clone().concat(" (");
        let r = r.concat(self.commit_sha.as_str());
        r.concat(")")
    }
}

/// No record is outdated against itself.
pub proof fn lemma_not_outdated_against_itself(a: VersionModel)
    ensures
        !a.is_outdated(a),
{
}

/// A canary build is outdated whenever the commits differ, whatever the versions.
pub proof fn lemma_canary_outdated_on_commit(a: VersionModel, b: VersionModel)
    requires
        a.is_canary(),
        a.commit_sha != b.commit_sha,
    ensures
        a.is_outdated(b),
{
}

/// A stable build is outdated exactly when the version strings differ; the
/// commits play no part.
pub proof fn lemma_stable_outdated_on_version(a: VersionModel, b: VersionModel, c: VersionModel)
    requires
        !a.is_canary(),
        b.version == c.version,
    ensures
        a.is_outdated(b) == (a.version != b.version),
        a.is_outdated(b) == a.is_outdated(c),
{
}

} // verus!
