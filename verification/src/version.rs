//! Release versions, read and ordered by the rules of semantic versioning.
//!
//! A version is held as its plain parts. Reading a version from text and
//! ordering two versions are left to the `semver` crate; this module says
//! which of its answers the update check relies on.

use vstd::prelude::*;
use semver::{BuildMetadata, Prerelease, Version};
use std::cmp::Ordering;

verus! {

/// A version: three numbers, and the texts of its pre-release and build
/// parts, each empty where the version has none.
#[derive(Debug)]
pub struct ReleaseVersion {
    pub major: u64,
    pub minor: u64,
    pub patch: u64,
    pub pre: String,
    pub build: String,
}

pub struct ReleaseVersionView {
    pub major: u64,
    pub minor: u64,
    pub patch: u64,
    pub pre: Seq<char>,
    pub build: Seq<char>,
}

impl View for ReleaseVersion {
    type V = ReleaseVersionView;

    open spec fn view(&self) -> ReleaseVersionView {
        ReleaseVersionView {
            major: self.major,
            minor: self.minor,
            patch: self.patch,
            pre: self.pre@,
            build: self.build@,
        }
    }
}

/// How one version stands to another.
#[derive(Clone, Copy, PartialEq, Eq, Debug, Structural)]
pub enum VersionOrder {
    Earlier,
    Same,
    Later,
}

/// What `semver::Version::parse` makes of a text: the version's parts, or
/// the message of its error.
pub uninterp spec fn semver_parsed(text: Seq<char>) -> Result<ReleaseVersionView, Seq<char>>;

/// How `semver::Version`'s total order places the version of the first
/// parts against that of the second; `None` where the pre-release or build
/// text of either is none that `semver` accepts.
pub uninterp spec fn semver_order(left: ReleaseVersionView, right: ReleaseVersionView) -> Option<
    VersionOrder,
>;

/// What a result of reading a version says, over its parts.
pub open spec fn parsed_view(r: Result<ReleaseVersion, String>) -> Result<
    ReleaseVersionView,
    Seq<char>,
> {
    match r {
        Ok(version) => Ok(version@),
        Err(error) => Err(error@),
    }
}

/// Reads a version.
///
/// The body calls `semver::Version::parse` and copies the fields of the
/// version it gets, or the text of the error. The contract claims that
/// the result depends on the text alone, under the name `semver_parsed`.
#[verifier::external_body]
pub(crate) fn parse_version(text: &str) -> (r: Result<ReleaseVersion, String>)
    ensures
        parsed_view(r) == semver_parsed(text@),
{
    match Version::parse(text) {
        Ok(version) => Ok(
            ReleaseVersion {
                major: version.major,
                minor: version.minor,
                patch: version.patch,
                pre: version.pre.as_str().to_string(),
                build: version.build.as_str().to_string(),
            },
        ),
        Err(error) => Err(error.to_string()),
    }
}

/// Orders two versions.
///
/// The body makes a `semver::Version` of each argument, with
/// `Prerelease::new` and `BuildMetadata::new` for the two texts, and
/// compares them by the `Ord` of `semver::Version`. The contract claims
/// that the result depends on the parts alone, under the name
/// `semver_order`.
#[verifier::external_body]
pub(crate) fn order_versions(left: &ReleaseVersion, right: &ReleaseVersion) -> (r: Option<VersionOrder>)
    ensures
        r == semver_order(left@, right@),
{
    let pre = (Prerelease::new(&left.pre).ok()?, Prerelease::new(&right.pre).ok()?);
    let build = (BuildMetadata::new(&left.build).ok()?, BuildMetadata::new(&right.build).ok()?);
    let a = Version { major: left.major, minor: left.minor, patch: left.patch, pre: pre.0, build: build.0 };
    let b = Version { major: right.major, minor: right.minor, patch: right.patch, pre: pre.1, build: build.1 };
    Some(match a.cmp(&b) {
        Ordering::Less => VersionOrder::Earlier,
        Ordering::Equal => VersionOrder::Same,
        Ordering::Greater => VersionOrder::Later,
    })
}

} // verus!
