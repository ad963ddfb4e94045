//! Evaluation of a version requirement. Requirements are parsed elsewhere;
//! here they are only carried along and asked.

use crate::version::SemanticVersion;
use cargo_metadata::semver::{BuildMetadata, Prerelease, Version, VersionReq};
use vstd::prelude::*;

verus! {

/// semver's `VersionReq`, a requirement on a version. Nothing is known of
/// what a requirement holds: it is carried along and handed back to semver.
#[verifier::external_type_specification]
#[verifier::external_body]
pub struct ExVersionReq(VersionReq);

/// The answer of semver's `VersionReq::matches` for the requirement `req`
/// and the version with the given numbers and pre-release tag. The answer
/// depends on nothing else: build metadata plays no part in it.
pub uninterp spec fn requirement_admits(
    req: VersionReq,
    major: u64,
    minor: u64,
    patch: u64,
    pre: Prerelease,
) -> bool;

impl SemanticVersion {
    /// Whether the requirement is satisfied by this version.
    pub open spec fn satisfies(&self, req: VersionReq) -> bool {
        requirement_admits(req, self.major, self.minor, self.patch, self.pre)
    }

    /// Asks the requirement whether this version satisfies it.
    pub fn matches_requirement(&self, req: &VersionReq) -> (ok: bool)
        ensures
            ok == self.satisfies(*req),
    {
        req_matches(req, self.major, self.minor, self.patch, &self.pre)
    }
}

/// Calls semver's `VersionReq::matches` on the version that has the given
/// numbers and pre-release tag and no build metadata. The claim is that the
/// result is the one named `requirement_admits`: it is a function of the
/// requirement, the three numbers and the tag.
#[verifier::external_body]
fn req_matches(req: &VersionReq, major: u64, minor: u64, patch: u64, pre: &Prerelease) -> (ok: bool)
    ensures
        ok == requirement_admits(*req, major, minor, patch, *pre),
{
    req.matches(&Version { major, minor, patch, pre: pre.clone(), build: BuildMetadata::EMPTY })
}

} // verus!
