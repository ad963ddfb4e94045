//! Version numbers, and the key by which a package is recognised in both
//! graphs.

use cargo_metadata::semver::Prerelease;
use vstd::prelude::*;

verus! {

/// semver's `Prerelease`, the pre-release tag of a version. Nothing is known
/// of what a tag holds: it is carried along and handed back to semver.
#[verifier::external_type_specification]
#[verifier::external_body]
pub struct ExPrerelease(Prerelease);

/// semver's `Prerelease::clone`. It copies the text of the tag, so the copy
/// is taken to be the same tag as the one it was made from.
pub assume_specification[ <Prerelease as Clone>::clone ](tag: &Prerelease) -> (copy: Prerelease)
    ensures
        copy == *tag,
;

/// A semantic version: three numbers and a pre-release tag, which is empty
/// for a release.
#[derive(Debug)]
pub struct SemanticVersion {
    pub major: u64,
    pub minor: u64,
    pub patch: u64,
    pub pre: Prerelease,
}

impl Clone for SemanticVersion {
    fn clone(&self) -> (copy: Self)
        ensures
            copy == *self,
    {
        SemanticVersion {
            major: self.major,
            minor: self.minor,
            patch: self.patch,
            pre: self.pre.clone(),
        }
    }
}

/// What identifies a package in either graph: its name and the three numbers
/// of its version. The pre-release tag and the source are no part of it,
/// since the two graphs need not write them alike.
pub ghost struct IdentityKey {
    pub name: Seq<char>,
    pub major: u64,
    pub minor: u64,
    pub patch: u64,
}

impl SemanticVersion {
    /// The key of a package of this version that is called `name`.
    pub open spec fn key_for(&self, name: Seq<char>) -> IdentityKey {
        IdentityKey { name, major: self.major, minor: self.minor, patch: self.patch }
    }

    /// Whether the three numbers of the two versions agree.
    pub open spec fn same_numbers(&self, other: &SemanticVersion) -> bool {
        self.major == other.major && self.minor == other.minor && self.patch == other.patch
    }

    /// Compares the three numbers of two versions and nothing else.
    pub fn numbers_equal(&self, other: &SemanticVersion) -> (same: bool)
        ensures
            same == self.same_numbers(other),
    {
        self.major == other.major && self.minor == other.minor && self.patch == other.patch
    }
}

} // verus!
