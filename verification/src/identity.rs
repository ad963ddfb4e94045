//! The portable identity of a package, and when two identities name the same
//! package.

use crate::version::{IdentityKey, SemanticVersion};
use vstd::prelude::*;

verus! {

/// Where a package comes from.
#[derive(Clone, Copy, Debug, PartialEq, Eq, Hash, Structural)]
pub enum SourceKind {
    Registry,
    Path,
    Git,
    Unknown,
}

/// A package as it is reported to the outside: name, version and the kind of
/// its source.
#[derive(Debug)]
pub struct PackageIdentity {
    pub name: String,
    pub version: SemanticVersion,
    pub source: SourceKind,
}

impl Clone for PackageIdentity {
    fn clone(&self) -> (copy: Self)
        ensures
            copy == *self,
    {
        PackageIdentity {
            name: self.name.clone(),
            version: self.version.clone(),
            source: self.source,
        }
    }
}

impl PackageIdentity {
    /// The key under which this package is known in either graph.
    pub open spec fn key(&self) -> IdentityKey {
        self.version.key_for(self.name@)
    }

    /// Whether the two identities name the same package: the names and the
    /// three version numbers agree. Pre-release tags and sources are not
    /// looked at.
    pub fn equals(&self, other: &PackageIdentity) -> (same: bool)
        ensures
            same == (self.key() == other.key()),
    {
        self.name == other.name && self.version.numbers_equal(&other.version)
    }
}

/// Two identities with the same name and the same three version numbers are
/// the same package, whatever their pre-release tags and sources are.
pub proof fn lemma_equality_ignores_tag_and_source(a: PackageIdentity, b: PackageIdentity)
    requires
        a.name@ == b.name@,
        a.version.major == b.version.major,
        a.version.minor == b.version.minor,
        a.version.patch == b.version.patch,
    ensures
        a.key() == b.key(),
{
}

/// Two identities that differ in the name or in one of the three version
/// numbers are never the same package.
pub proof fn lemma_no_false_match(a: PackageIdentity, b: PackageIdentity)
    requires
        a.name@ != b.name@ || a.version.major != b.version.major || a.version.minor
            != b.version.minor || a.version.patch != b.version.patch,
    ensures
        a.key() != b.key(),
{
}

} // verus!
