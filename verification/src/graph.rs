//! The metadata graph: the packages of a workspace with the dependencies
//! that each of them declares.

use crate::identity::SourceKind;
use crate::kind::DependencyKind;
use crate::source::{classify_origin, source_kind};
use crate::version::{IdentityKey, SemanticVersion};
use cargo_metadata::semver::VersionReq;
use vstd::prelude::*;

verus! {

/// The identifier that the metadata gives a package. It means something in
/// the metadata graph only, and is compared with other such identifiers only.
#[derive(Debug, PartialEq, Eq, Hash)]
pub struct PackageId {
    pub repr: String,
}

impl View for PackageId {
    type V = Seq<char>;

    open spec fn view(&self) -> Seq<char> {
        self.repr@
    }
}

impl Clone for PackageId {
    fn clone(&self) -> (copy: Self)
        ensures
            copy == *self,
    {
        PackageId { repr: self.repr.clone() }
    }
}

/// A dependency as a package declares it: the name of the wanted package and
/// the requirement on its version, with the kind of the dependency and the
/// origin it was declared against.
#[derive(Debug)]
pub struct Dependency {
    pub name: String,
    pub source: Option<String>,
    pub req: VersionReq,
    pub kind: DependencyKind,
}

/// A package of the metadata graph.
#[derive(Debug)]
pub struct Package {
    pub name: String,
    pub version: SemanticVersion,
    pub id: PackageId,
    pub source: Option<String>,
    pub dependencies: Vec<Dependency>,
}

/// The metadata graph of one workspace, in the order in which the packages
/// were listed.
#[derive(Debug)]
pub struct Metadata {
    pub packages: Vec<Package>,
}

impl Package {
    /// The key under which this package is known in either graph.
    pub open spec fn key(&self) -> IdentityKey {
        self.version.key_for(self.name@)
    }

    /// The origin that the metadata declares for this package, if any.
    pub open spec fn origin(&self) -> Option<Seq<char>> {
        match self.source {
            Some(text) => Some(text@),
            None => None,
        }
    }

    /// The kind of source of this package.
    pub open spec fn source_kind(&self) -> SourceKind {
        source_kind(self.origin())
    }

    /// Classifies the declared origin of this package. This never fails: an
    /// origin that is malformed or not known is of kind `Unknown`.
    pub fn classify(&self) -> (kind: SourceKind)
        ensures
            kind == self.source_kind(),
    {
        match &self.source {
            Some(text) => classify_origin(text.as_str()),
            None => SourceKind::Path,
        }
    }
}

} // verus!
