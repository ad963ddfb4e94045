//! The two vocabularies for the kind of a dependency, and the translation
//! between them.

use crate::error::ContractViolation;
use vstd::prelude::*;

verus! {

/// The kind of a dependency as the resolver names it.
#[derive(Clone, Copy, Debug, PartialEq, Eq, Hash, Structural)]
pub enum DepKind {
    Normal,
    Development,
    Build,
}

/// The kind of a dependency as the package metadata names it. The metadata
/// is decoded from text, so a fourth value stands for any kind that is none
/// of the three.
#[derive(Clone, Copy, Debug, PartialEq, Eq, Hash, Structural)]
pub enum DependencyKind {
    Normal,
    Development,
    Build,
    Unknown,
}

impl DepKind {
    /// The metadata's name for this kind.
    pub open spec fn metadata_kind(self) -> DependencyKind {
        match self {
            DepKind::Normal => DependencyKind::Normal,
            DepKind::Development => DependencyKind::Development,
            DepKind::Build => DependencyKind::Build,
        }
    }

    /// Translates a resolver kind into the metadata's vocabulary.
    pub fn to_cargo_metadata_dependency_kind(&self) -> (kind: DependencyKind)
        ensures
            kind == self.metadata_kind(),
    {
        match self {
            DepKind::Build => DependencyKind::Build,
            DepKind::Development => DependencyKind::Development,
            DepKind::Normal => DependencyKind::Normal,
        }
    }
}

impl DependencyKind {
    /// The resolver's name for this kind; none for a kind outside the three.
    pub open spec fn core_kind(self) -> Option<DepKind> {
        match self {
            DependencyKind::Normal => Some(DepKind::Normal),
            DependencyKind::Development => Some(DepKind::Development),
            DependencyKind::Build => Some(DepKind::Build),
            DependencyKind::Unknown => None,
        }
    }

    /// Translates a metadata kind into the resolver's vocabulary. A kind
    /// outside the three is never given a default: it is reported.
    pub fn to_cargo_core_dep_kind(&self) -> (kind: Result<DepKind, ContractViolation>)
        ensures
            kind == match self.core_kind() {
                Some(k) => Ok::<DepKind, ContractViolation>(k),
                None => Err(ContractViolation::UnknownDependencyKind),
            },
    {
        match self {
            DependencyKind::Build => Ok(DepKind::Build),
            DependencyKind::Development => Ok(DepKind::Development),
            DependencyKind::Normal => Ok(DepKind::Normal),
            DependencyKind::Unknown => Err(ContractViolation::UnknownDependencyKind),
        }
    }
}

/// A resolver kind that is translated into the metadata's vocabulary and
/// back comes out unchanged.
pub proof fn lemma_core_kind_round_trip(kind: DepKind)
    ensures
        kind.metadata_kind().core_kind() == Some(kind),
        kind.metadata_kind() != DependencyKind::Unknown,
{
}

/// A metadata kind that is one of the three is translated into the
/// resolver's vocabulary and back unchanged.
pub proof fn lemma_metadata_kind_round_trip(kind: DependencyKind)
    requires
        kind != DependencyKind::Unknown,
    ensures
        kind.core_kind() is Some,
        kind.core_kind().unwrap().metadata_kind() == kind,
{
}

/// Each translation reaches every kind of the three, and no two kinds share
/// a translation.
pub proof fn lemma_kind_translation_is_one_to_one(a: DepKind, b: DepKind, c: DependencyKind)
    ensures
        a.metadata_kind() == b.metadata_kind() ==> a == b,
        c != DependencyKind::Unknown ==> exists|k: DepKind| #[trigger] k.metadata_kind() == c,
        exists|k: DependencyKind| #[trigger] k.core_kind() == Some(a),
{
    if c != DependencyKind::Unknown {
        assert(c.core_kind().unwrap().metadata_kind() == c);
    }
    assert(a.metadata_kind().core_kind() == Some(a));
}

} // verus!
