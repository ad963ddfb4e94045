//! Building the portable identity of a package of the metadata graph.

use crate::error::ContractViolation;
use crate::graph::{Metadata, Package, PackageId};
use crate::identity::PackageIdentity;
use vstd::prelude::*;

verus! {

impl PackageIdentity {
    /// Whether this is the identity of `package`: its name, its version as
    /// it stands, and the kind of its declared origin.
    pub open spec fn describes(&self, package: &Package) -> bool {
        &&& self.name@ == package.name@
        &&& self.version == package.version
        &&& self.source == package.source_kind()
    }
}

impl Package {
    /// The portable identity of this package.
    pub fn identity(&self) -> (identity: PackageIdentity)
        ensures
            identity.describes(self),
    {
        PackageIdentity {
            name: self.name.clone(),
            version: self.version.clone(),
            source: self.classify(),
        }
    }
}

impl PackageId {
    /// The portable identity of the package that carries this id in
    /// `metadata`. An id is expected to be taken from the graph it is looked
    /// up in: for one that the graph does not hold, the lookup fails with
    /// `ContractViolation::LookupFailed`.
    pub fn to_cargo_geiger_package_id(&self, metadata: &Metadata) -> (built: Result<
        PackageIdentity,
        ContractViolation,
    >)
        ensures
            match metadata.counterpart_package(self) {
                Some(package) => built is Ok && built.unwrap().describes(&package),
                None => built == Err::<PackageIdentity, ContractViolation>(
                    ContractViolation::LookupFailed,
                ),
            },
            metadata.counterpart_is_last_pick(self),
    {
        match self.to_cargo_metadata_package(metadata) {
            Some(package) => Ok(package.identity()),
            None => Err(ContractViolation::LookupFailed),
        }
    }
}

/// The identity that is built for a package is the same package as the one
/// it was built from, under the comparison by name and version numbers.
pub proof fn lemma_identity_keeps_key(identity: PackageIdentity, package: Package)
    requires
        identity.describes(&package),
    ensures
        identity.key() == package.key(),
{
}

} // verus!
