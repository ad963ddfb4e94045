//! Finding the counterpart of a package, of a package id or of a declared
//! dependency among the packages of the metadata graph.
//!
//! Every lookup walks the packages in their listed order and keeps what fits.
//! Where nothing fits there is no counterpart, which is an ordinary outcome.
//! Where several packages fit, the one listed last is the counterpart.

use crate::graph::{Dependency, Metadata, Package, PackageId};
use crate::identity::PackageIdentity;
use vstd::prelude::*;

verus! {

/// Something that picks packages out of the metadata graph.
pub trait PackageSelector {
    /// Whether `package` is one that is looked for.
    spec fn selects(&self, package: &Package) -> bool;

    /// Decides whether `package` is one that is looked for.
    fn accepts(&self, package: &Package) -> (hit: bool)
        ensures
            hit == self.selects(package),
    ;
}

/// A package identity picks the packages with its name and its three version
/// numbers.
impl PackageSelector for PackageIdentity {
    open spec fn selects(&self, package: &Package) -> bool {
        package.key() == self.key()
    }

    fn accepts(&self, package: &Package) -> (hit: bool) {
        package.name == self.name && package.version.numbers_equal(&self.version)
    }
}

/// A package id picks the packages that carry this very id.
impl PackageSelector for PackageId {
    open spec fn selects(&self, package: &Package) -> bool {
        package.id@ == self@
    }

    fn accepts(&self, package: &Package) -> (hit: bool) {
        package.id.repr == self.repr
    }
}

/// A declared dependency picks the packages that have the wanted name and a
/// version that satisfies the requirement. Where a package comes from, and
/// what the dependency was declared against, plays no part.
impl PackageSelector for Dependency {
    open spec fn selects(&self, package: &Package) -> bool {
        package.name@ == self.name@ && package.version.satisfies(self.req)
    }

    fn accepts(&self, package: &Package) -> (hit: bool) {
        self.matches_ignoring_source(package)
    }
}

/// The position of the last of `packages` that `selector` picks, if it picks
/// any.
pub open spec fn last_selected<S: PackageSelector>(packages: Seq<Package>, selector: &S) -> Option<
    int,
>
    decreases packages.len(),
{
    if packages.len() == 0 {
        None
    } else if selector.selects(&packages.last()) {
        Some(packages.len() - 1)
    } else {
        last_selected(packages.drop_last(), selector)
    }
}

/// Whether `found` is what a lookup owes: the position of a picked package
/// behind which no other is picked, or none where no package is picked.
pub open spec fn is_last_pick<S: PackageSelector>(
    packages: Seq<Package>,
    selector: &S,
    found: Option<int>,
) -> bool {
    match found {
        Some(at) => {
            &&& 0 <= at < packages.len()
            &&& selector.selects(&packages[at])
            &&& forall|j: int| at < j < packages.len() ==> !selector.selects(&packages[j])
        },
        None => forall|j: int| 0 <= j < packages.len() ==> !selector.selects(&packages[j]),
    }
}

/// `last_selected` is none exactly where no package is picked; else it is
/// the position of a picked package behind which no other is picked.
pub proof fn lemma_last_selected<S: PackageSelector>(packages: Seq<Package>, selector: &S)
    ensures
        is_last_pick(packages, selector, last_selected(packages, selector)),
    decreases packages.len(),
{
    if packages.len() > 0 && !selector.selects(&packages.last()) {
        let front = packages.drop_last();
        lemma_last_selected(front, selector);
        assert forall|j: int| 0 <= j < front.len() implies front[j] == packages[j] by {}
        match last_selected(front, selector) {
            Some(at) => {
                assert forall|j: int| at < j < packages.len() implies !selector.selects(
                    &packages[j],
                ) by {
                    if j < front.len() {
                        assert(!selector.selects(&front[j]));
                    }
                }
            },
            None => {
                assert forall|j: int| 0 <= j < packages.len() implies !selector.selects(
                    &packages[j],
                ) by {
                    if j < front.len() {
                        assert(!selector.selects(&front[j]));
                    }
                }
            },
        }
    }
}

/// The tie-break is fixed: there is one answer that a lookup can give, and
/// it is `last_selected`, however often the lookup is made.
pub proof fn lemma_last_selected_is_unique<S: PackageSelector>(
    packages: Seq<Package>,
    selector: &S,
    found: Option<int>,
)
    requires
        is_last_pick(packages, selector, found),
    ensures
        last_selected(packages, selector) == found,
{
    lemma_last_selected(packages, selector);
}

/// Of two picked packages the one listed later wins: the counterpart is
/// never a package that is followed by another picked one.
pub proof fn lemma_later_package_wins<S: PackageSelector>(
    packages: Seq<Package>,
    selector: &S,
    first: int,
    second: int,
)
    requires
        0 <= first < second < packages.len(),
        selector.selects(&packages[first]),
        selector.selects(&packages[second]),
    ensures
        last_selected(packages, selector) is Some,
        last_selected(packages, selector).unwrap() >= second,
{
    lemma_last_selected(packages, selector);
}

impl Metadata {
    /// The position of the counterpart that `selector` has in this graph.
    pub open spec fn counterpart<S: PackageSelector>(&self, selector: &S) -> Option<int> {
        last_selected(self.packages@, selector)
    }

    /// What every lookup in this graph states of the counterpart that it
    /// went by: it is the last package that `selector` picks.
    pub open spec fn counterpart_is_last_pick<S: PackageSelector>(&self, selector: &S) -> bool {
        is_last_pick(self.packages@, selector, self.counterpart(selector))
    }

    /// The package that is the counterpart of `selector` in this graph.
    pub open spec fn counterpart_package<S: PackageSelector>(&self, selector: &S) -> Option<
        Package,
    > {
        match self.counterpart(selector) {
            Some(at) => Some(self.packages[at]),
            None => None,
        }
    }

    /// The id of the package that is the counterpart of `selector` in this
    /// graph.
    pub open spec fn counterpart_id<S: PackageSelector>(&self, selector: &S) -> Option<Seq<char>> {
        match self.counterpart(selector) {
            Some(at) => Some(self.packages[at].id@),
            None => None,
        }
    }

    /// Looks for the counterpart of `selector` in this graph and returns its
    /// position among the packages. The result is the last package that the
    /// selector picks, and none where it picks no package.
    pub fn find_counterpart<S: PackageSelector>(&self, selector: &S) -> (found: Option<usize>)
        ensures
            match found {
                Some(at) => self.counterpart(selector) == Some(at as int),
                None => self.counterpart(selector) is None,
            },
            self.counterpart_is_last_pick(selector),
    {
        let mut found: Option<usize> = None;
        let mut at: usize = 0;
        while at < self.packages.len()
            invariant
                at <= self.packages.len(),
                match found {
                    Some(k) => last_selected(self.packages@.take(at as int), selector) == Some(
                        k as int,
                    ),
                    None => last_selected(self.packages@.take(at as int), selector) is None,
                },
            decreases self.packages.len() - at,
        {
            proof {
                let next = self.packages@.take(at + 1);
                assert(next.drop_last() =~= self.packages@.take(at as int));
                assert(next.last() == self.packages@[at as int]);
            }
            if selector.accepts(&self.packages[at]) {
                found = Some(at);
            }
            at += 1;
        }
        proof {
            assert(self.packages@.take(at as int) =~= self.packages@);
            lemma_last_selected(self.packages@, selector);
        }
        found
    }

    /// The positions of all packages that `selector` picks, in the order in
    /// which the packages are listed. The counterpart is the last of them;
    /// more than one of them means that the lookup was ambiguous, which a
    /// caller may want to record.
    pub fn candidates<S: PackageSelector>(&self, selector: &S) -> (positions: Vec<usize>)
        ensures
            forall|k: int|
                0 <= k < positions.len() ==> (#[trigger] positions[k]) < self.packages.len()
                    && selector.selects(&self.packages[positions[k] as int]),
            forall|k: int, l: int| 0 <= k < l < positions.len() ==> positions[k] < positions[l],
            forall|i: int|
                0 <= i < self.packages.len() && selector.selects(&self.packages[i])
                    ==> exists|k: int| 0 <= k < positions.len() && positions[k] == i,
            self.counterpart(selector) == if positions.len() == 0 {
                None
            } else {
                Some(positions[positions.len() - 1] as int)
            },
            self.counterpart_is_last_pick(selector),
    {
        let mut positions: Vec<usize> = Vec::new();
        let mut at: usize = 0;
        while at < self.packages.len()
            invariant
                at <= self.packages.len(),
                forall|k: int|
                    0 <= k < positions.len() ==> (#[trigger] positions[k]) < at && selector.selects(
                        &self.packages[positions[k] as int],
                    ),
                forall|k: int, l: int| 0 <= k < l < positions.len() ==> positions[k] < positions[l],
                forall|i: int|
                    0 <= i < at && selector.selects(&self.packages[i]) ==> exists|k: int|
                        0 <= k < positions.len() && positions[k] == i,
            decreases self.packages.len() - at,
        {
            if selector.accepts(&self.packages[at]) {
                let ghost before = positions@;
                positions.push(at);
                assert forall|i: int|
                    0 <= i < at + 1 && selector.selects(&self.packages[i]) implies exists|k: int|
                    0 <= k < positions.len() && positions[k] == i by {
                    if i < at {
                        let k = choose|k: int| 0 <= k < before.len() && before[k] == i;
                        assert(positions[k] == i);
                    } else {
                        assert(positions[positions.len() - 1] == i);
                    }
                }
            }
            at += 1;
        }
        proof {
            lemma_last_selected(self.packages@, selector);
            if positions.len() > 0 {
                let last = positions[positions.len() - 1] as int;
                assert forall|j: int| last < j < self.packages.len() implies !selector.selects(
                    &self.packages[j],
                ) by {
                    if selector.selects(&self.packages[j]) {
                        let k = choose|k: int| 0 <= k < positions.len() && positions[k] == j;
                        assert(positions[k] <= positions[positions.len() - 1]);
                    }
                }
                lemma_last_selected_is_unique(self.packages@, selector, Some(last));
            } else {
                assert forall|j: int| 0 <= j < self.packages.len() implies !selector.selects(
                    &self.packages[j],
                ) by {
                    if selector.selects(&self.packages[j]) {
                        let k = choose|k: int| 0 <= k < positions.len() && positions[k] == j;
                    }
                }
                lemma_last_selected_is_unique(self.packages@, selector, None);
            }
        }
        positions
    }

    /// The package that is the counterpart of `selector`, if there is one.
    pub fn package_for<S: PackageSelector>(&self, selector: &S) -> (found: Option<&Package>)
        ensures
            match found {
                Some(package) => self.counterpart_package(selector) == Some(*package),
                None => self.counterpart_package(selector) is None,
            },
            self.counterpart_is_last_pick(selector),
    {
        match self.find_counterpart(selector) {
            Some(at) => Some(&self.packages[at]),
            None => None,
        }
    }

    /// The id of the package that is the counterpart of `selector`, if there
    /// is one.
    pub fn package_id_for<S: PackageSelector>(&self, selector: &S) -> (found: Option<PackageId>)
        ensures
            match found {
                Some(id) => self.counterpart_id(selector) == Some(id@),
                None => self.counterpart_id(selector) is None,
            },
            self.counterpart_is_last_pick(selector),
    {
        match self.find_counterpart(selector) {
            Some(at) => Some(self.packages[at].id.clone()),
            None => None,
        }
    }
}

impl PackageIdentity {
    /// The package of the metadata graph that has the name and the three
    /// version numbers of this one: the last such package, none if there is
    /// no such package.
    pub fn to_cargo_metadata_package<'a>(&self, metadata: &'a Metadata) -> (found: Option<
        &'a Package,
    >)
        ensures
            match found {
                Some(package) => metadata.counterpart_package(self) == Some(*package),
                None => metadata.counterpart_package(self) is None,
            },
            metadata.counterpart_is_last_pick(self),
    {
        metadata.package_for(self)
    }

    /// The id that the metadata graph gives the package with the name and
    /// the three version numbers of this one: that of the last such package,
    /// none if there is no such package.
    pub fn to_cargo_metadata_package_id(&self, metadata: &Metadata) -> (found: Option<PackageId>)
        ensures
            match found {
                Some(id) => metadata.counterpart_id(self) == Some(id@),
                None => metadata.counterpart_id(self) is None,
            },
            metadata.counterpart_is_last_pick(self),
    {
        metadata.package_id_for(self)
    }
}

impl PackageId {
    /// The package of the metadata graph that carries this id: the last such
    /// package, none if no package carries it.
    pub fn to_cargo_metadata_package<'a>(&self, metadata: &'a Metadata) -> (found: Option<
        &'a Package,
    >)
        ensures
            match found {
                Some(package) => metadata.counterpart_package(self) == Some(*package),
                None => metadata.counterpart_package(self) is None,
            },
            metadata.counterpart_is_last_pick(self),
    {
        metadata.package_for(self)
    }
}

impl Dependency {
    /// Whether `candidate` fulfils this dependency: it has the wanted name
    /// and its version satisfies the requirement. The origin that the
    /// dependency was declared against and the origin of the candidate are
    /// not compared.
    pub fn matches_ignoring_source(&self, candidate: &Package) -> (hit: bool)
        ensures
            hit == (candidate.name@ == self.name@ && candidate.version.satisfies(self.req)),
    {
        candidate.name == self.name && candidate.version.matches_requirement(&self.req)
    }

    /// Whether the package that carries `package_id` in `metadata` fulfils
    /// this dependency. Where no package carries the id the answer is no.
    pub fn matches_id_ignoring_source(&self, metadata: &Metadata, package_id: &PackageId) -> (hit:
        bool)
        ensures
            hit == match metadata.counterpart_package(package_id) {
                Some(candidate) => self.selects(&candidate),
                None => false,
            },
            metadata.counterpart_is_last_pick(package_id),
    {
        match package_id.to_cargo_metadata_package(metadata) {
            Some(candidate) => self.matches_ignoring_source(candidate),
            None => false,
        }
    }

    /// The id of the package of the metadata graph that fulfils this
    /// dependency: that of the last package with the wanted name and a
    /// version that satisfies the requirement, none if there is no such
    /// package.
    pub fn to_cargo_metadata_package_id(&self, metadata: &Metadata) -> (found: Option<PackageId>)
        ensures
            match found {
                Some(id) => metadata.counterpart_id(self) == Some(id@),
                None => metadata.counterpart_id(self) is None,
            },
            metadata.counterpart_is_last_pick(self),
    {
        metadata.package_id_for(self)
    }
}

/// Whether a package fulfils a dependency is decided by the names, the
/// requirement and the version alone: two dependencies that differ only in
/// the origin they were declared against, asked of two packages that differ
/// only in where they come from, get the same answer.
pub proof fn lemma_matching_ignores_sources(
    declared: Dependency,
    redeclared: Dependency,
    candidate: Package,
    relocated: Package,
)
    requires
        declared.name@ == redeclared.name@,
        declared.req == redeclared.req,
        candidate.name@ == relocated.name@,
        candidate.version == relocated.version,
    ensures
        declared.selects(&candidate) == redeclared.selects(&relocated),
{
}

} // verus!
