//! The dependencies of a package that are still their own: not overridden by
//! another source.
//!
//! The metadata graph lists every dependency in its final, resolved form, so
//! it knows of no replacement. Each dependency that has a counterpart in the
//! graph is reported with an empty set of replacing packages. A dependency
//! without counterpart, such as one for another platform, is left out.

use crate::graph::{Dependency, Metadata, PackageId};
use crate::index::IndexedMetadata;
use crate::lookup::PackageSelector;
use std::collections::HashSet;
use vstd::prelude::*;

verus! {

/// A dependency that was found in the graph, with the packages that took its
/// place. An empty set says that it was not replaced.
#[derive(Debug)]
pub struct ReplacementRecord {
    pub replaced: PackageId,
    pub replacement_candidates: HashSet<PackageId>,
}

impl Metadata {
    /// The function that gives each dependency the id of its counterpart in
    /// this graph.
    pub open spec fn id_finder(&self) -> spec_fn(Dependency) -> Option<Seq<char>> {
        |dependency: Dependency| self.counterpart_id(&dependency)
    }

    /// The ids of the counterparts of `dependencies`, in the order of the
    /// dependencies, those without counterpart left out.
    pub open spec fn resolved_ids(&self, dependencies: Seq<Dependency>) -> Seq<Seq<char>> {
        dependencies.filter_map(self.id_finder())
    }

    /// Whether `package_id` is the id of a package of this graph.
    pub open spec fn holds(&self, package_id: &PackageId) -> bool {
        self.counterpart(package_id) is Some
    }

    /// The ids that `deps_not_replaced` reports for the package with the id
    /// `package_id`: those of the counterparts of its declared dependencies.
    pub open spec fn not_replaced(&self, package_id: &PackageId) -> Seq<Seq<char>> {
        self.resolved_ids(self.counterpart_package(package_id).unwrap().dependencies@)
    }

    /// The dependencies that the package with the id `package_id` declares
    /// and that were not replaced. There is one record for each declared
    /// dependency that has a counterpart in this graph, in the order of
    /// declaration; it holds the id of the counterpart and an empty set.
    pub fn deps_not_replaced(&self, package_id: &PackageId) -> (records: Vec<ReplacementRecord>)
        requires
            self.holds(package_id),
        ensures
            records.len() == self.not_replaced(package_id).len(),
            forall|i: int|
                0 <= i < records.len() ==> {
                    &&& (#[trigger] records[i]).replaced@ == self.not_replaced(package_id)[i]
                    &&& records[i].replacement_candidates@ == Set::<PackageId>::empty()
                },
    {
        let mut records: Vec<ReplacementRecord> = Vec::new();
        let package = self.package_for(package_id).unwrap();
        let ghost declared = package.dependencies@;
        let mut at: usize = 0;
        while at < package.dependencies.len()
            invariant
                at <= package.dependencies.len(),
                declared == package.dependencies@,
                records.len() == self.resolved_ids(declared.take(at as int)).len(),
                forall|i: int|
                    0 <= i < records.len() ==> {
                        &&& (#[trigger] records[i]).replaced@ == self.resolved_ids(
                            declared.take(at as int),
                        )[i]
                        &&& records[i].replacement_candidates@ == Set::<PackageId>::empty()
                    },
            decreases package.dependencies.len() - at,
        {
            proof {
                declared.lemma_filter_map_take_succ(self.id_finder(), at as int);
            }
            if let Some(id) = package.dependencies[at].to_cargo_metadata_package_id(self) {
                records.push(ReplacementRecord { replaced: id, replacement_candidates: HashSet::new() });
            }
            at += 1;
        }
        proof {
            assert(declared.take(at as int) =~= declared);
        }
        records
    }
}

impl IndexedMetadata {
    /// The dependencies that the package with the id `package_id` declares
    /// and that were not replaced, as `Metadata::deps_not_replaced` gives
    /// them for the indexed graph. The counterpart of each dependency is
    /// looked up through the index.
    pub fn deps_not_replaced(&self, package_id: &PackageId) -> (records: Vec<ReplacementRecord>)
        requires
            self.graph().holds(package_id),
        ensures
            records.len() == self.graph().not_replaced(package_id).len(),
            forall|i: int|
                0 <= i < records.len() ==> {
                    &&& (#[trigger] records[i]).replaced@ == self.graph().not_replaced(
                        package_id,
                    )[i]
                    &&& records[i].replacement_candidates@ == Set::<PackageId>::empty()
                },
    {
        let mut records: Vec<ReplacementRecord> = Vec::new();
        let package = self.metadata().package_for(package_id).unwrap();
        let ghost graph = self.graph();
        let ghost declared = package.dependencies@;
        let mut at: usize = 0;
        while at < package.dependencies.len()
            invariant
                at <= package.dependencies.len(),
                declared == package.dependencies@,
                graph == self.graph(),
                records.len() == graph.resolved_ids(declared.take(at as int)).len(),
                forall|i: int|
                    0 <= i < records.len() ==> {
                        &&& (#[trigger] records[i]).replaced@ == graph.resolved_ids(
                            declared.take(at as int),
                        )[i]
                        &&& records[i].replacement_candidates@ == Set::<PackageId>::empty()
                    },
            decreases package.dependencies.len() - at,
        {
            proof {
                declared.lemma_filter_map_take_succ(graph.id_finder(), at as int);
            }
            if let Some(id) = self.package_id_for(&package.dependencies[at]) {
                records.push(ReplacementRecord { replaced: id, replacement_candidates: HashSet::new() });
            }
            at += 1;
        }
        proof {
            assert(declared.take(at as int) =~= declared);
        }
        records
    }
}

/// A dependency without counterpart leaves no trace: the result is the one
/// that the other dependencies would give without it.
pub proof fn lemma_unresolved_is_omitted(
    metadata: Metadata,
    dependencies: Seq<Dependency>,
    missing: int,
)
    requires
        0 <= missing < dependencies.len(),
        metadata.counterpart_id(&dependencies[missing]) is None,
    ensures
        metadata.resolved_ids(dependencies) == metadata.resolved_ids(dependencies.remove(missing)),
    decreases dependencies.len(),
{
    let others = dependencies.remove(missing);
    if missing == dependencies.len() - 1 {
        assert(others =~= dependencies.drop_last());
    } else {
        let front = dependencies.drop_last();
        lemma_unresolved_is_omitted(metadata, front, missing);
        assert(others.drop_last() =~= front.remove(missing));
        assert(others.last() == dependencies.last());
    }
}

/// Where every dependency has a counterpart, there is one id for each, in
/// the order of the dependencies.
pub proof fn lemma_resolved_in_order(metadata: Metadata, dependencies: Seq<Dependency>)
    requires
        forall|i: int|
            0 <= i < dependencies.len() ==> metadata.counterpart_id(&dependencies[i]) is Some,
    ensures
        metadata.resolved_ids(dependencies).len() == dependencies.len(),
        forall|i: int|
            0 <= i < dependencies.len() ==> metadata.resolved_ids(dependencies)[i]
                == metadata.counterpart_id(&dependencies[i]).unwrap(),
    decreases dependencies.len(),
{
    if dependencies.len() > 0 {
        let front = dependencies.drop_last();
        assert forall|i: int| 0 <= i < front.len() implies metadata.counterpart_id(
            &front[i],
        ) is Some by {
            assert(front[i] == dependencies[i]);
        }
        lemma_resolved_in_order(metadata, front);
        assert forall|i: int| 0 <= i < dependencies.len() implies metadata.resolved_ids(
            dependencies,
        )[i] == metadata.counterpart_id(&dependencies[i]).unwrap() by {
            if i < front.len() {
                assert(front[i] == dependencies[i]);
            }
        }
    }
}

/// Where exactly one of the dependencies has no counterpart, the result has
/// one entry less than there are dependencies: the ids of the counterparts
/// of the others, in the order of declaration. Of three dependencies two
/// are left.
pub proof fn lemma_only_the_unresolved_is_omitted(
    metadata: Metadata,
    dependencies: Seq<Dependency>,
    missing: int,
)
    requires
        0 <= missing < dependencies.len(),
        forall|i: int|
            0 <= i < dependencies.len() ==> (metadata.counterpart_id(&dependencies[i]) is None
                <==> i == missing),
    ensures
        metadata.resolved_ids(dependencies).len() == dependencies.len() - 1,
        forall|i: int|
            0 <= i < missing ==> metadata.resolved_ids(dependencies)[i] == metadata.counterpart_id(
                &dependencies[i],
            ).unwrap(),
        forall|i: int|
            missing <= i < dependencies.len() - 1 ==> metadata.resolved_ids(dependencies)[i]
                == metadata.counterpart_id(&dependencies[i + 1]).unwrap(),
{
    let others = dependencies.remove(missing);
    lemma_unresolved_is_omitted(metadata, dependencies, missing);
    assert forall|i: int| 0 <= i < others.len() implies metadata.counterpart_id(
        &others[i],
    ) is Some by {
        if i < missing {
            assert(others[i] == dependencies[i]);
        } else {
            assert(others[i] == dependencies[i + 1]);
        }
    }
    lemma_resolved_in_order(metadata, others);
    assert forall|i: int| 0 <= i < missing implies metadata.resolved_ids(dependencies)[i]
        == metadata.counterpart_id(&dependencies[i]).unwrap() by {
        assert(others[i] == dependencies[i]);
    }
    assert forall|i: int| missing <= i < dependencies.len() - 1 implies metadata.resolved_ids(
        dependencies,
    )[i] == metadata.counterpart_id(&dependencies[i + 1]).unwrap() by {
        assert(others[i] == dependencies[i + 1]);
    }
}

} // verus!
