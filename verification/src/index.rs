//! A metadata graph with an index from package names to packages.
//!
//! A lookup by name in the bare graph walks every package. Where many
//! lookups are made in one graph, the index is built once and each lookup
//! then visits only the packages that have the wanted name, from the last
//! one backwards. The answers are those of the walk through the whole graph.

use crate::graph::{Dependency, Metadata, Package, PackageId};
use crate::identity::PackageIdentity;
use crate::lookup::{lemma_last_selected_is_unique, PackageSelector};
use vstd::hash_map::StringHashMap;
use vstd::prelude::*;

verus! {

/// A selector that picks packages of one name only.
pub trait NamedSelector: PackageSelector {
    /// The name of the packages that are looked for.
    spec fn wanted_name(&self) -> Seq<char>;

    /// The name of the packages that are looked for.
    fn name(&self) -> (name: &str)
        ensures
            name@ == self.wanted_name(),
    ;

    /// No package of another name is picked.
    proof fn lemma_picks_by_name(&self, package: &Package)
        ensures
            self.selects(package) ==> package.name@ == self.wanted_name(),
    ;
}

impl NamedSelector for PackageIdentity {
    open spec fn wanted_name(&self) -> Seq<char> {
        self.name@
    }

    fn name(&self) -> (name: &str) {
        self.name.as_str()
    }

    proof fn lemma_picks_by_name(&self, package: &Package) {
    }
}

impl NamedSelector for Dependency {
    open spec fn wanted_name(&self) -> Seq<char> {
        self.name@
    }

    fn name(&self) -> (name: &str) {
        self.name.as_str()
    }

    proof fn lemma_picks_by_name(&self, package: &Package) {
    }
}

/// Whether `link` is the position of the last package called `name` among
/// the first `bound` packages, or none where none of them is called so.
spec fn is_nearest_before(
    packages: Seq<Package>,
    name: Seq<char>,
    bound: int,
    link: Option<usize>,
) -> bool {
    match link {
        Some(at) => {
            &&& at < bound
            &&& packages[at as int].name@ == name
            &&& forall|k: int| at < k < bound ==> packages[k].name@ != name
        },
        None => forall|k: int| 0 <= k < bound ==> packages[k].name@ != name,
    }
}

/// The entry of `name` in the map from names to positions.
spec fn entry_of(last_by_name: Map<Seq<char>, usize>, name: Seq<char>) -> Option<usize> {
    if last_by_name.contains_key(name) {
        Some(last_by_name[name])
    } else {
        None
    }
}

/// Whether the map and the links are an index of the first `bound` packages:
/// the map leads from each name to the last package of that name, and the
/// link of each package leads to the nearest package of the same name before
/// it.
spec fn is_index_of(
    packages: Seq<Package>,
    bound: int,
    last_by_name: Map<Seq<char>, usize>,
    previous: Seq<Option<usize>>,
) -> bool {
    &&& 0 <= bound <= packages.len()
    &&& previous.len() == bound
    &&& forall|name: Seq<char>|
        is_nearest_before(packages, name, bound, #[trigger] entry_of(last_by_name, name))
    &&& forall|i: int|
        0 <= i < bound ==> is_nearest_before(packages, packages[i].name@, i, #[trigger] previous[i])
}

/// A metadata graph together with its index by package name. The graph is
/// taken over when the index is built and cannot be changed afterwards, so
/// the two never disagree.
pub struct IndexedMetadata {
    metadata: Metadata,
    last_by_name: StringHashMap<usize>,
    previous: Vec<Option<usize>>,
}

impl IndexedMetadata {
    #[verifier::type_invariant]
    spec fn well_formed(self) -> bool {
        is_index_of(
            self.metadata.packages@,
            self.metadata.packages@.len() as int,
            self.last_by_name@,
            self.previous@,
        )
    }

    /// The graph that is indexed.
    pub closed spec fn graph(&self) -> Metadata {
        self.metadata
    }

    /// Builds the index of `metadata` in one walk through its packages.
    pub fn new(metadata: Metadata) -> (indexed: IndexedMetadata)
        ensures
            indexed.graph() == metadata,
    {
        let mut last_by_name: StringHashMap<usize> = StringHashMap::new();
        let mut previous: Vec<Option<usize>> = Vec::new();
        let mut at: usize = 0;
        while at < metadata.packages.len()
            invariant
                is_index_of(metadata.packages@, at as int, last_by_name@, previous@),
            decreases metadata.packages.len() - at,
        {
            let name = &metadata.packages[at].name;
            let link: Option<usize> = match last_by_name.get(name.as_str()) {
                Some(position) => Some(*position),
                None => None,
            };
            let ghost map_before = last_by_name@;
            let ghost links_before = previous@;
            assert(link == entry_of(map_before, name@));
            previous.push(link);
            last_by_name.insert(name.clone(), at);
            proof {
                let packages = metadata.packages@;
                assert forall|other: Seq<char>|
                    is_nearest_before(
                        packages,
                        other,
                        at + 1,
                        #[trigger] entry_of(last_by_name@, other),
                    ) by {
                    if other != name@ {
                        assert(entry_of(last_by_name@, other) == entry_of(map_before, other));
                        assert(is_nearest_before(packages, other, at as int, entry_of(map_before, other)));
                    }
                }
                assert forall|i: int| 0 <= i < at + 1 implies is_nearest_before(
                    packages,
                    packages[i].name@,
                    i,
                    #[trigger] previous@[i],
                ) by {
                    if i < at {
                        assert(previous@[i] == links_before[i]);
                    } else {
                        assert(is_nearest_before(packages, name@, at as int, entry_of(map_before, name@)));
                    }
                }
            }
            at += 1;
        }
        IndexedMetadata { metadata, last_by_name, previous }
    }

    /// The graph that is indexed.
    pub fn metadata(&self) -> (metadata: &Metadata)
        ensures
            *metadata == self.graph(),
    {
        &self.metadata
    }

    /// Looks for the counterpart of `selector` and returns its position among
    /// the packages of the graph: the last package that the selector picks,
    /// and none where it picks no package. Only packages with the wanted
    /// name are visited.
    pub fn find_counterpart<S: NamedSelector>(&self, selector: &S) -> (found: Option<usize>)
        ensures
            match found {
                Some(at) => self.graph().counterpart(selector) == Some(at as int),
                None => self.graph().counterpart(selector) is None,
            },
            self.graph().counterpart_is_last_pick(selector),
    {
        proof {
            use_type_invariant(self);
        }
        let ghost packages = self.metadata.packages@;
        let ghost wanted = selector.wanted_name();
        let mut cursor: Option<usize> = match self.last_by_name.get(selector.name()) {
            Some(position) => Some(*position),
            None => None,
        };
        let ghost mut bound: int = packages.len() as int;
        assert(cursor == entry_of(self.last_by_name@, wanted));
        while cursor.is_some()
            invariant
                packages == self.metadata.packages@,
                wanted == selector.wanted_name(),
                is_index_of(packages, packages.len() as int, self.last_by_name@, self.previous@),
                0 <= bound <= packages.len(),
                is_nearest_before(packages, wanted, bound, cursor),
                forall|j: int| bound <= j < packages.len() ==> !selector.selects(&packages[j]),
            decreases bound,
        {
            let at: usize = cursor.unwrap();
            if selector.accepts(&self.metadata.packages[at]) {
                proof {
                    assert forall|j: int| at < j < packages.len() implies !selector.selects(
                        &packages[j],
                    ) by {
                        if j < bound {
                            selector.lemma_picks_by_name(&packages[j]);
                        }
                    }
                    lemma_last_selected_is_unique(packages, selector, Some(at as int));
                }
                return Some(at);
            }
            proof {
                assert forall|j: int| at <= j < packages.len() implies !selector.selects(
                    &packages[j],
                ) by {
                    if at < j < bound {
                        selector.lemma_picks_by_name(&packages[j]);
                    }
                }
                bound = at as int;
            }
            cursor = self.previous[at];
        }
        proof {
            assert forall|j: int| 0 <= j < packages.len() implies !selector.selects(
                &packages[j],
            ) by {
                if j < bound {
                    selector.lemma_picks_by_name(&packages[j]);
                }
            }
            lemma_last_selected_is_unique(packages, selector, None);
        }
        None
    }

    /// The id of the package that is the counterpart of `selector`, if there
    /// is one.
    pub fn package_id_for<S: NamedSelector>(&self, selector: &S) -> (found: Option<PackageId>)
        ensures
            match found {
                Some(id) => self.graph().counterpart_id(selector) == Some(id@),
                None => self.graph().counterpart_id(selector) is None,
            },
            self.graph().counterpart_is_last_pick(selector),
    {
        match self.find_counterpart(selector) {
            Some(at) => Some(self.metadata.packages[at].id.clone()),
            None => None,
        }
    }
}

} // verus!
