use cargo_metadata::semver::{Prerelease, VersionReq};
use geiger_mapping::graph::{Dependency, Metadata, Package, PackageId};
use geiger_mapping::identity::{PackageIdentity, SourceKind};
use geiger_mapping::index::{IndexedMetadata, NamedSelector};
use geiger_mapping::kind::DependencyKind;
use geiger_mapping::version::SemanticVersion;

fn version(major: u64, minor: u64, patch: u64) -> SemanticVersion {
    SemanticVersion { major, minor, patch, pre: Prerelease::EMPTY }
}

fn dependency(name: &str, req: &str) -> Dependency {
    Dependency {
        name: name.to_string(),
        source: None,
        req: VersionReq::parse(req).unwrap(),
        kind: DependencyKind::Normal,
    }
}

fn package(id: &str, name: &str, v: SemanticVersion, dependencies: Vec<Dependency>) -> Package {
    Package {
        id: PackageId { repr: id.to_string() },
        name: name.to_string(),
        version: v,
        source: None,
        dependencies,
    }
}

fn wanted(name: &str, v: SemanticVersion) -> PackageIdentity {
    PackageIdentity { name: name.to_string(), version: v, source: SourceKind::Unknown }
}

fn id(repr: &str) -> PackageId {
    PackageId { repr: repr.to_string() }
}

fn packages() -> Vec<Package> {
    vec![
        package("x1", "x", version(1, 0, 0), Vec::new()),
        package(
            "root",
            "root",
            version(0, 1, 0),
            vec![
                dependency("y", "^1"),
                dependency("absent", "*"),
                dependency("x", "^1"),
                dependency("x", "=1.0.0"),
                dependency("x", ">=3"),
            ],
        ),
        package("x2", "x", version(1, 5, 0), Vec::new()),
        package("y1", "y", version(1, 7, 0), Vec::new()),
        package("x3", "x", version(2, 0, 0), Vec::new()),
        package("x4", "x", version(1, 5, 0), Vec::new()),
        package("y2", "y", version(2, 0, 0), Vec::new()),
    ]
}

#[test]
fn the_index_keeps_the_graph_as_it_was() {
    let indexed = IndexedMetadata::new(Metadata { packages: packages() });
    let kept = indexed.metadata();
    assert_eq!(kept.packages.len(), 7);
    for (kept, given) in kept.packages.iter().zip(packages().iter()) {
        assert_eq!(kept.id, given.id);
        assert_eq!(kept.name, given.name);
    }
}

#[test]
fn the_index_answers_as_the_walk_does() {
    let plain = Metadata { packages: packages() };
    let indexed = IndexedMetadata::new(Metadata { packages: packages() });
    let identities = [
        wanted("x", version(1, 0, 0)),
        wanted("x", version(1, 5, 0)),
        wanted("x", version(2, 0, 0)),
        wanted("x", version(3, 0, 0)),
        wanted("y", version(1, 7, 0)),
        wanted("y", version(2, 0, 0)),
        wanted("root", version(0, 1, 0)),
        wanted("absent", version(0, 1, 0)),
        wanted("", version(0, 0, 0)),
    ];
    for identity in &identities {
        assert_eq!(indexed.find_counterpart(identity), plain.find_counterpart(identity));
    }
    let dependencies = [
        dependency("x", "*"),
        dependency("x", "^1"),
        dependency("x", "<1.5"),
        dependency("x", "=2.0.0"),
        dependency("x", ">2"),
        dependency("y", "^1"),
        dependency("y", "*"),
        dependency("z", "*"),
    ];
    for dependency in &dependencies {
        assert_eq!(indexed.find_counterpart(dependency), plain.find_counterpart(dependency));
        assert_eq!(indexed.package_id_for(dependency), plain.package_id_for(dependency));
    }
}

#[test]
fn the_index_finds_the_last_of_equal_packages() {
    let indexed = IndexedMetadata::new(Metadata { packages: packages() });
    assert_eq!(indexed.find_counterpart(&wanted("x", version(1, 5, 0))), Some(5));
    assert_eq!(indexed.find_counterpart(&wanted("x", version(1, 0, 0))), Some(0));
    assert_eq!(indexed.find_counterpart(&dependency("x", "^1")), Some(5));
    assert_eq!(indexed.find_counterpart(&dependency("x", "*")), Some(5));
    assert_eq!(indexed.find_counterpart(&dependency("x", "^2")), Some(4));
    assert_eq!(indexed.package_id_for(&dependency("y", "<2")), Some(id("y1")));
}

#[test]
fn the_index_finds_nothing_where_nothing_is() {
    let indexed = IndexedMetadata::new(Metadata { packages: packages() });
    assert_eq!(indexed.find_counterpart(&wanted("x", version(9, 9, 9))), None);
    assert_eq!(indexed.find_counterpart(&wanted("w", version(1, 0, 0))), None);
    assert_eq!(indexed.package_id_for(&dependency("w", "*")), None);
    let empty = IndexedMetadata::new(Metadata { packages: Vec::new() });
    assert_eq!(empty.find_counterpart(&wanted("x", version(1, 0, 0))), None);
    assert_eq!(empty.package_id_for(&dependency("x", "*")), None);
    assert!(empty.metadata().packages.is_empty());
}

#[test]
fn the_index_filters_dependencies_as_the_walk_does() {
    let plain = Metadata { packages: packages() };
    let indexed = IndexedMetadata::new(Metadata { packages: packages() });
    let through_index: Vec<String> =
        indexed.deps_not_replaced(&id("root")).into_iter().map(|r| r.replaced.repr).collect();
    let through_walk: Vec<String> =
        plain.deps_not_replaced(&id("root")).into_iter().map(|r| r.replaced.repr).collect();
    assert_eq!(through_index, vec!["y1", "x4", "x1"]);
    assert_eq!(through_index, through_walk);
    assert!(indexed.deps_not_replaced(&id("root")).iter().all(|r| r.replacement_candidates.is_empty()));
    assert!(indexed.deps_not_replaced(&id("x3")).is_empty());
}

#[test]
fn a_named_selector_tells_its_name() {
    assert_eq!(wanted("alpha", version(1, 0, 0)).name(), "alpha");
    assert_eq!(dependency("beta", "*").name(), "beta");
}
