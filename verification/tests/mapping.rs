use cargo_metadata::semver::{Prerelease, VersionReq};
use geiger_mapping::graph::{Dependency, Metadata, Package, PackageId};
use geiger_mapping::identity::{PackageIdentity, SourceKind};
use geiger_mapping::kind::{DepKind, DependencyKind};
use geiger_mapping::version::SemanticVersion;

const CRATES_IO: &str = "registry+https://github.com/rust-lang/crates.io-index";

fn version(major: u64, minor: u64, patch: u64) -> SemanticVersion {
    SemanticVersion { major, minor, patch, pre: Prerelease::EMPTY }
}

fn dependency(name: &str, req: &str, kind: DependencyKind) -> Dependency {
    Dependency {
        name: name.to_string(),
        source: Some(CRATES_IO.to_string()),
        req: VersionReq::parse(req).unwrap(),
        kind,
    }
}

fn registry_package(name: &str, v: SemanticVersion) -> Package {
    Package {
        id: PackageId {
            repr: format!("{} {}.{}.{} ({})", name, v.major, v.minor, v.patch, CRATES_IO),
        },
        name: name.to_string(),
        version: v,
        source: Some(CRATES_IO.to_string()),
        dependencies: Vec::new(),
    }
}

/// A workspace of one local package with four declared dependencies, one of
/// which is for another platform and was not resolved.
fn workspace() -> Metadata {
    let root = Package {
        id: PackageId { repr: "auditor 0.11.2 (path+file:///work/auditor)".to_string() },
        name: "auditor".to_string(),
        version: version(0, 11, 2),
        source: None,
        dependencies: vec![
            dependency("anyhow", "^1.0.45", DependencyKind::Normal),
            dependency("winapi", "^0.3", DependencyKind::Normal),
            dependency("rstest", "^0.11.0", DependencyKind::Development),
            dependency("regex", "^1.5.4", DependencyKind::Normal),
        ],
    };
    Metadata {
        packages: vec![
            registry_package("anyhow", version(1, 0, 45)),
            root,
            registry_package("regex", version(1, 5, 4)),
            registry_package("rstest", version(0, 11, 0)),
        ],
    }
}

fn resolver_root() -> PackageIdentity {
    PackageIdentity {
        name: "auditor".to_string(),
        version: version(0, 11, 2),
        source: SourceKind::Path,
    }
}

#[test]
fn to_cargo_metadata_dependency_kind_test() {
    let cases = [
        (DepKind::Build, DependencyKind::Build),
        (DepKind::Development, DependencyKind::Development),
        (DepKind::Normal, DependencyKind::Normal),
    ];
    for (input_dep_kind, expected_dependency_kind) in cases {
        assert_eq!(input_dep_kind.to_cargo_metadata_dependency_kind(), expected_dependency_kind);
    }
}

#[test]
fn to_cargo_core_dep_kind() {
    let cases = [
        (DependencyKind::Build, DepKind::Build),
        (DependencyKind::Development, DepKind::Development),
        (DependencyKind::Normal, DepKind::Normal),
    ];
    for (input_dependency_kind, expected_dep_kind) in cases {
        assert_eq!(input_dependency_kind.to_cargo_core_dep_kind(), Ok(expected_dep_kind));
    }
}

#[test]
fn to_cargo_metadata_package_test() {
    let metadata = workspace();
    let package = resolver_root();
    let cargo_metadata_package = package.to_cargo_metadata_package(&metadata).unwrap();
    assert_eq!(cargo_metadata_package.name, package.name);
    assert!(
        cargo_metadata_package.version.major == package.version.major
            && cargo_metadata_package.version.minor == package.version.minor
            && cargo_metadata_package.version.patch == package.version.patch
    );
}

#[test]
fn to_cargo_metadata_package_id_test() {
    let metadata = workspace();
    let cargo_metadata_package_id =
        resolver_root().to_cargo_metadata_package_id(&metadata).unwrap();
    assert!(cargo_metadata_package_id.repr.contains("auditor"));
}

#[test]
fn deps_not_replaced_test() {
    let metadata = workspace();
    let cargo_metadata_package_id =
        resolver_root().to_cargo_metadata_package_id(&metadata).unwrap();
    let cargo_metadata_deps_not_replaced = metadata.deps_not_replaced(&cargo_metadata_package_id);
    let mut cargo_metadata_package_names = cargo_metadata_deps_not_replaced
        .iter()
        .map(|record| record.replaced.to_cargo_metadata_package(&metadata).unwrap().name.clone())
        .collect::<Vec<String>>();
    let mut cargo_core_package_names =
        vec!["regex".to_string(), "anyhow".to_string(), "rstest".to_string()];
    cargo_core_package_names.sort();
    cargo_metadata_package_names.sort();
    assert_eq!(cargo_core_package_names, cargo_metadata_package_names);
}

#[test]
fn matches_ignoring_source_test() {
    let metadata = workspace();
    let package = resolver_root().to_cargo_metadata_package(&metadata).unwrap();
    let dependency = package.dependencies.last().unwrap();
    assert_eq!(dependency.matches_id_ignoring_source(&metadata, &package.id), false);
    assert_eq!(dependency.matches_ignoring_source(package), false);
    let dependency_package_id = dependency.to_cargo_metadata_package_id(&metadata).unwrap();
    assert!(dependency.matches_id_ignoring_source(&metadata, &dependency_package_id));
}

#[test]
fn to_cargo_geiger_package_id_test() {
    let metadata = workspace();
    let root_package = resolver_root().to_cargo_metadata_package(&metadata).unwrap();
    let cargo_geiger_package_id = root_package.id.to_cargo_geiger_package_id(&metadata).unwrap();
    assert_eq!(cargo_geiger_package_id.name, root_package.name);
    assert_eq!(cargo_geiger_package_id.version.major, root_package.version.major);
    assert_eq!(cargo_geiger_package_id.version.minor, root_package.version.minor);
    assert_eq!(cargo_geiger_package_id.version.patch, root_package.version.patch);
}
