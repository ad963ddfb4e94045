use cargo_metadata::semver::Prerelease;
use geiger_mapping::graph::{Package, PackageId};
use geiger_mapping::identity::SourceKind;
use geiger_mapping::source::{classify_origin, starts_with};
use geiger_mapping::version::SemanticVersion;

fn package_from(source: Option<&str>) -> Package {
    Package {
        name: "foo".to_string(),
        version: SemanticVersion { major: 1, minor: 0, patch: 0, pre: Prerelease::EMPTY },
        id: PackageId { repr: "foo 1.0.0".to_string() },
        source: source.map(|text| text.to_string()),
        dependencies: Vec::new(),
    }
}

#[test]
fn a_registry_index_is_a_registry() {
    assert_eq!(
        classify_origin("registry+https://github.com/rust-lang/crates.io-index"),
        SourceKind::Registry
    );
}

#[test]
fn a_repository_is_git() {
    assert_eq!(
        classify_origin("git+https://github.com/rust-lang/cargo?rev=abc#abc"),
        SourceKind::Git
    );
}

#[test]
fn a_directory_is_a_path() {
    assert_eq!(classify_origin("path+file:///home/user/project"), SourceKind::Path);
}

#[test]
fn a_scheme_with_nothing_behind_it_still_counts() {
    assert_eq!(classify_origin("registry+"), SourceKind::Registry);
    assert_eq!(classify_origin("git+"), SourceKind::Git);
    assert_eq!(classify_origin("path+"), SourceKind::Path);
}

#[test]
fn other_texts_are_unknown() {
    assert_eq!(classify_origin(""), SourceKind::Unknown);
    assert_eq!(classify_origin("registry"), SourceKind::Unknown);
    assert_eq!(classify_origin("git"), SourceKind::Unknown);
    assert_eq!(classify_origin("Registry+https://example.com"), SourceKind::Unknown);
    assert_eq!(classify_origin(" git+https://example.com"), SourceKind::Unknown);
    assert_eq!(classify_origin("https://example.com"), SourceKind::Unknown);
    assert_eq!(classify_origin("svn+https://example.com"), SourceKind::Unknown);
    assert_eq!(classify_origin("+git+"), SourceKind::Unknown);
}

#[test]
fn texts_beyond_ascii_are_classified_by_characters() {
    assert_eq!(classify_origin("git+https://example.com/\u{00e9}t\u{00e9}"), SourceKind::Git);
    assert_eq!(classify_origin("\u{00e9}git+https://example.com"), SourceKind::Unknown);
    assert_eq!(classify_origin("gi\u{0442}+https://example.com"), SourceKind::Unknown);
}

#[test]
fn a_package_is_classified_by_its_origin() {
    assert_eq!(package_from(Some("registry+https://example.com/index")).classify(), SourceKind::Registry);
    assert_eq!(package_from(Some("git+ssh://example.com/repo")).classify(), SourceKind::Git);
    assert_eq!(package_from(Some("path+file:///tmp/x")).classify(), SourceKind::Path);
    assert_eq!(package_from(Some("nonsense")).classify(), SourceKind::Unknown);
}

#[test]
fn a_package_without_origin_is_a_local_path() {
    assert_eq!(package_from(None).classify(), SourceKind::Path);
}

#[test]
fn prefixes_are_found_exactly() {
    assert!(starts_with("registry+x", "registry+"));
    assert!(starts_with("abc", ""));
    assert!(starts_with("", ""));
    assert!(starts_with("abc", "abc"));
    assert!(!starts_with("ab", "abc"));
    assert!(!starts_with("", "a"));
    assert!(!starts_with("xbc", "abc"));
    assert!(!starts_with("abx", "abc"));
}
