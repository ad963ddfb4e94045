//! Reconciliation of two views of one dependency graph.
//!
//! A build tool's resolver and its exported package metadata describe the same
//! packages under identifiers that cannot be compared with each other. This
//! crate finds, for a package or a declared dependency of one side, its
//! counterpart in the metadata graph, by package name and version.
//!
//! - `version` and `identity` hold the version of a package, its portable
//!   identity, and the comparison by name and version numbers.
//! - `kind` translates the kind of a dependency between the two sides.
//! - `source` classifies the origin that the metadata declares for a package.
//! - `graph` holds the metadata graph; `lookup` finds counterparts in it, and
//!   `index` does the same through an index by package name.
//! - `requirement` asks a version requirement, which semver evaluates.
//! - `replaced` lists the dependencies of a package that were not replaced.
//! - `canonical` builds the portable identity of a package of the graph.
//! - `error` names the failures that end a pass.

pub mod canonical;
pub mod error;
pub mod graph;
pub mod identity;
pub mod index;
pub mod kind;
pub mod lookup;
pub mod replaced;
pub mod requirement;
pub mod source;
pub mod version;
