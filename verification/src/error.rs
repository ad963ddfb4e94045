//! The failures that end a reconciliation pass.

use vstd::prelude::*;

verus! {

/// A caller handed over something that the two graphs can never hold when
/// they are wired up correctly. The pass that meets one must stop.
#[derive(Clone, Copy, Debug, PartialEq, Eq, Structural)]
pub enum ContractViolation {
    /// A dependency kind outside normal, development and build.
    UnknownDependencyKind,
    /// A package id that the graph it is said to come from does not hold.
    LookupFailed,
}

impl ContractViolation {
    /// A short description of the violation.
    pub fn message(&self) -> (text: &'static str)
        ensures
            text@ == match *self {
                ContractViolation::UnknownDependencyKind => "Unknown dependency kind"@,
                ContractViolation::LookupFailed => "Package id not found in the graph"@,
            },
    {
        match self {
            ContractViolation::UnknownDependencyKind => "Unknown dependency kind",
            ContractViolation::LookupFailed => "Package id not found in the graph",
        }
    }
}

} // verus!
