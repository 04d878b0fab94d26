//! Status values produced while planning verification suites.

use vstd::prelude::*;

verus! {

/// Describes whether a verification suite can run for a project.
#[derive(Debug, Clone, PartialEq, Eq)]
pub enum PlanStatus {
    /// The suite has the configuration required to run.
    Ready,
    /// The suite is unavailable and includes the reason it was skipped.
    Skipped(String),
}

} // verus!
