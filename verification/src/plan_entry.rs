//! Entries describing planned verification suites.

use vstd::prelude::*;

use crate::plan_status::PlanStatus;
use crate::suite::{suite_name, Suite};

verus! {

/// A planned suite, its command arguments, and its availability.
#[derive(Debug, Clone, PartialEq, Eq)]
pub struct PlanEntry {
    /// The suite being planned.
    pub suite: Suite,
    /// Owned command and arguments associated with the suite.
    pub command: Vec<String>,
    /// Whether the suite is ready or was skipped.
    pub status: PlanStatus,
}

/// The human-readable status message of an entry for `suite`.
pub open spec fn status_message(suite: Suite, status: PlanStatus) -> Seq<char> {
    match status {
        PlanStatus::Ready => suite_name(suite) + " is enabled"@,
        PlanStatus::Skipped(reason) => suite_name(suite) + ": skipped: "@ + reason@,
    }
}

impl PlanEntry {
    /// Returns a human-readable status message for this entry: the suite's
    /// name followed by ` is enabled`, or by `: skipped: ` and the reason.
    pub fn message(&self) -> (r: String)
        ensures
            r@ == status_message(self.suite, self.status),
    {
        let mut r = self.suite.name().to_owned();
        match &self.status {
            PlanStatus::Ready => {
                r.append(" is enabled");
            },
            PlanStatus::Skipped(reason) => {
                r.append(": skipped: ");
                r.append(reason.as_str());
            },
        }
        r
    }
}

} // verus!
