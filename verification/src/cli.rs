//! The operations of the command-line interface and their names.

use vstd::prelude::*;

use crate::suite::{all_suites, Suite};

verus! {

/// A suite as the command line names it, or all of them.
#[derive(Debug, Clone, Copy, PartialEq, Eq, Structural)]
pub enum SuiteArg {
    /// Run every configured suite.
    All,
    /// Check the lockfile.
    Lock,
    /// Build all targets.
    Build,
    /// Run all tests.
    Test,
    /// Build documentation.
    Doc,
    /// Build and verify each publishable workspace package.
    Package,
    /// Check workspace README dependency versions.
    Readme,
    /// Run Clippy.
    Clippy,
    /// Check the feature matrix.
    FeatureMatrix,
    /// Run cross-platform tests.
    Cross,
    /// Run platform tests.
    Platform,
    /// Run Miri.
    Miri,
    /// Run AddressSanitizer.
    AddressSanitizer,
    /// Run Loom.
    Loom,
    /// Build and smoke-test every fuzz target.
    Fuzz,
    /// Run cargo-audit.
    Audit,
}

/// A lockfile operation.
#[derive(Debug, Clone, Copy, PartialEq, Eq, Structural)]
pub enum LockCommand {
    /// Check that the lockfile is current.
    Check,
    /// Regenerate and check the lockfile.
    Sync,
}

/// A top-level command.
#[derive(Debug, Clone, Copy, PartialEq, Eq, Structural)]
pub enum Command {
    /// Check or regenerate the lockfile.
    Lock(LockCommand),
    /// Run one verification suite or all suites.
    Run(SuiteArg),
}

/// The suite that a command-line suite other than `all` names.
pub open spec fn suite_of_arg(arg: SuiteArg) -> Suite {
    match arg {
        SuiteArg::All => Suite::Lock,
        SuiteArg::Lock => Suite::Lock,
        SuiteArg::Build => Suite::Build,
        SuiteArg::Test => Suite::Test,
        SuiteArg::Doc => Suite::Doc,
        SuiteArg::Package => Suite::Package,
        SuiteArg::Readme => Suite::Readme,
        SuiteArg::Clippy => Suite::Clippy,
        SuiteArg::FeatureMatrix => Suite::FeatureMatrix,
        SuiteArg::Cross => Suite::Cross,
        SuiteArg::Platform => Suite::Platform,
        SuiteArg::Miri => Suite::Miri,
        SuiteArg::AddressSanitizer => Suite::AddressSanitizer,
        SuiteArg::Loom => Suite::Loom,
        SuiteArg::Fuzz => Suite::Fuzz,
        SuiteArg::Audit => Suite::Audit,
    }
}

/// The command-line spelling of a suite argument.
pub open spec fn suite_arg_name(arg: SuiteArg) -> Seq<char> {
    match arg {
        SuiteArg::All => "all"@,
        SuiteArg::Lock => "lock"@,
        SuiteArg::Build => "build"@,
        SuiteArg::Test => "test"@,
        SuiteArg::Doc => "doc"@,
        SuiteArg::Package => "package"@,
        SuiteArg::Readme => "readme"@,
        SuiteArg::Clippy => "clippy"@,
        SuiteArg::FeatureMatrix => "feature-matrix"@,
        SuiteArg::Cross => "cross"@,
        SuiteArg::Platform => "platform"@,
        SuiteArg::Miri => "miri"@,
        SuiteArg::AddressSanitizer => "address-sanitizer"@,
        SuiteArg::Loom => "loom"@,
        SuiteArg::Fuzz => "fuzz"@,
        SuiteArg::Audit => "audit"@,
    }
}

/// Returns the command-line spelling of a suite argument.
pub fn suite_name(suite: SuiteArg) -> (r: &'static str)
    ensures
        r@ == suite_arg_name(suite),
{
    match suite {
        SuiteArg::All => "all",
        SuiteArg::Lock => "lock",
        SuiteArg::Build => "build",
        SuiteArg::Test => "test",
        SuiteArg::Doc => "doc",
        SuiteArg::Package => "package",
        SuiteArg::Readme => "readme",
        SuiteArg::Clippy => "clippy",
        SuiteArg::FeatureMatrix => "feature-matrix",
        SuiteArg::Cross => "cross",
        SuiteArg::Platform => "platform",
        SuiteArg::Miri => "miri",
        SuiteArg::AddressSanitizer => "address-sanitizer",
        SuiteArg::Loom => "loom",
        SuiteArg::Fuzz => "fuzz",
        SuiteArg::Audit => "audit",
    }
}

/// Converts a command-line suite other than `all` into the library suite.
pub fn suite_from_arg(suite: SuiteArg) -> (r: Suite)
    requires
        suite != SuiteArg::All,
    ensures
        r == suite_of_arg(suite),
{
    match suite {
        SuiteArg::All => Suite::Lock,
        SuiteArg::Lock => Suite::Lock,
        SuiteArg::Build => Suite::Build,
        SuiteArg::Test => Suite::Test,
        SuiteArg::Doc => Suite::Doc,
        SuiteArg::Package => Suite::Package,
        SuiteArg::Readme => Suite::Readme,
        SuiteArg::Clippy => Suite::Clippy,
        SuiteArg::FeatureMatrix => Suite::FeatureMatrix,
        SuiteArg::Cross => Suite::Cross,
        SuiteArg::Platform => Suite::Platform,
        SuiteArg::Miri => Suite::Miri,
        SuiteArg::AddressSanitizer => Suite::AddressSanitizer,
        SuiteArg::Loom => Suite::Loom,
        SuiteArg::Fuzz => Suite::Fuzz,
        SuiteArg::Audit => Suite::Audit,
    }
}

/// The suites that `run --suite` runs, in order: every suite for `all`,
/// else the named one.
pub open spec fn run_targets_of(suite: SuiteArg) -> Seq<Suite> {
    if suite == SuiteArg::All {
        all_suites()
    } else {
        seq![suite_of_arg(suite)]
    }
}

/// Returns the suites that `run --suite` runs, in order.
pub fn run_targets(suite: SuiteArg) -> (r: Vec<Suite>)
    ensures
        r@ == run_targets_of(suite),
{
    if suite == SuiteArg::All {
        crate::plan::selected_suites(None)
    } else {
        crate::plan::selected_suites(Some(suite_from_arg(suite)))
    }
}

/// The label of an operation in its final status message.
pub open spec fn operation_label(command: Command) -> Seq<char> {
    match command {
        Command::Lock(LockCommand::Check) => "lock check"@,
        Command::Lock(LockCommand::Sync) => "lock sync"@,
        Command::Run(suite) => "run --suite "@ + suite_arg_name(suite),
    }
}

/// Returns the operation label used in the final status message.
pub fn operation_name(command: &Command) -> (r: String)
    ensures
        r@ == operation_label(*command),
{
    match command {
        Command::Lock(LockCommand::Check) => "lock check".to_owned(),
        Command::Lock(LockCommand::Sync) => "lock sync".to_owned(),
        Command::Run(suite) => {
            let mut r = "run --suite ".to_owned();
            r.append(suite_name(*suite));
            r
        },
    }
}

} // verus!
