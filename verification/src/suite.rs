//! Verification suites and the commands that run them.

use vstd::prelude::*;

verus! {

/// A verification suite supported by the command-line tool.
#[derive(Debug, Clone, Copy, PartialEq, Eq, Structural)]
pub enum Suite {
    /// Checks that the project's lockfile is current.
    Lock,
    /// Builds all workspace targets with all features.
    Build,
    /// Runs all workspace tests and targets with all features.
    Test,
    /// Builds documentation for all workspace packages.
    Doc,
    /// Builds and verifies each publishable workspace package.
    Package,
    /// Checks README dependency versions against workspace package versions.
    Readme,
    /// Runs Clippy for all workspace targets and features.
    Clippy,
    /// Checks the configured feature matrix.
    FeatureMatrix,
    /// Runs cross-platform tests through `cross`.
    Cross,
    /// Runs the configured platform test command.
    Platform,
    /// Runs tests under Miri.
    Miri,
    /// Runs tests with AddressSanitizer.
    AddressSanitizer,
    /// Runs tests with the Loom concurrency model checker.
    Loom,
    /// Lists configured fuzz targets.
    Fuzz,
    /// Runs cargo-audit.
    Audit,
}

/// Every suite, in command-line display order.
pub open spec fn all_suites() -> Seq<Suite> {
    seq![
        Suite::Lock,
        Suite::Build,
        Suite::Test,
        Suite::Doc,
        Suite::Package,
        Suite::Readme,
        Suite::Clippy,
        Suite::FeatureMatrix,
        Suite::Cross,
        Suite::Platform,
        Suite::Miri,
        Suite::AddressSanitizer,
        Suite::Loom,
        Suite::Fuzz,
        Suite::Audit,
    ]
}

/// The base arguments that run `suite`.
pub open spec fn suite_command(suite: Suite) -> Seq<Seq<char>> {
    match suite {
        Suite::Lock => seq!["metadata"@, "--no-deps"@, "--locked"@, "--format-version"@, "1"@],
        Suite::Build => seq![
            "build"@,
            "--locked"@,
            "--workspace"@,
            "--all-targets"@,
            "--all-features"@,
        ],
        Suite::Test => seq![
            "test"@,
            "--locked"@,
            "--workspace"@,
            "--all-targets"@,
            "--all-features"@,
        ],
        Suite::Doc => seq!["doc"@, "--locked"@, "--workspace"@, "--all-features"@, "--no-deps"@],
        Suite::Package => seq!["package"@, "--allow-dirty"@],
        Suite::Readme => Seq::empty(),
        Suite::Clippy => seq![
            "clippy"@,
            "--locked"@,
            "--workspace"@,
            "--all-targets"@,
            "--all-features"@,
        ],
        Suite::FeatureMatrix => seq!["check"@, "--locked"@, "--workspace"@, "--all-features"@],
        Suite::Cross => seq!["cross"@, "test"@, "--locked"@, "--workspace"@, "--all-features"@],
        Suite::Platform => seq!["test"@, "--locked"@, "--workspace"@, "--all-features"@],
        Suite::Miri => seq!["miri"@, "test"@, "--locked"@, "--all-features"@],
        Suite::AddressSanitizer => seq![
            "test"@,
            "--locked"@,
            "-Zbuild-std"@,
            "--target"@,
            "x86_64-unknown-linux-gnu"@,
            "--workspace"@,
            "--all-features"@,
        ],
        Suite::Loom => seq!["test"@, "--locked"@, "--workspace"@, "--all-features"@, "loom"@],
        Suite::Fuzz => seq!["fuzz"@, "list"@],
        Suite::Audit => seq!["audit"@],
    }
}

/// The stable command-line name of `suite`.
pub open spec fn suite_name(suite: Suite) -> Seq<char> {
    match suite {
        Suite::Lock => "lock"@,
        Suite::Build => "build"@,
        Suite::Test => "test"@,
        Suite::Doc => "doc"@,
        Suite::Package => "package"@,
        Suite::Readme => "readme"@,
        Suite::Clippy => "clippy"@,
        Suite::FeatureMatrix => "feature-matrix"@,
        Suite::Cross => "cross"@,
        Suite::Platform => "platform"@,
        Suite::Miri => "miri"@,
        Suite::AddressSanitizer => "address-sanitizer"@,
        Suite::Loom => "loom"@,
        Suite::Fuzz => "fuzz"@,
        Suite::Audit => "audit"@,
    }
}

/// The views of a slice of string slices.
pub open spec fn texts(s: Seq<&str>) -> Seq<Seq<char>> {
    s.map_values(|t: &str| t@)
}

impl Suite {
    /// Returns all supported suites in command-line display order.
    pub fn all() -> (r: &'static [Suite])
        ensures
            r@ == all_suites(),
    {
        let r: &'static [Suite] = &[
            Suite::Lock,
            Suite::Build,
            Suite::Test,
            Suite::Doc,
            Suite::Package,
            Suite::Readme,
            Suite::Clippy,
            Suite::FeatureMatrix,
            Suite::Cross,
            Suite::Platform,
            Suite::Miri,
            Suite::AddressSanitizer,
            Suite::Loom,
            Suite::Fuzz,
            Suite::Audit,
        ];
        assert(r@ =~= all_suites());
        r
    }

    /// Returns the Cargo or external-program arguments for this suite.
    pub fn command(self) -> (r: &'static [&'static str])
        ensures
            texts(r@) == suite_command(self),
    {
        let r: &'static [&'static str] = match self {
            Suite::Lock => &["metadata", "--no-deps", "--locked", "--format-version", "1"],
            Suite::Build => &["build", "--locked", "--workspace", "--all-targets", "--all-features"],
            Suite::Test => &["test", "--locked", "--workspace", "--all-targets", "--all-features"],
            Suite::Doc => &["doc", "--locked", "--workspace", "--all-features", "--no-deps"],
            Suite::Package => &["package", "--allow-dirty"],
            Suite::Readme => &[],
            Suite::Clippy => &[
                "clippy",
                "--locked",
                "--workspace",
                "--all-targets",
                "--all-features",
            ],
            Suite::FeatureMatrix => &["check", "--locked", "--workspace", "--all-features"],
            Suite::Cross => &["cross", "test", "--locked", "--workspace", "--all-features"],
            Suite::Platform => &["test", "--locked", "--workspace", "--all-features"],
            Suite::Miri => &["miri", "test", "--locked", "--all-features"],
            Suite::AddressSanitizer => &[
                "test",
                "--locked",
                "-Zbuild-std",
                "--target",
                "x86_64-unknown-linux-gnu",
                "--workspace",
                "--all-features",
            ],
            Suite::Loom => &["test", "--locked", "--workspace", "--all-features", "loom"],
            Suite::Fuzz => &["fuzz", "list"],
            Suite::Audit => &["audit"],
        };
        assert(texts(r@) =~= suite_command(self));
        r
    }

    /// Returns the stable command-line name of this suite.
    pub fn name(self) -> (r: &'static str)
        ensures
            r@ == suite_name(self),
    {
        match self {
            Suite::Lock => "lock",
            Suite::Build => "build",
            Suite::Test => "test",
            Suite::Doc => "doc",
            Suite::Package => "package",
            Suite::Readme => "readme",
            Suite::Clippy => "clippy",
            Suite::FeatureMatrix => "feature-matrix",
            Suite::Cross => "cross",
            Suite::Platform => "platform",
            Suite::Miri => "miri",
            Suite::AddressSanitizer => "address-sanitizer",
            Suite::Loom => "loom",
            Suite::Fuzz => "fuzz",
            Suite::Audit => "audit",
        }
    }
}

} // verus!
