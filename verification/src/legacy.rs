//! The legacy rs-ci capability set: fourteen suites, configured by files
//! and by text in the project's `Cargo.toml`, each run with one fixed
//! command.

use vstd::prelude::*;

use crate::plan::{owned_args, strings};
use crate::suite::texts;
use crate::text::{
    chars_of, compact, compact_chars, contains, ends_with, ends_with_chars, has_setting_line,
    has_setting_line_exec, lines, lines_of, same_chars,
};

verus! {

/// A legacy verification capability.
#[derive(Debug, Clone, Copy, PartialEq, Eq, Structural)]
pub enum Suite {
    /// Checks that the project's lockfile is current.
    Lock,
    /// Builds all workspace targets with all features.
    Build,
    /// Runs all workspace tests and targets with all features.
    Test,
    /// Builds documentation for all workspace packages.
    Doc,
    /// Packages the workspace.
    Package,
    /// Runs Clippy for all workspace targets and features.
    Clippy,
    /// Checks the feature matrix.
    FeatureMatrix,
    /// Runs cross-platform tests through `cross`.
    Cross,
    /// Runs the platform tests.
    Platform,
    /// Runs tests under Miri.
    Miri,
    /// Runs tests with AddressSanitizer.
    AddressSanitizer,
    /// Runs tests with Loom.
    Loom,
    /// Lists fuzz targets.
    Fuzz,
    /// Runs cargo-audit.
    Audit,
}

/// Every legacy capability, in display order.
pub open spec fn all_suites() -> Seq<Suite> {
    seq![
        Suite::Lock,
        Suite::Build,
        Suite::Test,
        Suite::Doc,
        Suite::Package,
        Suite::Clippy,
        Suite::FeatureMatrix,
        Suite::Cross,
        Suite::Platform,
        Suite::Miri,
        Suite::AddressSanitizer,
        Suite::Loom,
        Suite::Fuzz,
        Suite::Audit,
    ]
}

/// The command of a legacy capability.
pub open spec fn suite_command(suite: Suite) -> Seq<Seq<char>> {
    match suite {
        Suite::Lock => seq!["metadata"@, "--no-deps"@, "--locked"@, "--format-version"@, "1"@],
        Suite::Build => seq!["build"@, "--workspace"@, "--all-targets"@, "--all-features"@],
        Suite::Test => seq!["test"@, "--workspace"@, "--all-targets"@, "--all-features"@],
        Suite::Doc => seq!["doc"@, "--workspace"@, "--all-features"@, "--no-deps"@],
        Suite::Package => seq!["package"@, "--workspace"@, "--allow-dirty"@],
        Suite::Clippy => seq!["clippy"@, "--workspace"@, "--all-targets"@, "--all-features"@],
        Suite::FeatureMatrix => seq!["check"@, "--workspace"@, "--all-features"@],
        Suite::Cross => seq!["cross"@, "test"@, "--workspace"@, "--all-features"@],
        Suite::Platform => seq!["test"@, "--workspace"@, "--all-features"@],
        Suite::Miri => seq!["miri"@, "test"@, "--workspace"@, "--all-features"@],
        Suite::AddressSanitizer => seq![
            "test"@,
            "-Zbuild-std"@,
            "--target"@,
            "x86_64-unknown-linux-gnu"@,
            "--workspace"@,
            "--all-features"@,
        ],
        Suite::Loom => seq!["test"@, "--workspace"@, "--all-features"@, "loom"@],
        Suite::Fuzz => seq!["fuzz"@, "list"@],
        Suite::Audit => seq!["audit"@],
    }
}

/// The name of a legacy capability.
pub open spec fn suite_name(suite: Suite) -> Seq<char> {
    match suite {
        Suite::Lock => "lock"@,
        Suite::Build => "build"@,
        Suite::Test => "test"@,
        Suite::Doc => "doc"@,
        Suite::Package => "package"@,
        Suite::Clippy => "clippy"@,
        Suite::FeatureMatrix => "feature-matrix"@,
        Suite::Cross => "cross"@,
        Suite::Platform => "platform"@,
        Suite::Miri => "miri"@,
        Suite::AddressSanitizer => "address-sanitizer"@,
        Suite::Loom => "loom"@,
        Suite::Fuzz => "fuzz"@,
        Suite::Audit => "audit"@,
    }
}

impl Suite {
    /// Returns every legacy capability in display order.
    pub fn all() -> (r: &'static [Suite])
        ensures
            r@ == all_suites(),
    {
        let r: &'static [Suite] = &[
            Suite::Lock,
            Suite::Build,
            Suite::Test,
            Suite::Doc,
            Suite::Package,
            Suite::Clippy,
            Suite::FeatureMatrix,
            Suite::Cross,
            Suite::Platform,
            Suite::Miri,
            Suite::AddressSanitizer,
            Suite::Loom,
            Suite::Fuzz,
            Suite::Audit,
        ];
        assert(r@ =~= all_suites());
        r
    }

    /// Returns the stable command of this capability.
    pub fn command(self) -> (r: &'static [&'static str])
        ensures
            texts(r@) == suite_command(self),
    {
        let r: &'static [&'static str] = match self {
            Suite::Lock => &["metadata", "--no-deps", "--locked", "--format-version", "1"],
            Suite::Build => &["build", "--workspace", "--all-targets", "--all-features"],
            Suite::Test => &["test", "--workspace", "--all-targets", "--all-features"],
            Suite::Doc => &["doc", "--workspace", "--all-features", "--no-deps"],
            Suite::Package => &["package", "--workspace", "--allow-dirty"],
            Suite::Clippy => &["clippy", "--workspace", "--all-targets", "--all-features"],
            Suite::FeatureMatrix => &["check", "--workspace", "--all-features"],
            Suite::Cross => &["cross", "test", "--workspace", "--all-features"],
            Suite::Platform => &["test", "--workspace", "--all-features"],
            Suite::Miri => &["miri", "test", "--workspace", "--all-features"],
            Suite::AddressSanitizer => &[
                "test",
                "-Zbuild-std",
                "--target",
                "x86_64-unknown-linux-gnu",
                "--workspace",
                "--all-features",
            ],
            Suite::Loom => &["test", "--workspace", "--all-features", "loom"],
            Suite::Fuzz => &["fuzz", "list"],
            Suite::Audit => &["audit"],
        };
        assert(texts(r@) =~= suite_command(self));
        r
    }

    /// Returns the name of this capability.
    pub fn name(self) -> (r: &'static str)
        ensures
            r@ == suite_name(self),
    {
        match self {
            Suite::Lock => "lock",
            Suite::Build => "build",
            Suite::Test => "test",
            Suite::Doc => "doc",
            Suite::Package => "package",
            Suite::Clippy => "clippy",
            Suite::FeatureMatrix => "feature-matrix",
            Suite::Cross => "cross",
            Suite::Platform => "platform",
            Suite::Miri => "miri",
            Suite::AddressSanitizer => "address-sanitizer",
            Suite::Loom => "loom",
            Suite::Fuzz => "fuzz",
            Suite::Audit => "audit",
        }
    }
}

/// Whether a legacy capability can run for a project.
#[derive(Debug, Clone, PartialEq, Eq)]
pub enum PlanStatus {
    /// The capability is configured.
    Ready,
    /// The capability is unavailable, for the given reason.
    Skipped(String),
}

/// A planned legacy capability.
#[derive(Debug, Clone, PartialEq, Eq)]
pub struct PlanEntry {
    /// The capability.
    pub suite: Suite,
    /// Its command.
    pub command: Vec<String>,
    /// Whether it is ready or skipped.
    pub status: PlanStatus,
}

/// The message of a legacy entry.
pub open spec fn status_message(suite: Suite, status: PlanStatus) -> Seq<char> {
    match status {
        PlanStatus::Ready => suite_name(suite) + " is enabled"@,
        PlanStatus::Skipped(reason) => suite_name(suite) + ": skipped: "@ + reason@,
    }
}

impl PlanEntry {
    /// Returns the entry's message: ` is enabled`, or `: skipped: ` and the
    /// reason, after the capability's name.
    pub fn message(&self) -> (r: String)
        ensures
            r@ == status_message(self.suite, self.status),
    {
        let mut r = self.suite.name().to_owned();
        match &self.status {
            PlanStatus::Ready => {
                r.append(" is enabled");
            },
            PlanStatus::Skipped(reason) => {
                r.append(": skipped: ");
                r.append(reason.as_str());
            },
        }
        r
    }
}

/// Whether a manifest line sets `key` to `value`: once whitespace is
/// removed it is `key=value`, or ends with `.key=value`.
pub open spec fn sets_flag(line: Seq<char>, key: Seq<char>, value: Seq<char>) -> bool {
    let c = compact(line);
    c == key + "="@ + value || ends_with(c, "."@ + key + "="@ + value)
}

/// Whether some line of `manifest` sets `key` to `value`.
pub open spec fn has_flag(manifest: Seq<char>, key: Seq<char>, value: Seq<char>) -> bool {
    exists|j: int| 0 <= j < lines(manifest).len() && sets_flag(#[trigger] lines(manifest)[j], key, value)
}

/// Checks whether some line of a manifest sets `key` to `value`, ignoring
/// whitespace, either directly or as the last part of a dotted key.
pub fn has_metadata_flag(manifest: &str, key: &str, value: &str) -> (r: bool)
    ensures
        r == has_flag(manifest@, key@, value@),
{
    let mut flag = key.to_owned();
    flag.append("=");
    flag.append(value);
    let mut dotted = ".".to_owned();
    dotted.append(flag.as_str());
    assert(dotted@ =~= "."@ + key@ + "="@ + value@);
    let flag_chars = chars_of(flag.as_str());
    let dotted_chars = chars_of(dotted.as_str());
    let ls = lines_of(&chars_of(manifest));
    let mut i: usize = 0;
    while i < ls.len()
        invariant
            i <= ls@.len(),
            ls@.len() == lines(manifest@).len(),
            forall|j: int| 0 <= j < ls@.len() ==> #[trigger] ls@[j]@ == lines(manifest@)[j],
            flag_chars@ == key@ + "="@ + value@,
            dotted_chars@ == "."@ + key@ + "="@ + value@,
            forall|j: int| 0 <= j < i ==> !sets_flag(#[trigger] lines(manifest@)[j], key@, value@),
        decreases ls.len() - i,
    {
        let c = compact_chars(&ls[i]);
        if same_chars(&c, &flag_chars) || ends_with_chars(&c, &dotted_chars) {
            assert(sets_flag(lines(manifest@)[i as int], key@, value@));
            return true;
        }
        i += 1;
    }
    false
}

/// What a project offers for the legacy configuration checks.
#[derive(Debug, Clone, PartialEq, Eq)]
pub struct LegacyProject {
    /// The text of the project's `Cargo.toml`.
    pub manifest: String,
    /// Which of `.rs-ci-cargo-matrix.json`, `Cross.toml`,
    /// `.rs-ci-cross.toml` and `.rs-ci-platform.toml` exist.
    pub files: Vec<String>,
    /// The text of `fuzz/Cargo.toml`, when it is a readable file.
    pub fuzz_manifest: Option<String>,
}

/// Whether the project offers `name` among its configuration files.
pub open spec fn has_file(project: LegacyProject, name: Seq<char>) -> bool {
    strings(project.files@).contains(name)
}

/// Whether a legacy capability is configured in `project`.
pub open spec fn configured_in(project: LegacyProject, suite: Suite) -> bool {
    let m = project.manifest@;
    match suite {
        Suite::FeatureMatrix => has_file(project, ".rs-ci-cargo-matrix.json"@),
        Suite::Cross => has_file(project, "Cross.toml"@) || has_file(project, ".rs-ci-cross.toml"@),
        Suite::Platform => has_file(project, ".rs-ci-platform.toml"@),
        Suite::Miri => has_flag(m, "miri"@, "true"@),
        Suite::AddressSanitizer => contains(m, "sanitizers"@) && contains(m, "address"@),
        Suite::Loom => contains(m, "loom"@),
        Suite::Fuzz => match project.fuzz_manifest {
            Some(t) => has_setting_line(t@, "cargo-fuzz=true"@),
            None => false,
        },
        _ => true,
    }
}

/// Returns whether the project offers the configuration file `name`.
fn has_file_exec(project: &LegacyProject, name: &str) -> (r: bool)
    ensures
        r == has_file(*project, name@),
{
    let mut i: usize = 0;
    while i < project.files.len()
        invariant
            i <= project.files@.len(),
            forall|k: int| 0 <= k < i ==> project.files@[k]@ != name@,
        decreases project.files.len() - i,
    {
        if crate::text::same_text(project.files[i].as_str(), name) {
            assert(strings(project.files@)[i as int] == name@);
            return true;
        }
        i += 1;
    }
    false
}

/// Determines whether a legacy capability is configured in `project`:
/// core capabilities always are; the others need their configuration file
/// or manifest text.
pub fn is_configured(project: &LegacyProject, suite: Suite) -> (r: bool)
    ensures
        r == configured_in(*project, suite),
{
    let manifest = project.manifest.as_str();
    match suite {
        Suite::FeatureMatrix => has_file_exec(project, ".rs-ci-cargo-matrix.json"),
        Suite::Cross => has_file_exec(project, "Cross.toml") || has_file_exec(project, ".rs-ci-cross.toml"),
        Suite::Platform => has_file_exec(project, ".rs-ci-platform.toml"),
        Suite::Miri => has_metadata_flag(manifest, "miri", "true"),
        Suite::AddressSanitizer => crate::text::text_contains(manifest, "sanitizers")
            && crate::text::text_contains(manifest, "address"),
        Suite::Loom => crate::text::text_contains(manifest, "loom"),
        Suite::Fuzz => match &project.fuzz_manifest {
            Some(t) => has_setting_line_exec(t.as_str(), "cargo-fuzz=true"),
            None => false,
        },
        _ => true,
    }
}

/// The capabilities a plan covers: the selected one, or all of them.
pub open spec fn planned_suites(selected: Option<Suite>) -> Seq<Suite> {
    match selected {
        Some(s) => seq![s],
        None => all_suites(),
    }
}

/// Whether `entry` plans `suite` in the project shown as `display`.
pub open spec fn is_planned_entry(entry: PlanEntry, suite: Suite, configured: bool, display: Seq<char>) -> bool {
    &&& entry.suite == suite
    &&& strings(entry.command@) == suite_command(suite)
    &&& match entry.status {
        PlanStatus::Ready => configured,
        PlanStatus::Skipped(reason) => !configured && reason@ == "not configured in "@ + display,
    }
}

/// Plans the selected capability, or every one, in the project shown as
/// `project`; `configured[i]` tells whether the `i`-th planned capability is
/// configured.
pub fn plan(selected: Option<Suite>, configured: &Vec<bool>, project: &str) -> (r: Vec<PlanEntry>)
    requires
        configured@.len() == planned_suites(selected).len(),
    ensures
        r@.len() == configured@.len(),
        forall|i: int|
            0 <= i < r@.len() ==> is_planned_entry(
                #[trigger] r@[i],
                planned_suites(selected)[i],
                configured@[i],
                project@,
            ),
{
    let suites: Vec<Suite> = match selected {
        Some(s) => {
            let mut v: Vec<Suite> = Vec::new();
            v.push(s);
            assert(v@ =~= planned_suites(selected));
            v
        },
        None => {
            let all = Suite::all();
            let mut v: Vec<Suite> = Vec::new();
            let mut i: usize = 0;
            while i < all.len()
                invariant
                    all@ == all_suites(),
                    i <= all@.len(),
                    v@ == all@.subrange(0, i as int),
                decreases all.len() - i,
            {
                v.push(all[i]);
                i += 1;
                assert(v@ =~= all@.subrange(0, i as int));
            }
            assert(all@.subrange(0, all@.len() as int) =~= all@);
            v
        },
    };
    let mut entries: Vec<PlanEntry> = Vec::new();
    let mut i: usize = 0;
    while i < suites.len()
        invariant
            suites@ == planned_suites(selected),
            configured@.len() == suites@.len(),
            i <= suites@.len(),
            entries@.len() == i,
            forall|k: int|
                0 <= k < i ==> is_planned_entry(
                    #[trigger] entries@[k],
                    suites@[k],
                    configured@[k],
                    project@,
                ),
        decreases suites.len() - i,
    {
        let suite = suites[i];
        let status = if configured[i] {
            PlanStatus::Ready
        } else {
            let mut reason = "not configured in ".to_owned();
            reason.append(project);
            PlanStatus::Skipped(reason)
        };
        let command = owned_args(suite.command());
        entries.push(PlanEntry { suite, command, status });
        i += 1;
    }
    entries
}

/// What running a planned legacy capability does.
#[derive(Debug, Clone, PartialEq, Eq)]
pub enum LegacyAction {
    /// Print the entry's message and succeed.
    Skip,
    /// Run `program` with `args` in the project.
    Program { program: String, args: Vec<String> },
}

/// Whether `action` is what running `entry` does: skipped capabilities
/// print their message; Cross runs its first argument as the program;
/// AddressSanitizer runs `cargo +nightly` with its command; every other
/// capability runs Cargo with its command.
pub open spec fn is_legacy_action(entry: PlanEntry, action: LegacyAction) -> bool {
    if entry.status is Skipped {
        action is Skip
    } else {
        match entry.suite {
            Suite::Cross => action matches LegacyAction::Program { program, args } && program@
                == strings(entry.command@)[0] && strings(args@) == strings(entry.command@).subrange(
                1,
                entry.command@.len() as int,
            ),
            Suite::AddressSanitizer => action matches LegacyAction::Program { program, args }
                && program@ == "cargo"@ && strings(args@) == seq!["+nightly"@] + strings(
                entry.command@,
            ),
            _ => action matches LegacyAction::Program { program, args } && program@ == "cargo"@
                && strings(args@) == strings(entry.command@),
        }
    }
}

/// Decides what running a planned legacy capability does.
pub fn legacy_action(entry: &PlanEntry) -> (r: LegacyAction)
    requires
        entry.suite == Suite::Cross && entry.status is Ready ==> entry.command@.len() >= 1,
    ensures
        is_legacy_action(*entry, r),
{
    if let PlanStatus::Skipped(_) = &entry.status {
        return LegacyAction::Skip;
    }
    let mut args: Vec<String> = Vec::new();
    let start: usize = match entry.suite {
        Suite::Cross => 1,
        Suite::AddressSanitizer => {
            args.push("+nightly".to_owned());
            0
        },
        _ => 0,
    };
    let ghost head = strings(args@);
    let mut i = start;
    while i < entry.command.len()
        invariant
            start <= i <= entry.command@.len(),
            strings(args@) == head + strings(entry.command@).subrange(start as int, i as int),
        decreases entry.command.len() - i,
    {
        let ghost before = args@;
        args.push(entry.command[i].clone());
        assert(strings(args@) =~= strings(before).push(entry.command@[i as int]@));
        assert(strings(entry.command@).subrange(start as int, i + 1) =~= strings(
            entry.command@,
        ).subrange(start as int, i as int).push(entry.command@[i as int]@));
        i += 1;
    }
    let program = if entry.suite == Suite::Cross {
        entry.command[0].clone()
    } else {
        "cargo".to_owned()
    };
    proof {
        if start == 0 {
            assert(strings(entry.command@).subrange(0, entry.command@.len() as int) =~= strings(
                entry.command@,
            ));
        }
        if entry.suite == Suite::AddressSanitizer {
            assert(head =~= seq!["+nightly"@]);
        } else {
            assert(head =~= Seq::<Seq<char>>::empty());
            assert(strings(args@) =~= strings(entry.command@).subrange(start as int, entry.command@.len() as int));
        }
    }
    LegacyAction::Program { program, args }
}

} // verus!
