//! Decisions behind running verification suites and lockfile checks.

use vstd::prelude::*;

use crate::metadata::MiriPackage;
use crate::plan::strings;
use crate::plan_entry::PlanEntry;
use crate::plan_status::PlanStatus;
use crate::suite::Suite;
use crate::text::{
    chars_of, chars_range, lines, lines_of, next_char, next_char_exec, parse_u32, parse_u32_chars,
    same_chars, starts_with, starts_with_chars, tokens, tokens_of,
};

verus! {

// ---------------------------------------------------------------------------
// MIRIFLAGS
// ---------------------------------------------------------------------------

/// The Miri flag that allows filesystem access.
pub open spec fn isolation_flag() -> Seq<char> {
    "-Zmiri-disable-isolation"@
}

/// `MIRIFLAGS` with filesystem access allowed: the caller's flags, followed
/// by `-Zmiri-disable-isolation` unless they already hold it as a
/// whitespace-separated token.
pub open spec fn miri_flags_of(current: Seq<char>) -> Seq<char> {
    if tokens(current).contains(isolation_flag()) {
        current
    } else if current.len() == 0 {
        isolation_flag()
    } else {
        current + " "@ + isolation_flag()
    }
}

/// Adds Miri's filesystem allowance while retaining caller-provided flags.
pub fn miri_flags(current: &str) -> (r: String)
    ensures
        r@ == miri_flags_of(current@),
{
    let flag = chars_of("-Zmiri-disable-isolation");
    let toks = tokens_of(&chars_of(current));
    let mut i: usize = 0;
    while i < toks.len()
        invariant
            flag@ == isolation_flag(),
            i <= toks@.len(),
            toks@.len() == tokens(current@).len(),
            forall|j: int| 0 <= j < toks@.len() ==> #[trigger] toks@[j]@ == tokens(current@)[j],
            forall|j: int| 0 <= j < i ==> tokens(current@)[j] != isolation_flag(),
        decreases toks.len() - i,
    {
        if same_chars(&toks[i], &flag) {
            assert(tokens(current@)[i as int] == isolation_flag());
            return current.to_owned();
        }
        i += 1;
    }
    assert(!tokens(current@).contains(isolation_flag()));
    if current.is_empty() {
        "-Zmiri-disable-isolation".to_owned()
    } else {
        let mut r = current.to_owned();
        r.append(" -Zmiri-disable-isolation");
        proof {
            reveal_strlit(" -Zmiri-disable-isolation");
            reveal_strlit(" ");
            reveal_strlit("-Zmiri-disable-isolation");
        }
        assert(r@ =~= current@ + " "@ + isolation_flag());
        r
    }
}

// ---------------------------------------------------------------------------
// Test-harness output
// ---------------------------------------------------------------------------

/// The prefix of a test-harness count line.
pub open spec fn running_prefix() -> Seq<char> {
    "running "@
}

/// Whether one line reports a positive number of selected tests: it is
/// `running `, a count, one space, and `test` or `tests`, where the count
/// parses as a positive `u32`.
pub open spec fn reports_tests_line(line: Seq<char>) -> bool {
    &&& starts_with(line, running_prefix())
    &&& {
        let rest = line.subrange(running_prefix().len() as int, line.len() as int);
        let k = next_char(rest, ' ', 0);
        &&& k < rest.len()
        &&& {
            let count = rest.subrange(0, k);
            let unit = rest.subrange(k + 1, rest.len() as int);
            &&& (unit == "test"@ || unit == "tests"@)
            &&& parse_u32(count) matches Some(n) && n > 0
        }
    }
}

/// Whether captured output reports at least one selected test on some line.
pub open spec fn reports_tests(output: Seq<char>) -> bool {
    exists|j: int| 0 <= j < lines(output).len() && reports_tests_line(#[trigger] lines(output)[j])
}

/// Returns whether one line reports a positive number of selected tests.
fn reports_tests_line_exec(line: &Vec<char>) -> (r: bool)
    ensures
        r == reports_tests_line(line@),
{
    let prefix = chars_of("running ");
    if !starts_with_chars(line, &prefix) {
        return false;
    }
    let rest = chars_range(line, prefix.len(), line.len());
    let k = next_char_exec(&rest, ' ', 0);
    if k >= rest.len() {
        return false;
    }
    let count = chars_range(&rest, 0, k);
    let unit = chars_range(&rest, k + 1, rest.len());
    let unit_ok = same_chars(&unit, &chars_of("test")) || same_chars(&unit, &chars_of("tests"));
    if !unit_ok {
        return false;
    }
    match parse_u32_chars(&count) {
        Some(n) => n > 0,
        None => false,
    }
}

/// Checks whether captured test output reports at least one selected test.
pub fn output_reports_tests(output: &str) -> (r: bool)
    ensures
        r == reports_tests(output@),
{
    let ls = lines_of(&chars_of(output));
    let mut i: usize = 0;
    while i < ls.len()
        invariant
            i <= ls@.len(),
            ls@.len() == lines(output@).len(),
            forall|j: int| 0 <= j < ls@.len() ==> #[trigger] ls@[j]@ == lines(output@)[j],
            forall|j: int| 0 <= j < i ==> !reports_tests_line(#[trigger] lines(output@)[j]),
        decreases ls.len() - i,
    {
        if reports_tests_line_exec(&ls[i]) {
            assert(reports_tests_line(lines(output@)[i as int]));
            return true;
        }
        i += 1;
    }
    false
}

// ---------------------------------------------------------------------------
// Miri runs
// ---------------------------------------------------------------------------

/// The Cargo arguments that run one package under Miri: the planned
/// command, `--package` and the name, then the package's test arguments.
pub open spec fn miri_args(command: Seq<Seq<char>>, package: (Seq<char>, Seq<Seq<char>>)) -> Seq<
    Seq<char>,
> {
    command + seq!["--package"@, package.0] + package.1
}

/// Returns the Cargo arguments that run one package under Miri.
pub fn miri_arguments(command: &Vec<String>, package: &MiriPackage) -> (r: Vec<String>)
    ensures
        strings(r@) == miri_args(strings(command@), package@),
{
    let mut r: Vec<String> = Vec::new();
    let mut i: usize = 0;
    while i < command.len()
        invariant
            i <= command@.len(),
            strings(r@) == strings(command@).subrange(0, i as int),
        decreases command.len() - i,
    {
        let ghost before = r@;
        r.push(command[i].clone());
        assert(strings(r@) =~= strings(before).push(command@[i as int]@));
        i += 1;
    }
    let ghost base = r@;
    r.push("--package".to_owned());
    r.push(package.name.clone());
    assert(strings(r@) =~= strings(base) + seq!["--package"@, package.name@]);
    let mut j: usize = 0;
    let ghost head = r@;
    while j < package.test_args.len()
        invariant
            j <= package.test_args@.len(),
            strings(r@) == strings(head) + strings(package.test_args@).subrange(0, j as int),
        decreases package.test_args.len() - j,
    {
        let ghost before = r@;
        r.push(package.test_args[j].clone());
        assert(strings(r@) =~= strings(before).push(package.test_args@[j as int]@));
        j += 1;
    }
    assert(strings(command@).subrange(0, command@.len() as int) =~= strings(command@));
    assert(strings(package.test_args@).subrange(0, package.test_args@.len() as int) =~= strings(
        package.test_args@,
    ));
    assert(strings(r@) =~= miri_args(strings(command@), package@));
    r
}

/// Why a Miri run failed; each holds the package name.
#[derive(Debug, Clone, PartialEq, Eq)]
pub enum MiriError {
    /// The Miri command exited unsuccessfully.
    Failed(String),
    /// The Miri command succeeded but reported no selected test.
    NoTests(String),
}

/// The message of a Miri error.
pub open spec fn miri_error_message(e: MiriError) -> Seq<char> {
    match e {
        MiriError::Failed(name) => "Miri failed for package "@ + name@,
        MiriError::NoTests(name) => "Miri selected no tests for package "@ + name@,
    }
}

impl MiriError {
    /// The error's message.
    pub fn message(&self) -> (r: String)
        ensures
            r@ == miri_error_message(*self),
    {
        match self {
            MiriError::Failed(name) => {
                let mut r = "Miri failed for package ".to_owned();
                r.append(name.as_str());
                r
            },
            MiriError::NoTests(name) => {
                let mut r = "Miri selected no tests for package ".to_owned();
                r.append(name.as_str());
                r
            },
        }
    }
}

/// Decides the outcome of one package's Miri run from its exit status and
/// its two output streams, read together as `stdout`, a newline, `stderr`.
pub fn miri_outcome(name: &str, success: bool, stdout: &str, stderr: &str) -> (r: Result<
    (),
    MiriError,
>)
    ensures
        !success ==> (r matches Err(MiriError::Failed(n)) && n@ == name@),
        success && !reports_tests(stdout@ + "\n"@ + stderr@) ==> (r matches Err(
            MiriError::NoTests(n),
        ) && n@ == name@),
        success && reports_tests(stdout@ + "\n"@ + stderr@) ==> r is Ok,
{
    if !success {
        return Err(MiriError::Failed(name.to_owned()));
    }
    let mut combined = stdout.to_owned();
    combined.append("\n");
    combined.append(stderr);
    if !output_reports_tests(combined.as_str()) {
        return Err(MiriError::NoTests(name.to_owned()));
    }
    Ok(())
}

// ---------------------------------------------------------------------------
// Suite runs
// ---------------------------------------------------------------------------

/// What running a planned suite does.
#[derive(Debug, Clone, PartialEq, Eq)]
pub enum SuiteAction {
    /// Print the entry's message and succeed: the suite is not configured.
    Skip,
    /// Build and verify each publishable workspace package.
    Package,
    /// Check README dependency declarations.
    Readme,
    /// Run each Miri-enabled package with the planned command.
    Miri,
    /// Run each AddressSanitizer-enabled package on the host target.
    AddressSanitizer,
    /// Discover and run each Loom-enabled package's models.
    Loom,
    /// Build or smoke-test each fuzz target.
    Fuzz,
    /// Run `program` with `args` in the project.
    Program { program: String, args: Vec<String> },
}

/// Whether `action` is what running `entry` does.
pub open spec fn is_suite_action(entry: PlanEntry, action: SuiteAction) -> bool {
    if entry.status is Skipped {
        action is Skip
    } else {
        match entry.suite {
            Suite::Package => action is Package,
            Suite::Readme => action is Readme,
            Suite::Miri => action is Miri,
            Suite::AddressSanitizer => action is AddressSanitizer,
            Suite::Loom => action is Loom,
            Suite::Fuzz => action is Fuzz,
            Suite::Cross => action matches SuiteAction::Program { program, args } && program@
                == strings(entry.command@)[0] && strings(args@) == strings(entry.command@).subrange(
                1,
                entry.command@.len() as int,
            ),
            _ => action matches SuiteAction::Program { program, args } && program@ == "cargo"@
                && strings(args@) == strings(entry.command@),
        }
    }
}

/// The copies of `v[from..]`.
fn clone_from(v: &Vec<String>, from: usize) -> (r: Vec<String>)
    requires
        from <= v@.len(),
    ensures
        strings(r@) == strings(v@).subrange(from as int, v@.len() as int),
{
    let mut r: Vec<String> = Vec::new();
    let mut i = from;
    while i < v.len()
        invariant
            from <= i <= v@.len(),
            strings(r@) == strings(v@).subrange(from as int, i as int),
        decreases v.len() - i,
    {
        let ghost before = r@;
        r.push(v[i].clone());
        assert(strings(r@) =~= strings(before).push(v@[i as int]@));
        assert(strings(v@).subrange(from as int, i + 1) =~= strings(v@).subrange(
            from as int,
            i as int,
        ).push(v@[i as int]@));
        i += 1;
    }
    r
}

/// Decides what running a planned suite does: skipped suites print their
/// message; Package, Readme, Miri, AddressSanitizer, Loom and Fuzz run their
/// own checks; Cross runs its first argument as the program; every other
/// suite runs Cargo with the planned command.
pub fn suite_action(entry: &PlanEntry) -> (r: SuiteAction)
    requires
        entry.suite == Suite::Cross && entry.status is Ready ==> entry.command@.len() >= 1,
    ensures
        is_suite_action(*entry, r),
{
    if let PlanStatus::Skipped(_) = &entry.status {
        return SuiteAction::Skip;
    }
    match entry.suite {
        Suite::Package => SuiteAction::Package,
        Suite::Readme => SuiteAction::Readme,
        Suite::Miri => SuiteAction::Miri,
        Suite::AddressSanitizer => SuiteAction::AddressSanitizer,
        Suite::Loom => SuiteAction::Loom,
        Suite::Fuzz => SuiteAction::Fuzz,
        Suite::Cross => {
            let program = entry.command[0].clone();
            let args = clone_from(&entry.command, 1);
            SuiteAction::Program { program, args }
        },
        _ => {
            let args = clone_from(&entry.command, 0);
            assert(strings(entry.command@).subrange(0, entry.command@.len() as int) =~= strings(
                entry.command@,
            ));
            SuiteAction::Program { program: "cargo".to_owned(), args }
        },
    }
}

// ---------------------------------------------------------------------------
// Lockfiles
// ---------------------------------------------------------------------------

/// One Cargo invocation of a lockfile operation.
#[derive(Debug, Clone, PartialEq, Eq)]
pub struct CargoStep {
    /// The Cargo arguments.
    pub args: Vec<String>,
    /// Whether successful output is suppressed and a failure is reported as
    /// a missing or stale lockfile.
    pub quiet: bool,
}

/// The message of a failed lockfile check.
pub open spec fn lock_stale_text() -> Seq<char> {
    "Cargo.lock is missing or stale; run rs-infra-verify lock sync"@
}

/// The message of a passed lockfile check.
pub open spec fn lock_current_text() -> Seq<char> {
    "Cargo.lock is current."@
}

/// Returns the message of a failed lockfile check, which tells how to
/// regenerate the lockfile.
pub fn lock_stale_message() -> (r: String)
    ensures
        r@ == lock_stale_text(),
{
    "Cargo.lock is missing or stale; run rs-infra-verify lock sync".to_owned()
}

/// Returns the message of a passed lockfile check.
pub fn lock_current_message() -> (r: String)
    ensures
        r@ == lock_current_text(),
{
    "Cargo.lock is current.".to_owned()
}

/// The arguments that check that a lockfile is current.
pub open spec fn lock_check_args() -> Seq<Seq<char>> {
    seq!["metadata"@, "--no-deps"@, "--locked"@, "--format-version"@, "1"@]
}

fn lock_check_step() -> (r: CargoStep)
    ensures
        strings(r.args@) == lock_check_args(),
        r.quiet,
{
    let mut args: Vec<String> = Vec::new();
    args.push("metadata".to_owned());
    args.push("--no-deps".to_owned());
    args.push("--locked".to_owned());
    args.push("--format-version".to_owned());
    args.push("1".to_owned());
    assert(strings(args@) =~= lock_check_args());
    CargoStep { args, quiet: true }
}

/// The Cargo invocations that check a project's lockfile: one quiet
/// `cargo metadata --locked` run.
pub fn lock_check() -> (r: Vec<CargoStep>)
    ensures
        r@.len() == 1,
        strings(r@[0].args@) == lock_check_args(),
        r@[0].quiet,
{
    let mut r: Vec<CargoStep> = Vec::new();
    r.push(lock_check_step());
    r
}

/// The Cargo invocations that regenerate and then check a project's
/// lockfile: `cargo generate-lockfile`, then the check; each runs only
/// when the one before succeeded.
pub fn lock_sync() -> (r: Vec<CargoStep>)
    ensures
        r@.len() == 2,
        strings(r@[0].args@) == seq!["generate-lockfile"@],
        !r@[0].quiet,
        strings(r@[1].args@) == lock_check_args(),
        r@[1].quiet,
{
    let mut args: Vec<String> = Vec::new();
    args.push("generate-lockfile".to_owned());
    assert(strings(args@) =~= seq!["generate-lockfile"@]);
    let mut r: Vec<CargoStep> = Vec::new();
    r.push(CargoStep { args, quiet: false });
    r.push(lock_check_step());
    r
}

} // verus!
