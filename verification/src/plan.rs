//! Verification planning: which suites run, with which command, and which
//! are skipped for want of configuration.

use vstd::prelude::*;

use crate::env_value::EnvValue;
use crate::nightly::{toolchain, toolchain_result, ToolchainError};
use crate::plan_entry::PlanEntry;
use crate::plan_status::PlanStatus;
use crate::suite::{all_suites, suite_command, texts, Suite};
use crate::text::{has_setting_line, has_setting_line_exec};

verus! {

/// The views of a sequence of strings.
pub open spec fn strings(v: Seq<String>) -> Seq<Seq<char>> {
    v.map_values(|s: String| s@)
}

/// What a project must provide for a suite to be configured.
#[derive(Debug, Clone, Copy, PartialEq, Eq)]
pub enum ConfigurationCheck {
    /// The suite needs nothing beyond a readable `Cargo.toml`.
    Always,
    /// At least one of these project-relative files must exist.
    AnyFile(&'static [&'static str]),
    /// At least one workspace member must opt into Miri.
    MiriPackages,
    /// At least one workspace member must opt into AddressSanitizer.
    SanitizerPackages,
    /// At least one workspace member must depend directly on `loom`.
    LoomPackages,
    /// `fuzz/Cargo.toml` must exist and opt into cargo-fuzz.
    FuzzManifest,
}

/// The configuration check of `suite`, with the files that satisfy it.
pub open spec fn configuration_files(suite: Suite) -> Seq<Seq<char>> {
    match suite {
        Suite::FeatureMatrix => seq![".infra/ci/cargo-matrix.json"@, ".rs-ci-cargo-matrix.json"@],
        Suite::Cross => seq![".infra/ci/cross.toml"@, "Cross.toml"@, ".rs-ci-cross.toml"@],
        Suite::Platform => seq![".infra/ci/platform.toml"@, ".rs-ci-platform.toml"@],
        _ => Seq::empty(),
    }
}

/// Whether `check` is the configuration check of `suite`.
pub open spec fn is_configuration_check(suite: Suite, check: ConfigurationCheck) -> bool {
    match suite {
        Suite::FeatureMatrix | Suite::Cross | Suite::Platform => check matches ConfigurationCheck::AnyFile(
            files,
        ) && texts(files@) == configuration_files(suite),
        Suite::Miri => check == ConfigurationCheck::MiriPackages,
        Suite::AddressSanitizer => check == ConfigurationCheck::SanitizerPackages,
        Suite::Loom => check == ConfigurationCheck::LoomPackages,
        Suite::Fuzz => check == ConfigurationCheck::FuzzManifest,
        _ => check == ConfigurationCheck::Always,
    }
}

/// Returns what a project must provide for `suite` to be configured. Every
/// suite also needs the project's `Cargo.toml` to be readable.
pub fn configuration_check(suite: Suite) -> (r: ConfigurationCheck)
    ensures
        is_configuration_check(suite, r),
{
    match suite {
        Suite::FeatureMatrix => {
            let files: &'static [&'static str] = &[".infra/ci/cargo-matrix.json", ".rs-ci-cargo-matrix.json"];
            assert(texts(files@) =~= configuration_files(suite));
            ConfigurationCheck::AnyFile(files)
        },
        Suite::Cross => {
            let files: &'static [&'static str] = &[".infra/ci/cross.toml", "Cross.toml", ".rs-ci-cross.toml"];
            assert(texts(files@) =~= configuration_files(suite));
            ConfigurationCheck::AnyFile(files)
        },
        Suite::Platform => {
            let files: &'static [&'static str] = &[".infra/ci/platform.toml", ".rs-ci-platform.toml"];
            assert(texts(files@) =~= configuration_files(suite));
            ConfigurationCheck::AnyFile(files)
        },
        Suite::Miri => ConfigurationCheck::MiriPackages,
        Suite::AddressSanitizer => ConfigurationCheck::SanitizerPackages,
        Suite::Loom => ConfigurationCheck::LoomPackages,
        Suite::Fuzz => ConfigurationCheck::FuzzManifest,
        _ => ConfigurationCheck::Always,
    }
}

/// What a project shows for the configuration check of a suite.
#[derive(Debug, Clone, PartialEq, Eq)]
pub enum ConfigurationAnswer {
    /// The check needs nothing beyond a readable `Cargo.toml`.
    Always,
    /// For each file of an `AnyFile` check, in order, whether it exists.
    Files(Vec<bool>),
    /// How many workspace members opt into the suite.
    Packages(usize),
    /// The text of `fuzz/Cargo.toml`, when it is a readable file.
    FuzzManifest(Option<String>),
}

/// Whether the project configures a suite, given what it shows for the
/// suite's check: always; when one of the files exists; when at least one
/// workspace member opts in; or when `fuzz/Cargo.toml` is readable and
/// opts into cargo-fuzz.
pub open spec fn configured_by(answer: ConfigurationAnswer) -> bool {
    match answer {
        ConfigurationAnswer::Always => true,
        ConfigurationAnswer::Files(present) => present@.contains(true),
        ConfigurationAnswer::Packages(count) => count > 0,
        ConfigurationAnswer::FuzzManifest(text) => match text {
            Some(t) => fuzz_opted_in(t@),
            None => false,
        },
    }
}

/// Whether `answer` is the kind of answer that `check` asks for, with one
/// entry per file for a file check.
pub open spec fn answers(check: ConfigurationCheck, answer: ConfigurationAnswer) -> bool {
    match check {
        ConfigurationCheck::Always => answer is Always,
        ConfigurationCheck::AnyFile(files) => answer matches ConfigurationAnswer::Files(p)
            && p@.len() == files@.len(),
        ConfigurationCheck::MiriPackages => answer is Packages,
        ConfigurationCheck::SanitizerPackages => answer is Packages,
        ConfigurationCheck::LoomPackages => answer is Packages,
        ConfigurationCheck::FuzzManifest => answer is FuzzManifest,
    }
}

/// Decides whether the project configures a suite from what it shows for
/// the suite's check.
pub fn is_configured(answer: &ConfigurationAnswer) -> (r: bool)
    ensures
        r == configured_by(*answer),
{
    match answer {
        ConfigurationAnswer::Always => true,
        ConfigurationAnswer::Files(present) => {
            let mut i: usize = 0;
            while i < present.len()
                invariant
                    *answer == ConfigurationAnswer::Files(*present),
                    i <= present@.len(),
                    forall|k: int| 0 <= k < i ==> present@[k] == false,
                decreases present.len() - i,
            {
                if present[i] {
                    assert(present@[i as int] == true);
                    assert(present@.contains(true));
                    return true;
                }
                i += 1;
            }
            false
        },
        ConfigurationAnswer::Packages(count) => *count > 0,
        ConfigurationAnswer::FuzzManifest(text) => match text {
            Some(t) => fuzz_manifest_opted_in(t.as_str()),
            None => false,
        },
    }
}

/// Whether the text of `fuzz/Cargo.toml` opts into cargo-fuzz: one of its
/// lines sets `cargo-fuzz = true` (whitespace aside, before any `#`
/// comment, possibly inside an inline table).
pub open spec fn fuzz_opted_in(manifest: Seq<char>) -> bool {
    has_setting_line(manifest, "cargo-fuzz=true"@)
}

/// Returns whether the text of `fuzz/Cargo.toml` opts into cargo-fuzz.
pub fn fuzz_manifest_opted_in(manifest: &str) -> (r: bool)
    ensures
        r == fuzz_opted_in(manifest@),
{
    has_setting_line_exec(manifest, "cargo-fuzz=true")
}

/// The suites that a plan covers: the selected one, or all of them.
pub open spec fn planned_suites(selected: Option<Suite>) -> Seq<Suite> {
    match selected {
        Some(suite) => seq![suite],
        None => all_suites(),
    }
}

/// Returns the suites that a plan covers, in order.
pub fn selected_suites(selected: Option<Suite>) -> (r: Vec<Suite>)
    ensures
        r@ == planned_suites(selected),
{
    match selected {
        Some(suite) => {
            let mut r: Vec<Suite> = Vec::new();
            r.push(suite);
            assert(r@ =~= seq![suite]);
            r
        },
        None => {
            let all = Suite::all();
            let mut r: Vec<Suite> = Vec::new();
            let mut i: usize = 0;
            while i < all.len()
                invariant
                    all@ == all_suites(),
                    i <= all@.len(),
                    r@ == all@.subrange(0, i as int),
                decreases all.len() - i,
            {
                r.push(all[i]);
                i += 1;
                assert(r@ =~= all@.subrange(0, i as int));
            }
            assert(all@.subrange(0, all@.len() as int) =~= all@);
            r
        },
    }
}

/// Whether a ready `suite` runs under the selected nightly toolchain, which
/// the plan puts in front of its command.
pub open spec fn uses_nightly(suite: Suite) -> bool {
    suite == Suite::Miri || suite == Suite::AddressSanitizer
}

/// The reason a suite is skipped in the project shown as `project`.
pub open spec fn skip_reason(project: Seq<char>) -> Seq<char> {
    "not configured in "@ + project
}

/// The command a plan gives `suite`: its base command, behind the selected
/// toolchain when it is ready and runs under nightly.
pub open spec fn planned_command(suite: Suite, configured: bool, toolchain: Seq<char>) -> Seq<
    Seq<char>,
> {
    if configured && uses_nightly(suite) {
        seq![toolchain] + suite_command(suite)
    } else {
        suite_command(suite)
    }
}

/// Whether `entry` is the plan of `suite`, configured or not, in the project
/// shown as `project`, with `toolchain` as the selected toolchain argument.
pub open spec fn is_planned_entry(
    entry: PlanEntry,
    suite: Suite,
    configured: bool,
    project: Seq<char>,
    toolchain: Seq<char>,
) -> bool {
    &&& entry.suite == suite
    &&& strings(entry.command@) == planned_command(suite, configured, toolchain)
    &&& match entry.status {
        PlanStatus::Ready => configured,
        PlanStatus::Skipped(reason) => !configured && reason@ == skip_reason(project),
    }
}

/// Whether planning `suite` fails for want of a usable toolchain.
pub open spec fn plan_fails(suite: Suite, configured: bool, nightly: EnvValue) -> bool {
    configured && uses_nightly(suite) && toolchain_result(nightly) is Err
}

/// The selected toolchain argument (empty when there is none).
pub open spec fn toolchain_arg(nightly: EnvValue) -> Seq<char> {
    match toolchain_result(nightly) {
        Ok(t) => t,
        Err(_) => Seq::empty(),
    }
}

/// The strings of `args`, owned.
pub fn owned_args(args: &[&str]) -> (r: Vec<String>)
    ensures
        strings(r@) == texts(args@),
{
    let mut r: Vec<String> = Vec::new();
    let mut i: usize = 0;
    while i < args.len()
        invariant
            i <= args@.len(),
            r@.len() == i,
            strings(r@) == texts(args@.subrange(0, i as int)),
        decreases args.len() - i,
    {
        let ghost before = r@;
        let a: &str = args[i];
        let owned = a.to_owned();
        r.push(owned);
        proof {
            let old_texts = texts(args@.subrange(0, i as int));
            let new_texts = texts(args@.subrange(0, i + 1));
            assert forall|k: int| 0 <= k < i + 1 implies strings(r@)[k] == new_texts[k] by {
                if k < i {
                    assert(strings(before)[k] == old_texts[k]);
                    assert(r@[k] == before[k]);
                }
            }
            assert(strings(r@) =~= new_texts);
        }
        i += 1;
    }
    assert(args@.subrange(0, args@.len() as int) =~= args@);
    r
}

/// Plans one suite: whether it is ready, given whether the project
/// configures it, and the command that runs it. `project` is how the
/// project is shown in the reason for a skip; `nightly` is the value of
/// `RS_INFRA_NIGHTLY_TOOLCHAIN`, read only for a ready suite that runs under
/// nightly.
pub fn plan_entry(suite: Suite, configured: bool, project: &str, nightly: &EnvValue) -> (r: Result<
    PlanEntry,
    ToolchainError,
>)
    ensures
        plan_fails(suite, configured, *nightly) ==> r == Err::<PlanEntry, ToolchainError>(
            toolchain_result(*nightly)->Err_0,
        ),
        !plan_fails(suite, configured, *nightly) ==> (r matches Ok(entry) && is_planned_entry(
            entry,
            suite,
            configured,
            project@,
            toolchain_arg(*nightly),
        )),
{
    let status = if configured {
        PlanStatus::Ready
    } else {
        let mut reason = "not configured in ".to_owned();
        reason.append(project);
        PlanStatus::Skipped(reason)
    };
    let mut command = owned_args(suite.command());
    if configured && (suite == Suite::Miri || suite == Suite::AddressSanitizer) {
        let t = match toolchain(nightly) {
            Ok(t) => t,
            Err(e) => return Err(e),
        };
        command.insert(0, t);
        assert(strings(command@) =~= seq![toolchain_arg(*nightly)] + suite_command(suite));
    }
    Ok(PlanEntry { suite, command, status })
}

/// Plans the selected suite, or every suite. `configured[i]` tells whether
/// the project configures the `i`-th planned suite.
pub fn plan(selected: Option<Suite>, configured: &Vec<bool>, project: &str, nightly: &EnvValue) -> (r:
    Result<Vec<PlanEntry>, ToolchainError>)
    requires
        configured@.len() == planned_suites(selected).len(),
    ensures
        (exists|i: int|
            0 <= i < configured@.len() && plan_fails(
                #[trigger] planned_suites(selected)[i],
                configured@[i],
                *nightly,
            )) ==> r == Err::<Vec<PlanEntry>, ToolchainError>(toolchain_result(*nightly)->Err_0),
        (forall|i: int|
            0 <= i < configured@.len() ==> !plan_fails(
                #[trigger] planned_suites(selected)[i],
                configured@[i],
                *nightly,
            )) ==> (r matches Ok(entries) && entries@.len() == configured@.len() && forall|i: int|
            0 <= i < entries@.len() ==> is_planned_entry(
                #[trigger] entries@[i],
                planned_suites(selected)[i],
                configured@[i],
                project@,
                toolchain_arg(*nightly),
            )),
{
    let suites = selected_suites(selected);
    let mut entries: Vec<PlanEntry> = Vec::new();
    let mut i: usize = 0;
    while i < suites.len()
        invariant
            suites@ == planned_suites(selected),
            configured@.len() == suites@.len(),
            i <= suites@.len(),
            entries@.len() == i,
            forall|k: int| 0 <= k < i ==> !plan_fails(#[trigger] suites@[k], configured@[k], *nightly),
            forall|k: int|
                0 <= k < i ==> is_planned_entry(
                    #[trigger] entries@[k],
                    suites@[k],
                    configured@[k],
                    project@,
                    toolchain_arg(*nightly),
                ),
        decreases suites.len() - i,
    {
        match plan_entry(suites[i], configured[i], project, nightly) {
            Ok(entry) => entries.push(entry),
            Err(e) => return Err(e),
        }
        i += 1;
    }
    Ok(entries)
}

} // verus!
