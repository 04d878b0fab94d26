use qubit_infra_verify::plan::{is_configured, ConfigurationAnswer};
use qubit_infra_verify::sequence;
use qubit_infra_verify::sequence::Next;
use qubit_infra_verify::cli::{operation_name, run_targets, suite_from_arg, suite_name, Command, LockCommand, SuiteArg};
use qubit_infra_verify::metadata::MiriPackage;
use qubit_infra_verify::runner::{
    lock_check, lock_sync, miri_arguments, miri_flags, miri_outcome, output_reports_tests, suite_action,
    MiriError, SuiteAction,
};
use qubit_infra_verify::{PlanEntry, PlanStatus, Suite};

#[test]
fn test_miri_flags_allow_filesystem_and_preserve_existing_values() {
    assert_eq!(
        miri_flags("-Zmiri-backtrace=full"),
        "-Zmiri-backtrace=full -Zmiri-disable-isolation"
    );
    assert_eq!(
        miri_flags("-Zmiri-disable-isolation"),
        "-Zmiri-disable-isolation"
    );
}

#[test]
fn test_miri_output_requires_a_positive_test_count() {
    assert!(output_reports_tests("running 1 test\ntest sample ... ok"));
    assert!(!output_reports_tests("running 0 tests\n"));
}

#[test]
fn miri_flags_are_idempotent_and_token_based() {
    assert_eq!(miri_flags(""), "-Zmiri-disable-isolation");
    let once = miri_flags("-Zmiri-backtrace=full");
    assert_eq!(miri_flags(&once), once);
    assert_eq!(
        miri_flags("-Zmiri-disable-isolation-x"),
        "-Zmiri-disable-isolation-x -Zmiri-disable-isolation"
    );
    assert_eq!(miri_flags("a\t-Zmiri-disable-isolation\n"), "a\t-Zmiri-disable-isolation\n");
}

#[test]
fn test_counts_need_a_harness_line() {
    assert!(output_reports_tests("running 12 tests\r\n"));
    assert!(output_reports_tests("noise\nrunning +3 tests"));
    assert!(!output_reports_tests("running 1 test\r"));
    assert!(!output_reports_tests("  running 1 test"));
    assert!(!output_reports_tests("running 1  test"));
    assert!(!output_reports_tests("running -1 test"));
    assert!(!output_reports_tests("running 4294967296 tests"));
    assert!(output_reports_tests("running 4294967295 tests"));
    assert!(!output_reports_tests("running 1 testing"));
    assert!(!output_reports_tests(""));
}

#[test]
fn combined_streams_report_tests_from_either_stream() {
    assert!(miri_outcome("demo", true, "", "running 2 tests").is_ok());
    assert!(miri_outcome("demo", true, "running 1 test\r", "").is_ok());
    assert_eq!(miri_outcome("demo", true, "nothing", ""), Err(MiriError::NoTests("demo".to_owned())));
    assert_eq!(miri_outcome("demo", false, "running 1 test", ""), Err(MiriError::Failed("demo".to_owned())));
    assert_eq!(MiriError::Failed("demo".to_owned()).message(), "Miri failed for package demo");
    assert_eq!(MiriError::NoTests("demo".to_owned()).message(), "Miri selected no tests for package demo");
}

#[test]
fn miri_arguments_select_the_package_and_its_tests() {
    let command: Vec<String> = ["+nightly", "miri", "test"].iter().map(|s| s.to_string()).collect();
    let package = MiriPackage { name: "demo".to_owned(), test_args: vec!["--test".to_owned(), "tests".to_owned()] };
    assert_eq!(
        miri_arguments(&command, &package),
        ["+nightly", "miri", "test", "--package", "demo", "--test", "tests"]
    );
}

fn entry(suite: Suite, command: &[&str], status: PlanStatus) -> PlanEntry {
    PlanEntry { suite, command: command.iter().map(|s| s.to_string()).collect(), status }
}

#[test]
fn suite_actions_dispatch_by_suite() {
    assert_eq!(suite_action(&entry(Suite::Miri, &["x"], PlanStatus::Skipped("r".to_owned()))), SuiteAction::Skip);
    assert_eq!(suite_action(&entry(Suite::Package, &[], PlanStatus::Ready)), SuiteAction::Package);
    assert_eq!(suite_action(&entry(Suite::Readme, &[], PlanStatus::Ready)), SuiteAction::Readme);
    assert_eq!(suite_action(&entry(Suite::Fuzz, &[], PlanStatus::Ready)), SuiteAction::Fuzz);
    assert_eq!(
        suite_action(&entry(Suite::Cross, &["cross", "test", "--locked"], PlanStatus::Ready)),
        SuiteAction::Program { program: "cross".to_owned(), args: vec!["test".to_owned(), "--locked".to_owned()] }
    );
    assert_eq!(
        suite_action(&entry(Suite::Build, &["build", "--locked"], PlanStatus::Ready)),
        SuiteAction::Program { program: "cargo".to_owned(), args: vec!["build".to_owned(), "--locked".to_owned()] }
    );
}

#[test]
fn lock_operations_check_after_regenerating() {
    let check = lock_check();
    assert_eq!(check.len(), 1);
    assert_eq!(check[0].args, ["metadata", "--no-deps", "--locked", "--format-version", "1"]);
    assert!(check[0].quiet);
    let sync = lock_sync();
    assert_eq!(sync.len(), 2);
    assert_eq!(sync[0].args, ["generate-lockfile"]);
    assert!(!sync[0].quiet);
    assert_eq!(sync[1], check[0]);
}

#[test]
fn cli_names_and_targets() {
    assert_eq!(suite_name(SuiteArg::All), "all");
    assert_eq!(suite_name(SuiteArg::AddressSanitizer), "address-sanitizer");
    assert_eq!(suite_from_arg(SuiteArg::Readme), Suite::Readme);
    assert_eq!(run_targets(SuiteArg::All).len(), 15);
    assert_eq!(run_targets(SuiteArg::Loom), vec![Suite::Loom]);
    assert_eq!(operation_name(&Command::Lock(LockCommand::Check)), "lock check");
    assert_eq!(operation_name(&Command::Lock(LockCommand::Sync)), "lock sync");
    assert_eq!(operation_name(&Command::Run(SuiteArg::FeatureMatrix)), "run --suite feature-matrix");
    for suite in Suite::all() {
        let arg = [
            SuiteArg::Lock, SuiteArg::Build, SuiteArg::Test, SuiteArg::Doc, SuiteArg::Package,
            SuiteArg::Readme, SuiteArg::Clippy, SuiteArg::FeatureMatrix, SuiteArg::Cross,
            SuiteArg::Platform, SuiteArg::Miri, SuiteArg::AddressSanitizer, SuiteArg::Loom,
            SuiteArg::Fuzz, SuiteArg::Audit,
        ]
        .into_iter()
        .find(|a| suite_from_arg(*a) == *suite)
        .expect("argument");
        assert_eq!(suite_name(arg), suite.name());
    }
}

/// Drives a run with the given step outcomes; returns the steps run and
/// the result.
fn drive(outcomes: &[Result<(), String>]) -> (Vec<usize>, Result<(), String>) {
    let mut ran = Vec::new();
    let mut next = sequence::start(outcomes.len());
    loop {
        match next {
            Next::Run(i) => {
                ran.push(i);
                next = sequence::after_step(outcomes.len(), i, outcomes[i].clone());
            }
            Next::Finish(result) => return (ran, result),
        }
    }
}

#[test]
fn runs_stop_at_the_first_failure() {
    assert_eq!(drive(&[]), (vec![], Ok(())));
    assert_eq!(drive(&[Ok(()), Ok(()), Ok(())]), (vec![0, 1, 2], Ok(())));
    assert_eq!(
        drive(&[Ok(()), Err("second".to_owned()), Err("third".to_owned())]),
        (vec![0, 1], Err("second".to_owned()))
    );
    assert_eq!(drive(&[Err("generate".to_owned()), Ok(())]), (vec![0], Err("generate".to_owned())));
    assert_eq!(sequence::after_step::<String>(2, 1, Ok(())), Next::Finish(Ok(())));
    assert_eq!(sequence::after_step::<String>(2, 0, Ok(())), Next::Run(1));
}

#[test]
fn configuration_answers_decide_whether_a_suite_runs() {
    assert!(is_configured(&ConfigurationAnswer::Always));
    assert!(is_configured(&ConfigurationAnswer::Files(vec![false, true])));
    assert!(!is_configured(&ConfigurationAnswer::Files(vec![false, false])));
    assert!(is_configured(&ConfigurationAnswer::Packages(2)));
    assert!(!is_configured(&ConfigurationAnswer::Packages(0)));
    assert!(is_configured(&ConfigurationAnswer::FuzzManifest(Some("[package.metadata]\ncargo-fuzz = true\n".to_owned()))));
    assert!(!is_configured(&ConfigurationAnswer::FuzzManifest(Some("cargo-fuzz = false\nx = true\n".to_owned()))));
    assert!(!is_configured(&ConfigurationAnswer::FuzzManifest(None)));
}
