use qubit_infra_verify::legacy;
use qubit_infra_verify::legacy::Suite as LegacySuite;
use qubit_infra_verify::plan::{configuration_check, fuzz_manifest_opted_in, plan_entry, selected_suites, ConfigurationCheck};
use qubit_infra_verify::plan_entry::PlanEntry;
use qubit_infra_verify::{plan, EnvValue, PlanStatus, Suite};

#[test]
fn suite_enum_is_available_to_callers() {
    assert!(matches!(Suite::Test, Suite::Test));
}

#[test]
fn every_legacy_capability_has_a_stable_suite_command() {
    assert_eq!(LegacySuite::all().len(), 14);
    assert_eq!(
        LegacySuite::Clippy.command(),
        &["clippy", "--workspace", "--all-targets", "--all-features"]
    );
    assert_eq!(
        LegacySuite::Cross.command(),
        &["cross", "test", "--workspace", "--all-features"]
    );
    assert_eq!(LegacySuite::Audit.command(), &["audit"]);
}

fn legacy_project(manifest: &str) -> legacy::LegacyProject {
    legacy::LegacyProject { manifest: manifest.to_owned(), files: Vec::new(), fuzz_manifest: None }
}

fn legacy_plan(project: &legacy::LegacyProject, selected: Option<legacy::Suite>) -> Vec<legacy::PlanEntry> {
    let suites: Vec<legacy::Suite> = match selected {
        Some(s) => vec![s],
        None => legacy::Suite::all().to_vec(),
    };
    let configured: Vec<bool> = suites.iter().map(|s| legacy::is_configured(project, *s)).collect();
    legacy::plan(selected, &configured, "/tmp/fixture")
}

#[test]
fn unconfigured_optional_capabilities_are_explicitly_skipped() {
    let project = legacy_project("[package]\nname='fixture'\nversion='0.1.0'\nedition='2024'\n");
    let plan = legacy_plan(&project, None);
    let miri = plan
        .iter()
        .find(|entry| entry.suite == legacy::Suite::Miri)
        .expect("miri entry");
    assert!(matches!(miri.status, legacy::PlanStatus::Skipped(_)));
    assert!(miri.message().contains("not configured"));
}

#[test]
fn configured_capability_is_not_silently_skipped() {
    let project = legacy_project(
        "[package]\nname='fixture'\nversion='0.1.0'\nedition='2024'\n\n[package.metadata.rs-ci]\nmiri=true\n",
    );
    let plan = legacy_plan(&project, Some(legacy::Suite::Miri));
    assert!(matches!(plan[0].status, legacy::PlanStatus::Ready));
    assert!(plan[0].command.iter().any(|arg| *arg == "miri"));
}

#[test]
fn every_suite_is_listed_once_with_a_distinct_name() {
    let all = Suite::all();
    assert_eq!(all.len(), 15);
    let mut names: Vec<&str> = all.iter().map(|s| s.name()).collect();
    names.sort();
    names.dedup();
    assert_eq!(names.len(), 15);
    assert_eq!(Suite::Readme.name(), "readme");
    assert_eq!(Suite::AddressSanitizer.name(), "address-sanitizer");
    assert_eq!(Suite::FeatureMatrix.name(), "feature-matrix");
}

#[test]
fn commands_match_the_documented_suites() {
    assert_eq!(Suite::Readme.command(), &[] as &[&str]);
    assert_eq!(Suite::Package.command(), &["package", "--allow-dirty"]);
    assert_eq!(Suite::Miri.command(), &["miri", "test", "--locked", "--all-features"]);
    assert_eq!(Suite::Lock.command(), &["metadata", "--no-deps", "--locked", "--format-version", "1"]);
    for suite in Suite::all() {
        assert_eq!(suite.command().is_empty(), *suite == Suite::Readme);
    }
}

#[test]
fn plan_marks_ready_and_skipped_suites() {
    let configured = vec![true];
    let entries = plan(Some(Suite::Test), &configured, "/work", &EnvValue::Unset).expect("plan");
    assert_eq!(entries.len(), 1);
    assert!(matches!(entries[0].status, PlanStatus::Ready));
    assert_eq!(entries[0].message(), "test is enabled");

    let entries = plan(Some(Suite::Loom), &vec![false], "/work", &EnvValue::Unset).expect("plan");
    assert!(matches!(&entries[0].status, PlanStatus::Skipped(r) if r == "not configured in /work"));
    assert_eq!(entries[0].message(), "loom: skipped: not configured in /work");
}

#[test]
fn plan_covers_every_suite_in_order() {
    let configured = vec![false; 15];
    let entries = plan(None, &configured, "p", &EnvValue::Unset).expect("plan");
    assert_eq!(entries.len(), 15);
    for (entry, suite) in entries.iter().zip(Suite::all()) {
        assert_eq!(entry.suite, *suite);
        let command: Vec<&str> = entry.command.iter().map(|s| s.as_str()).collect();
        assert_eq!(command, suite.command());
    }
}

#[test]
fn ready_nightly_suites_run_under_the_selected_toolchain() {
    let entry = plan_entry(Suite::Miri, true, "p", &EnvValue::Text("nightly-2026-06-05".to_owned())).expect("entry");
    assert_eq!(entry.command[0], "+nightly-2026-06-05");
    assert_eq!(entry.command[1..], ["miri", "test", "--locked", "--all-features"]);
    let entry = plan_entry(Suite::AddressSanitizer, true, "p", &EnvValue::Unset).expect("entry");
    assert_eq!(entry.command[0], "+nightly");
    let entry = plan_entry(Suite::Miri, false, "p", &EnvValue::Text(String::new())).expect("skipped entry");
    assert_eq!(entry.command[0], "miri");
    assert!(plan_entry(Suite::Miri, true, "p", &EnvValue::Text(String::new())).is_err());
    let fuzz = plan_entry(Suite::Fuzz, true, "p", &EnvValue::Text(String::new())).expect("fuzz entry");
    assert_eq!(fuzz.command, ["fuzz", "list"]);
}

#[test]
fn message_names_suite_and_reason() {
    let entry = PlanEntry { suite: Suite::Cross, command: Vec::new(), status: PlanStatus::Skipped("why".to_owned()) };
    assert_eq!(entry.message(), "cross: skipped: why");
}

#[test]
fn configuration_checks_name_their_files() {
    assert_eq!(configuration_check(Suite::Test), ConfigurationCheck::Always);
    assert_eq!(
        configuration_check(Suite::Cross),
        ConfigurationCheck::AnyFile(&[".infra/ci/cross.toml", "Cross.toml", ".rs-ci-cross.toml"])
    );
    assert_eq!(configuration_check(Suite::Miri), ConfigurationCheck::MiriPackages);
    assert_eq!(configuration_check(Suite::Fuzz), ConfigurationCheck::FuzzManifest);
    assert!(fuzz_manifest_opted_in("[package.metadata]\ncargo-fuzz=true\n"));
    assert!(!fuzz_manifest_opted_in("[package.metadata]\ncargo-fuzz=false\n"));
    assert!(fuzz_manifest_opted_in("[package.metadata]\n  cargo-fuzz = true  \r\n"));
    assert!(!fuzz_manifest_opted_in("[package.metadata]\ncargo-fuzz = false\n[features]\nextra = true\n"));
    assert!(!fuzz_manifest_opted_in("# cargo-fuzz = true\n"));
    assert!(fuzz_manifest_opted_in("cargo-fuzz = true # x"));
    assert!(fuzz_manifest_opted_in("[package]\nmetadata = { cargo-fuzz = true }\n"));
    assert_eq!(selected_suites(Some(Suite::Doc)), vec![Suite::Doc]);
    assert_eq!(selected_suites(None).len(), 15);
}

#[test]
fn legacy_flags_ignore_whitespace_and_accept_dotted_keys() {
    assert!(legacy::has_metadata_flag("miri = true\n", "miri", "true"));
    assert!(legacy::has_metadata_flag("package.metadata.rs-ci.miri = true", "miri", "true"));
    assert!(!legacy::has_metadata_flag("xmiri=true", "miri", "true"));
    assert!(!legacy::has_metadata_flag("miri=false", "miri", "true"));
    let project = legacy::LegacyProject {
        manifest: "sanitizers = ['address']".to_owned(),
        files: vec!["Cross.toml".to_owned()],
        fuzz_manifest: Some("cargo-fuzz = true".to_owned()),
    };
    assert!(legacy::is_configured(&project, legacy::Suite::AddressSanitizer));
    assert!(legacy::is_configured(&project, legacy::Suite::Cross));
    assert!(legacy::is_configured(&project, legacy::Suite::Fuzz));
    assert!(!legacy::is_configured(&project, legacy::Suite::Platform));
    assert!(!legacy::is_configured(&project, legacy::Suite::Loom));
    let disabled = legacy::LegacyProject {
        manifest: String::new(),
        files: Vec::new(),
        fuzz_manifest: Some("cargo-fuzz = false\ndebug = true\n".to_owned()),
    };
    assert!(!legacy::is_configured(&disabled, legacy::Suite::Fuzz));
}

#[test]
fn legacy_actions_pick_the_program() {
    let entry = legacy::PlanEntry {
        suite: legacy::Suite::Cross,
        command: vec!["cross".to_owned(), "test".to_owned()],
        status: legacy::PlanStatus::Ready,
    };
    assert_eq!(
        legacy::legacy_action(&entry),
        legacy::LegacyAction::Program { program: "cross".to_owned(), args: vec!["test".to_owned()] }
    );
    let entry = legacy::PlanEntry {
        suite: legacy::Suite::AddressSanitizer,
        command: vec!["test".to_owned()],
        status: legacy::PlanStatus::Ready,
    };
    assert_eq!(
        legacy::legacy_action(&entry),
        legacy::LegacyAction::Program {
            program: "cargo".to_owned(),
            args: vec!["+nightly".to_owned(), "test".to_owned()]
        }
    );
    let entry = legacy::PlanEntry {
        suite: legacy::Suite::Loom,
        command: vec!["test".to_owned()],
        status: legacy::PlanStatus::Skipped("x".to_owned()),
    };
    assert_eq!(legacy::legacy_action(&entry), legacy::LegacyAction::Skip);
    assert_eq!(entry.message(), "loom: skipped: x");
}
