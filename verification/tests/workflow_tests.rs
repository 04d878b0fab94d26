//! Whole-suite workflows, driven through the library's decisions in the
//! order the command-line tool takes them, with `cargo metadata` documents
//! and environment values written out by hand.

use qubit_infra_verify::fuzz::{fuzz_settings, fuzz_target_arguments, fuzz_targets, FuzzError};
use qubit_infra_verify::json::JsonValue;
use qubit_infra_verify::metadata::{miri_packages, workspace_arrays_of, workspace_document};
use qubit_infra_verify::nightly::toolchain;
use qubit_infra_verify::package::{dependency_paths, package_failure_message, package_run, package_summary};
use qubit_infra_verify::plan::plan_entry;
use qubit_infra_verify::readme::{
    declaration_error_text, declared_version_of, expected_version_text, group_text, readme_location,
    readme_outcome, readme_packages, ReadmePatterns, ReadmeReport,
};
use qubit_infra_verify::runner::{lock_current_message, lock_stale_message, suite_action, SuiteAction};
use qubit_infra_verify::sanitizer::{instrumented_flags, packages, sanitizer_arguments};
use qubit_infra_verify::{EnvValue, PlanStatus, Suite};

fn s(t: &str) -> JsonValue {
    JsonValue::Text(t.to_owned())
}

fn arr(items: Vec<JsonValue>) -> JsonValue {
    JsonValue::Array(items)
}

fn obj(members: Vec<(&str, JsonValue)>) -> JsonValue {
    JsonValue::Object(members.into_iter().map(|(k, v)| (k.to_owned(), v)).collect())
}

fn text(t: &str) -> EnvValue {
    EnvValue::Text(t.to_owned())
}

/// A workspace document: member ids, then the packages.
fn workspace(ids: &[&str], packages: Vec<JsonValue>) -> JsonValue {
    obj(vec![
        ("workspace_members", arr(ids.iter().map(|i| s(i)).collect())),
        ("packages", arr(packages)),
    ])
}

/// Plans and counts `cargo package` runs as the package suite does, with
/// `dirs` standing for the dependency paths that are directories.
fn package_suite(metadata: &JsonValue, dirs: &[&str]) -> (Vec<(String, Vec<String>)>, String) {
    let (members, all) = workspace_arrays_of(metadata).expect("arrays");
    let mut runs = Vec::new();
    for package in all {
        let present: Vec<String> =
            dependency_paths(package).into_iter().filter(|p| dirs.contains(&p.as_str())).collect();
        if let Some(run) = package_run(members, package, &present).expect("plan") {
            runs.push((run.name, run.args));
        }
    }
    let summary = package_summary(runs.len() as u64);
    (runs, summary)
}

#[test]
fn test_package_skips_workspace_without_publishable_members() {
    let metadata = workspace(
        &["private-fixture 1.2.3"],
        vec![obj(vec![
            ("id", s("private-fixture 1.2.3")),
            ("name", s("private-fixture")),
            ("publish", arr(vec![])),
            ("dependencies", arr(vec![])),
        ])],
    );
    let (runs, summary) = package_suite(&metadata, &[]);
    assert!(runs.is_empty());
    assert!(summary.contains("No publishable workspace packages"));
}

#[test]
fn test_package_builds_publishable_members_with_local_dependencies() {
    let metadata = workspace(
        &["app", "sibling", "private"],
        vec![
            obj(vec![
                ("id", s("sibling")),
                ("name", s("unpublished-local-fixture")),
                ("publish", arr(vec![])),
                ("dependencies", arr(vec![])),
            ]),
            obj(vec![
                ("id", s("private")),
                ("name", s("private-fixture")),
                ("publish", arr(vec![])),
                ("dependencies", arr(vec![])),
            ]),
            obj(vec![
                ("id", s("app")),
                ("name", s("app-fixture")),
                ("publish", JsonValue::Null),
                (
                    "dependencies",
                    arr(vec![obj(vec![("name", s("unpublished-local-fixture")), ("path", s("/w/sibling"))])]),
                ),
            ]),
        ],
    );
    let (runs, summary) = package_suite(&metadata, &["/w/sibling"]);
    assert_eq!(runs.len(), 1);
    assert_eq!(runs[0].0, "app-fixture");
    assert_eq!(
        runs[0].1,
        [
            "--config",
            "patch.crates-io.\"unpublished-local-fixture\".path=\"/w/sibling\"",
            "package",
            "--package",
            "app-fixture",
            "--allow-dirty"
        ]
    );
    assert_eq!(summary, "Cargo package verification passed for 1 workspace package(s).");
}

fn package(name: &str, version: &str, readme: Option<&str>) -> JsonValue {
    let mut members = vec![
        ("id", s(name)),
        ("name", s(name)),
        ("version", s(version)),
        ("manifest_path", s(&format!("/w/{name}/Cargo.toml"))),
    ];
    if let Some(readme) = readme {
        members.push(("readme", s(readme)));
    }
    obj(members)
}

/// Checks the given README files as the README suite does and returns its
/// outcome.
fn readme_suite(metadata: &JsonValue, files: &[(&str, &str)]) -> Result<String, String> {
    let packages = readme_packages(metadata).expect("packages");
    let patterns = ReadmePatterns::new().expect("patterns");
    let mut report = ReadmeReport { errors: Vec::new(), checked: 0 };
    for (display, content) in files {
        patterns.check_readme(display, content, &packages, &mut report).expect("check");
    }
    readme_outcome(&report, files.len())
}

#[test]
fn test_readme_checks_all_workspace_names_and_both_languages() {
    let metadata = workspace(&["demo"], vec![package("demo", "1.2.3", None)]);
    let english = ("README.md", "demo = \"1.2\" # correct\nother = \"9\"\n");
    let chinese = ("README.zh_CN.md", "demo = { version = \"1.1\", features = [] }\ndemo = { path = \".\" }\n");
    let error = readme_suite(&metadata, &[english, chinese]).unwrap_err();
    assert!(error.contains("README.zh_CN.md:1") && error.contains("README.zh_CN.md:2"), "{error}");
    let corrected = ("README.zh_CN.md", "demo = { version = \"1.2\" }\n");
    assert!(readme_suite(&metadata, &[english, corrected]).is_ok());
}

#[test]
fn test_readme_uses_inherited_versions_custom_paths_and_cross_member_snippets() {
    let metadata = workspace(
        &["first", "second"],
        vec![package("first", "1.2.3", Some("../GUIDE.md")), package("second", "2.4.9-beta.1", None)],
    );
    let first = package("first", "1.2.3", Some("../GUIDE.md"));
    assert_eq!(readme_location(&first).expect("location"), ("/w/first/Cargo.toml".to_owned(), "../GUIDE.md".to_owned()));
    let guide = ("GUIDE.md", "first = \"1.2\"\nsecond = { version = \"2.4\" } # inherited\n");
    assert!(readme_suite(&metadata, &[guide]).is_ok());
    for invalid in ["2.4.9", "^2.4", "2.3", "2.4.9-beta.1"] {
        let content = format!("second = \"{invalid}\"\n");
        let error = readme_suite(&metadata, &[("GUIDE.md", content.as_str())]).unwrap_err();
        assert!(error.contains("GUIDE.md:1: expected \"2.4\" for second"), "{error}");
    }
}

#[test]
fn test_readme_skips_absent_files_and_unrelated_declarations() {
    let metadata = workspace(&["demo"], vec![package("demo", "1.2.3", None)]);
    let absent = readme_suite(&metadata, &[]).expect("absent");
    assert!(absent.contains("No README files"));
    let unrelated = readme_suite(&metadata, &[("README.md", "demo-extra = \"9\"\n# demo = \"9\"\n")]).expect("unrelated");
    assert!(unrelated.contains("No README dependency declarations"));
}

#[test]
fn test_miri_and_sanitizer_select_configured_nightly() {
    for suite in [Suite::Miri, Suite::AddressSanitizer] {
        for selected in [None, Some("nightly-2026-06-05")] {
            let nightly = match selected {
                Some(t) => text(t),
                None => EnvValue::Unset,
            };
            let expected = format!("+{}", selected.unwrap_or("nightly"));
            let entry = plan_entry(suite, true, "/p", &nightly).expect("plan");
            let log = if suite == Suite::Miri {
                assert_eq!(suite_action(&entry), SuiteAction::Miri);
                entry.command.join(" ")
            } else {
                assert_eq!(suite_action(&entry), SuiteAction::AddressSanitizer);
                let toolchain = toolchain(&nightly).expect("toolchain");
                sanitizer_arguments(&toolchain, "x86_64-unknown-linux-gnu", "demo").join(" ")
            };
            let subcommand = if suite == Suite::Miri { "miri test" } else { "test" };
            assert!(log.contains(&format!("{expected} {subcommand}")), "{log}");
        }
    }
}

#[test]
fn test_fuzz_runs_every_target_with_limits_and_artifact_directories() {
    for custom in [false, true] {
        let settings = if custom {
            fuzz_settings(&text("smoke"), &text("nightly-2026-06-05"), &text("2"), &text("128"))
        } else {
            fuzz_settings(&EnvValue::Unset, &EnvValue::Unset, &EnvValue::Unset, &EnvValue::Unset)
        }
        .expect("settings");
        let nightly = if custom { "nightly-2026-06-05" } else { "nightly" };
        let targets = fuzz_targets("alpha\nbeta\n").expect("targets");
        assert_eq!(targets, ["alpha", "beta"]);
        for target in &targets {
            let artifacts = format!("/project/fuzz/artifacts/{target}");
            let run = fuzz_target_arguments(&settings, target, &artifacts).join(" ");
            assert!(run.starts_with(&format!("+{nightly} fuzz run {target} ")), "{run}");
            assert!(run.contains(if custom { "-max_total_time=2" } else { "-max_total_time=10" }));
            assert!(run.contains(if custom { "-max_len=128" } else { "-max_len=4096" }));
            assert!(run.contains(&format!("-artifact_prefix=/project/fuzz/artifacts/{target}/")));
        }
    }
}

#[test]
fn test_fuzz_failures_preserve_artifacts_and_propagate() {
    let error = FuzzError::SmokeFailed("alpha".to_owned(), "/project/fuzz/artifacts/alpha".to_owned());
    assert!(error.message().contains("alpha"));
    assert!(error.message().contains("artifacts retained in /project/fuzz/artifacts/alpha"));
}

#[test]
fn test_fuzz_rejects_empty_targets_and_invalid_limits() {
    assert_eq!(fuzz_targets(""), Err(FuzzError::NoTargets));
    for (seconds, max_len) in [(text("0"), EnvValue::Unset), (EnvValue::Unset, text("-1")), (EnvValue::Unset, text("abc"))] {
        assert!(fuzz_settings(&EnvValue::Unset, &EnvValue::Unset, &seconds, &max_len).is_err());
    }
    assert_eq!(FuzzError::ListFailed("list failed".to_owned()).message(), "cargo fuzz list failed: list failed");
}

#[test]
fn test_sanitizer_instruments_only_opted_in_workspace_packages() {
    let opted = |id: &str, table: &str, list: Vec<JsonValue>| {
        obj(vec![
            ("id", s(id)),
            ("name", s(id)),
            ("metadata", obj(vec![(table, obj(vec![("sanitizers", arr(list))]))])),
        ])
    };
    let metadata = workspace(
        &["demo", "enabled", "disabled"],
        vec![
            opted("demo", "rs-infra", vec![s("address")]),
            opted("enabled", "rs-ci", vec![s("address")]),
            opted("disabled", "rs-ci", vec![]),
        ],
    );
    let selected = packages(&metadata).expect("packages");
    let log: Vec<String> = selected
        .iter()
        .map(|name| sanitizer_arguments("+nightly", "x86_64-unknown-linux-gnu", name).join(" "))
        .collect();
    let log = log.join("\n");
    assert!(log.contains("--package demo") && log.contains("--package enabled"), "{log}");
    assert!(!log.contains("--package disabled") && !log.contains("--workspace"), "{log}");
    assert_eq!(instrumented_flags("--cfg existing"), "--cfg existing -Zsanitizer=address");
    assert_eq!(instrumented_flags("--cfg docs"), "--cfg docs -Zsanitizer=address");
}

#[test]
fn test_sanitizer_ignores_unrelated_manifest_text() {
    let metadata = workspace(
        &["demo"],
        vec![obj(vec![
            ("id", s("demo")),
            ("name", s("demo")),
            ("metadata", obj(vec![("rs-infra", obj(vec![("sanitizers", arr(vec![]))]))])),
        ])],
    );
    let configured = !packages(&metadata).expect("packages").is_empty();
    assert!(!configured);
    let entry = plan_entry(Suite::AddressSanitizer, configured, "/p", &EnvValue::Unset).expect("plan");
    assert!(matches!(entry.status, PlanStatus::Skipped(_)));
    assert_eq!(suite_action(&entry), SuiteAction::Skip);
    assert!(entry.message().contains("skipped"));
    assert!(!entry.command.join(" ").contains("+nightly test"));
}

#[test]
fn test_fuzz_build_only_builds_every_target_without_smoke_side_effects() {
    let settings = fuzz_settings(&text("build-only"), &EnvValue::Unset, &text("invalid"), &text("invalid")).expect("settings");
    let targets = fuzz_targets("alpha\nbeta\n").expect("targets");
    let log: Vec<String> = targets
        .iter()
        .map(|target| fuzz_target_arguments(&settings, target, "unused").join(" "))
        .collect();
    for target in ["alpha", "beta"] {
        assert!(log.contains(&format!("+nightly fuzz build {target}")), "{log:?}");
    }
    assert!(log.iter().all(|line| !line.contains("fuzz run") && !line.contains(" install ")));
}

#[test]
fn test_fuzz_build_only_propagates_build_failure() {
    assert!(FuzzError::BuildFailed("alpha".to_owned()).message().contains("alpha"));
}

#[test]
fn test_fuzz_invalid_mode_fails_before_cargo() {
    let error = fuzz_settings(&text("unknown"), &EnvValue::Unset, &EnvValue::Unset, &EnvValue::Unset).unwrap_err();
    assert!(error.message().contains("RS_INFRA_FUZZ_MODE"));
}

#[test]
fn test_package_rejects_source_that_only_listing_would_accept() {
    let metadata = workspace(
        &["broken-fixture"],
        vec![obj(vec![
            ("id", s("broken-fixture")),
            ("name", s("broken-fixture")),
            ("publish", JsonValue::Null),
            ("dependencies", arr(vec![])),
        ])],
    );
    let (runs, _) = package_suite(&metadata, &[]);
    assert_eq!(runs.len(), 1);
    let args = &runs[0].1;
    assert_eq!(args, &["package", "--package", "broken-fixture", "--allow-dirty"]);
    assert!(!args.iter().any(|a| a == "--list" || a == "-l" || a == "--no-verify"));
    assert_eq!(package_failure_message("broken-fixture"), "Cargo package verification failed for package broken-fixture");
}

#[test]
fn metadata_output_is_read_as_json() {
    let output = br#"{
        "workspace_members": ["demo 0.1.0"],
        "packages": [
            {"id": "demo 0.1.0", "name": "demo", "version": "0.1.0",
             "metadata": {"rs-infra": {"miri": true, "miri-test-args": ["--lib"]}}},
            {"id": "other", "name": "other", "metadata": null}
        ],
        "version": 1
    }"#;
    let document = workspace_document(output).expect("document");
    let found = miri_packages(&document).expect("miri");
    assert_eq!(found.len(), 1);
    assert_eq!(found[0].name, "demo");
    assert_eq!(found[0].test_args, ["--lib"]);
    assert_eq!(document.field("version").as_str(), None);
    assert!(matches!(document.field("version"), JsonValue::Number(n) if n == "1"));
    let error = workspace_document(b"not json").unwrap_err();
    assert_eq!(error.message(), "cargo metadata returned invalid JSON");
    assert!(workspace_document(b"{} {}").is_err());
}

#[test]
fn readme_versions_are_read_from_captures() {
    let groups = vec![Some("1.2.3".to_owned()), Some("1".to_owned()), Some("2".to_owned())];
    assert_eq!(expected_version_text(&groups), "1.2");
    assert_eq!(group_text(&groups, 5), "");
    let bare = Some(vec![Some("\"1.2\"".to_owned()), Some("1.2".to_owned())]);
    let inline = Some(vec![Some("version = \"1.1\"".to_owned()), Some("1.1".to_owned())]);
    assert_eq!(declared_version_of(&bare, &inline), Some("1.2".to_owned()));
    assert_eq!(declared_version_of(&None, &inline), Some("1.1".to_owned()));
    assert_eq!(declared_version_of(&None, &None), None);
    assert_eq!(declaration_error_text("R", 3, "demo", "1.2", &Some("1.2".to_owned())), None);
    assert_eq!(
        declaration_error_text("R", 3, "demo", "1.2", &Some("1.1".to_owned())),
        Some("R:3: expected \"1.2\" for demo, found \"1.1\"".to_owned())
    );
    assert_eq!(
        declaration_error_text("R", 4, "demo", "1.2", &None),
        Some("R:4: dependency declaration for demo must include version = \"1.2\"".to_owned())
    );
}

#[test]
fn lockfile_messages() {
    assert_eq!(lock_stale_message(), "Cargo.lock is missing or stale; run rs-infra-verify lock sync");
    assert_eq!(lock_current_message(), "Cargo.lock is current.");
}
