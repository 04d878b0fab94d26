use qubit_infra_verify::json::JsonValue;
use qubit_infra_verify::metadata::{miri_packages, MetadataErrorKind};
use qubit_infra_verify::sanitizer::{host_target, instrumented_flags, packages, sanitizer_arguments};
use qubit_infra_verify::{loom, package};

fn s(t: &str) -> JsonValue {
    JsonValue::Text(t.to_owned())
}

fn arr(items: Vec<JsonValue>) -> JsonValue {
    JsonValue::Array(items)
}

fn obj(members: Vec<(&str, JsonValue)>) -> JsonValue {
    JsonValue::Object(members.into_iter().map(|(k, v)| (k.to_owned(), v)).collect())
}

#[test]
fn test_host_target_matches_supported_legacy_platforms() {
    assert_eq!(host_target("linux", "x86_64"), Some("x86_64-unknown-linux-gnu"));
    assert_eq!(host_target("macos", "aarch64"), Some("aarch64-apple-darwin"));
    assert_eq!(host_target("macos", "x86_64"), Some("x86_64-apple-darwin"));
    assert_eq!(host_target("windows", "x86_64"), None);
    assert_eq!(host_target("linux", "aarch64"), None);
}

#[test]
fn test_miri_packages_preserve_each_package_test_arguments() {
    let metadata = obj(vec![
        ("workspace_members", arr(vec![s("demo 0.1.0 (path+file:///workspace/demo)")])),
        (
            "packages",
            arr(vec![
                obj(vec![
                    ("id", s("demo 0.1.0 (path+file:///workspace/demo)")),
                    ("name", s("demo")),
                    (
                        "metadata",
                        obj(vec![(
                            "rs-infra",
                            obj(vec![
                                ("miri", JsonValue::Bool(true)),
                                (
                                    "miri-test-args",
                                    arr(vec![s("--test"), s("tests"), s("module::critical_case")]),
                                ),
                            ]),
                        )]),
                    ),
                ]),
                obj(vec![
                    ("id", s("transitive 0.1.0 (path+file:///workspace/transitive)")),
                    ("name", s("transitive")),
                    ("metadata", obj(vec![("rs-infra", obj(vec![("miri", JsonValue::Bool(true))]))])),
                ]),
            ]),
        ),
    ]);

    let packages = miri_packages(&metadata).expect("configured workspace packages should parse");

    assert_eq!(packages.len(), 1);
    assert_eq!(packages[0].name, "demo");
    assert_eq!(packages[0].test_args, ["--test", "tests", "module::critical_case"]);
}

#[test]
fn test_miri_packages_reject_invalid_test_arguments() {
    let metadata = obj(vec![
        ("workspace_members", arr(vec![s("demo-id")])),
        (
            "packages",
            arr(vec![obj(vec![
                ("id", s("demo-id")),
                ("name", s("demo")),
                (
                    "metadata",
                    obj(vec![(
                        "rs-infra",
                        obj(vec![
                            ("miri", JsonValue::Bool(true)),
                            ("miri-test-args", arr(vec![s("--test"), JsonValue::Number("7".to_owned())])),
                        ]),
                    )]),
                ),
            ])]),
        ),
    ]);

    let error = miri_packages(&metadata).expect_err("non-string test arguments must be rejected");

    assert!(error.message().contains("miri-test-args entries must be strings"));
}

fn member(id: &str, extra: Vec<(&str, JsonValue)>) -> JsonValue {
    let mut members = vec![("id", s(id)), ("name", s(id))];
    members.extend(extra);
    obj(members)
}

fn workspace(ids: &[&str], packages: Vec<JsonValue>) -> JsonValue {
    obj(vec![
        ("workspace_members", arr(ids.iter().map(|i| s(i)).collect())),
        ("packages", arr(packages)),
    ])
}

fn sanitizers(table: &str, list: JsonValue) -> (&'static str, JsonValue) {
    let table = if table == "rs-infra" { "rs-infra" } else { "rs-ci" };
    ("metadata", obj(vec![(table, obj(vec![("sanitizers", list)]))]))
}

#[test]
fn miri_reports_each_metadata_error() {
    let none = obj(vec![]);
    assert_eq!(miri_packages(&none).unwrap_err().kind, MetadataErrorKind::NoWorkspaceMembersArray);
    let no_packages = obj(vec![("workspace_members", arr(vec![]))]);
    assert_eq!(miri_packages(&no_packages).unwrap_err().message(), "cargo metadata has no packages array");
    let bad_id = workspace(&["a"], vec![obj(vec![("id", JsonValue::Null)])]);
    assert_eq!(miri_packages(&bad_id).unwrap_err().kind, MetadataErrorKind::PackageWithoutStringId);
    let not_bool = workspace(
        &["a"],
        vec![member("a", vec![("metadata", obj(vec![("rs-ci", obj(vec![("miri", s("yes"))]))]))])],
    );
    assert_eq!(miri_packages(&not_bool).unwrap_err().message(), "package a: miri must be a boolean");
    let disabled = workspace(
        &["a"],
        vec![member("a", vec![("metadata", obj(vec![("rs-ci", obj(vec![("miri", JsonValue::Bool(false))]))]))])],
    );
    assert!(miri_packages(&disabled).unwrap().is_empty());
    let not_array = workspace(
        &["a"],
        vec![member(
            "a",
            vec![(
                "metadata",
                obj(vec![("rs-infra", obj(vec![("miri", JsonValue::Bool(true)), ("miri-test-args", s("x"))]))]),
            )],
        )],
    );
    assert_eq!(miri_packages(&not_array).unwrap_err().message(), "package a: miri-test-args must be an array");
    let nameless = workspace(
        &["a"],
        vec![obj(vec![
            ("id", s("a")),
            ("metadata", obj(vec![("rs-infra", obj(vec![("miri", JsonValue::Bool(true))]))])),
        ])],
    );
    assert_eq!(miri_packages(&nameless).unwrap_err().message(), "Miri-enabled Cargo package has no string name");
}

#[test]
fn sanitizer_selects_opted_in_members_only() {
    let metadata = workspace(
        &["demo", "enabled", "disabled"],
        vec![
            member("demo", vec![sanitizers("rs-infra", arr(vec![s("address")]))]),
            member("enabled", vec![sanitizers("rs-ci", arr(vec![s("address")]))]),
            member("disabled", vec![sanitizers("rs-ci", arr(vec![]))]),
            member("outside", vec![sanitizers("rs-ci", arr(vec![s("address")]))]),
        ],
    );
    assert_eq!(packages(&metadata).expect("packages"), ["demo", "enabled"]);
}

#[test]
fn sanitizer_prefers_the_modern_table() {
    let metadata = workspace(
        &["a"],
        vec![member(
            "a",
            vec![(
                "metadata",
                obj(vec![
                    ("rs-ci", obj(vec![("sanitizers", arr(vec![s("thread")]))])),
                    ("rs-infra", obj(vec![("sanitizers", arr(vec![]))])),
                ]),
            )],
        )],
    );
    assert!(packages(&metadata).expect("packages").is_empty());
}

#[test]
fn test_sanitizer_rejects_malformed_package_configuration() {
    for (list, message) in [
        (s("address"), "package a: sanitizers must be an array"),
        (arr(vec![JsonValue::Number("42".to_owned())]), "package a: sanitizers entries must be strings"),
        (arr(vec![s("address"), s("address")]), "package a: sanitizers contains a duplicate entry"),
        (arr(vec![s("thread")]), "package a: sanitizers contains unsupported sanitizer thread"),
    ] {
        let metadata = workspace(&["a"], vec![member("a", vec![sanitizers("rs-infra", list)])]);
        let error = packages(&metadata).expect_err("malformed");
        assert_eq!(error.message(), message);
        assert!(error.message().contains("sanitizers"));
    }
    let not_object = workspace(&["a"], vec![member("a", vec![("metadata", obj(vec![("rs-ci", s("x"))]))])]);
    assert_eq!(packages(&not_object).unwrap_err().message(), "package a: sanitizer metadata must be an object");
    assert_eq!(packages(&obj(vec![])).unwrap_err().message(), "missing workspace members");
}

#[test]
fn sanitizer_flags_and_arguments() {
    assert_eq!(instrumented_flags(""), "-Zsanitizer=address");
    assert_eq!(instrumented_flags("--cfg existing"), "--cfg existing -Zsanitizer=address");
    assert_eq!(
        sanitizer_arguments("+nightly", "x86_64-unknown-linux-gnu", "demo"),
        [
            "+nightly", "test", "--locked", "-Zbuild-std", "--target", "x86_64-unknown-linux-gnu",
            "--all-features", "--package", "demo"
        ]
    );
}

#[test]
fn loom_selects_members_with_a_direct_loom_dependency() {
    let deps = |names: &[&str]| ("dependencies", arr(names.iter().map(|n| obj(vec![("name", s(n))])).collect()));
    let metadata = workspace(
        &["a", "b"],
        vec![member("a", vec![deps(&["serde", "loom"])]), member("b", vec![deps(&["serde"])]), member("c", vec![deps(&["loom"])])],
    );
    assert_eq!(loom::packages(&metadata).expect("loom"), ["a"]);
    let missing = workspace(&["a"], vec![member("a", vec![])]);
    assert_eq!(loom::packages(&missing).unwrap_err().message(), "missing dependencies");
    assert_eq!(loom::loom_test_arguments("a"), ["test", "--locked", "--package", "a", "--release", "--all-features"]);
}

#[test]
fn loom_counts_listed_models() {
    assert_eq!(loom::count_models("a::loom_one: test\nb::loom_two: test  \nx: benchmark\n"), 2);
    assert_eq!(loom::count_models(""), 0);
    assert_eq!(loom::discovery_outcome("a", true, "m: test\n", ""), Ok(1));
    assert_eq!(
        loom::discovery_outcome("a", true, "nothing", "").unwrap_err().message(),
        "no Loom model tests were discovered for a; model test names must contain 'loom'"
    );
    assert_eq!(
        loom::discovery_outcome("a", false, "", "boom").unwrap_err().message(),
        "Loom model discovery failed for a: boom"
    );
    assert_eq!(loom::LoomError::ChecksFailed("a".to_owned()).message(), "Loom model checks failed for package a");
}

#[test]
fn package_plans_publishable_members_with_sorted_patches() {
    let dep = |name: &str, path: &str| obj(vec![("name", s(name)), ("path", s(path))]);
    let app = member(
        "app",
        vec![(
            "dependencies",
            arr(vec![
                dep("zeta", "/w/zeta"),
                dep("alpha", "/w/alpha"),
                dep("zeta", "/w/other"),
                dep("gone", "/w/gone"),
                obj(vec![("name", s("serde"))]),
            ]),
        )],
    );
    let private = member("private", vec![("publish", arr(vec![])), ("dependencies", arr(vec![]))]);
    let members = vec![s("app"), s("private")];
    let dirs = vec!["/w/zeta".to_owned(), "/w/alpha".to_owned(), "/w/other".to_owned()];
    let run = package::package_run(&members, &app, &dirs).expect("plan").expect("publishable");
    assert_eq!(run.name, "app");
    assert_eq!(
        run.patches,
        [("alpha".to_owned(), "/w/alpha".to_owned()), ("zeta".to_owned(), "/w/zeta".to_owned())]
    );
    assert_eq!(
        run.args,
        [
            "--config",
            "patch.crates-io.\"alpha\".path=\"/w/alpha\"",
            "--config",
            "patch.crates-io.\"zeta\".path=\"/w/zeta\"",
            "package",
            "--package",
            "app",
            "--allow-dirty"
        ]
    );
    assert!(package::package_run(&members, &private, &dirs).expect("plan").is_none());
    assert!(package::package_run(&vec![], &app, &dirs).expect("plan").is_none());
    assert_eq!(package::dependency_paths(&app), ["/w/zeta", "/w/alpha", "/w/other", "/w/gone"]);
}

#[test]
fn package_quotes_names_as_json() {
    let app = member("app", vec![("dependencies", arr(vec![obj(vec![("name", s("a\"b\\c\n\u{1}")), ("path", s("/p"))])]))]);
    let run = package::package_run(&vec![s("app")], &app, &vec!["/p".to_owned()]).expect("plan").expect("run");
    assert_eq!(run.args[1], "patch.crates-io.\"a\\\"b\\\\c\\n\\u0001\".path=\"/p\"");
    let nameless = member("app", vec![("dependencies", arr(vec![obj(vec![("path", s("/p"))])]))]);
    assert_eq!(
        package::package_run(&vec![s("app")], &nameless, &vec!["/p".to_owned()]).unwrap_err().message(),
        "missing dependency name"
    );
    assert!(package::package_run(&vec![s("app")], &nameless, &vec![]).is_ok());
}

#[test]
fn package_messages() {
    assert_eq!(package::package_summary(0), "No publishable workspace packages found; skipping Cargo package verification.");
    assert_eq!(package::package_summary(3), "Cargo package verification passed for 3 workspace package(s).");
    assert_eq!(package::package_failure_message("app"), "Cargo package verification failed for package app");
}
