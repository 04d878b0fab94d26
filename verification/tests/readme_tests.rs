use qubit_infra_verify::json::JsonValue;
use qubit_infra_verify::readme::{
    join_lines, readme_location, readme_outcome, readme_packages, ReadmeError, ReadmePatterns,
    ReadmeReport,
};

fn s(t: &str) -> JsonValue {
    JsonValue::Text(t.to_owned())
}

fn package(name: &str, version: &str) -> JsonValue {
    JsonValue::Object(vec![
        ("id".to_owned(), s(name)),
        ("name".to_owned(), s(name)),
        ("version".to_owned(), s(version)),
        ("manifest_path".to_owned(), s("/w/Cargo.toml")),
    ])
}

fn check(content: &str, packages: &[&JsonValue]) -> ReadmeReport {
    let patterns = ReadmePatterns::new().expect("patterns");
    let mut report = ReadmeReport { errors: Vec::new(), checked: 0 };
    patterns
        .check_readme("README.md", content, &packages.to_vec(), &mut report)
        .expect("check");
    report
}

#[test]
fn readme_accepts_exact_major_minor_and_ignores_other_crates() {
    let demo = package("demo", "1.2.3");
    let report = check("demo = \"1.2\" # correct\nother = \"9\"\n", &[&demo]);
    assert!(report.errors.is_empty());
    assert_eq!(report.checked, 1);
    assert_eq!(
        readme_outcome(&report, 1),
        Ok("README dependency versions match workspace package versions (1 declarations).".to_owned())
    );
}

#[test]
fn readme_reports_wrong_and_missing_versions_by_line() {
    let demo = package("demo", "1.2.3");
    let report = check("demo = { version = \"1.1\", features = [] }\ndemo = { path = \".\" }\n", &[&demo]);
    assert_eq!(report.checked, 2);
    assert_eq!(
        report.errors,
        [
            "README.md:1: expected \"1.2\" for demo, found \"1.1\"",
            "README.md:2: dependency declaration for demo must include version = \"1.2\"",
        ]
    );
    let outcome = readme_outcome(&report, 1).unwrap_err();
    assert!(outcome.contains("README.md:1") && outcome.contains("README.md:2"));
}

#[test]
fn readme_compares_against_prerelease_major_minor() {
    let second = package("second", "2.4.9-beta.1");
    let first = package("first", "1.2.3");
    let report = check("first = \"1.2\"\nsecond = { version = \"2.4\" } # inherited\n", &[&first, &second]);
    assert!(report.errors.is_empty());
    assert_eq!(report.checked, 2);
    for invalid in ["2.4.9", "^2.4", "2.3", "2.4.9-beta.1"] {
        let report = check(&format!("second = \"{invalid}\"\n"), &[&second]);
        assert_eq!(report.errors.len(), 1);
        assert!(report.errors[0].starts_with("README.md:1: expected \"2.4\" for second"));
    }
}

#[test]
fn readme_skips_unrelated_declarations_and_absent_files() {
    let demo = package("demo", "1.2.3");
    let report = check("demo-extra = \"9\"\n# demo = \"9\"\n", &[&demo]);
    assert!(report.errors.is_empty());
    assert_eq!(report.checked, 0);
    assert_eq!(
        readme_outcome(&report, 1),
        Ok("No README dependency declarations found for workspace packages; skipping README dependency version check.".to_owned())
    );
    assert_eq!(
        readme_outcome(&report, 0),
        Ok("No README files found; skipping README dependency version check.".to_owned())
    );
}

#[test]
fn readme_escapes_package_names() {
    let dotted = package("a.b", "0.3.0");
    let report = check("axb = \"1.0\"\na.b = \"0.3\"\n", &[&dotted]);
    assert!(report.errors.is_empty());
    assert_eq!(report.checked, 1);
}

#[test]
fn readme_rejects_versions_without_major_minor() {
    let bad = package("demo", "1");
    let patterns = ReadmePatterns::new().expect("patterns");
    let mut report = ReadmeReport { errors: Vec::new(), checked: 0 };
    let error = patterns.check_readme("R", "demo = \"1\"", &vec![&bad], &mut report).unwrap_err();
    assert_eq!(error, ReadmeError::VersionNotMajorMinor);
    assert_eq!(error.message(), "package version does not start with major.minor");
    let nameless = JsonValue::Object(vec![("version".to_owned(), s("1.0.0"))]);
    let error = patterns.check_readme("R", "", &vec![&nameless], &mut report).unwrap_err();
    assert_eq!(error.message(), "missing package name");
}

#[test]
fn readme_packages_and_locations() {
    let a = package("a", "1.0.0");
    let metadata = JsonValue::Object(vec![
        ("workspace_members".to_owned(), JsonValue::Array(vec![s("a")])),
        ("packages".to_owned(), JsonValue::Array(vec![a, package("b", "1.0.0")])),
    ]);
    let found = readme_packages(&metadata).expect("packages");
    assert_eq!(found.len(), 1);
    assert_eq!(readme_location(found[0]).expect("location"), ("/w/Cargo.toml".to_owned(), "README.md".to_owned()));
    let none = JsonValue::Object(vec![
        ("workspace_members".to_owned(), JsonValue::Array(vec![])),
        ("packages".to_owned(), JsonValue::Array(vec![package("b", "1.0.0")])),
    ]);
    assert_eq!(
        readme_packages(&none).unwrap_err().message(),
        "Cargo metadata did not report any workspace packages"
    );
    let custom = JsonValue::Object(vec![
        ("manifest_path".to_owned(), s("/w/first/Cargo.toml")),
        ("readme".to_owned(), s("../GUIDE.md")),
    ]);
    assert_eq!(readme_location(&custom).expect("location").1, "../GUIDE.md");
    assert_eq!(join_lines(&vec!["a".to_owned(), "b".to_owned()]), "a\nb");
    assert_eq!(join_lines(&vec![]), "");
}
