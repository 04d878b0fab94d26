use qubit_infra_verify::fuzz::{fuzz_settings, fuzz_target_arguments, fuzz_targets, positive_setting, FuzzError};
use qubit_infra_verify::fuzz_mode::{FuzzMode, FuzzModeError};
use qubit_infra_verify::nightly::{toolchain, ToolchainError};
use qubit_infra_verify::EnvValue;

fn text(t: &str) -> EnvValue {
    EnvValue::Text(t.to_owned())
}

#[test]
fn fuzz_modes_follow_the_legacy_defaults() {
    assert_eq!(FuzzMode::from_value(&EnvValue::Unset), Ok(FuzzMode::Smoke));
    assert_eq!(FuzzMode::from_value(&text("")), Ok(FuzzMode::Smoke));
    assert_eq!(FuzzMode::from_value(&text("smoke")), Ok(FuzzMode::Smoke));
    assert_eq!(FuzzMode::from_value(&text("build-only")), Ok(FuzzMode::BuildOnly));
    assert_eq!(FuzzMode::from_value(&text("disabled")), Ok(FuzzMode::Disabled));
    let error = FuzzMode::from_value(&text("unknown")).unwrap_err();
    assert_eq!(error, FuzzModeError::Unsupported("unknown".to_owned()));
    assert_eq!(
        error.message(),
        "RS_INFRA_FUZZ_MODE must be smoke, build-only, or disabled; got \"unknown\""
    );
    assert_eq!(FuzzModeError::NotUnicode.message(), "invalid RS_INFRA_FUZZ_MODE");
}

#[test]
fn toolchain_defaults_to_nightly_and_rejects_bad_names() {
    assert_eq!(toolchain(&EnvValue::Unset), Ok("+nightly".to_owned()));
    assert_eq!(toolchain(&text("nightly-2026-06-05")), Ok("+nightly-2026-06-05".to_owned()));
    for bad in ["", "+nightly", "-x", "night ly", "a\u{a0}b"] {
        assert_eq!(toolchain(&text(bad)), Err(ToolchainError::Invalid));
    }
    assert_eq!(toolchain(&EnvValue::NotUnicode), Err(ToolchainError::NotUnicode));
    assert_eq!(
        ToolchainError::Invalid.message(),
        "RS_INFRA_NIGHTLY_TOOLCHAIN must be a nonempty toolchain name without a leading '+' or '-'"
    );
}

#[test]
fn limits_must_be_positive_and_fit_libfuzzer() {
    assert_eq!(positive_setting("N", &EnvValue::Unset, 10), Ok(10));
    assert_eq!(positive_setting("N", &text("2"), 10), Ok(2));
    assert_eq!(positive_setting("N", &text("+7"), 10), Ok(7));
    assert_eq!(positive_setting("N", &text("2147483647"), 10), Ok(2147483647));
    for bad in ["0", "-1", "abc", "2147483648", "4294967296", ""] {
        let error = positive_setting("N", &text(bad), 10).unwrap_err();
        assert_eq!(error.message(), "N must be a positive integer no greater than 2147483647");
    }
    assert_eq!(positive_setting("N", &EnvValue::NotUnicode, 10).unwrap_err().message(), "invalid N");
}

#[test]
fn test_fuzz_disabled_requires_no_cargo_or_nightly() {
    let settings = fuzz_settings(&text("disabled"), &text(""), &text("invalid"), &EnvValue::Unset).expect("disabled");
    assert_eq!(settings.mode, FuzzMode::Disabled);
    assert_eq!(settings.limits, None);
}

#[test]
fn build_only_ignores_limits_and_smoke_reads_them() {
    let build = fuzz_settings(&text("build-only"), &EnvValue::Unset, &text("invalid"), &text("invalid")).expect("build");
    assert_eq!(build.nightly, "+nightly");
    assert_eq!(build.limits, None);
    let smoke = fuzz_settings(&EnvValue::Unset, &text("nightly-x"), &EnvValue::Unset, &EnvValue::Unset).expect("smoke");
    assert_eq!(smoke.limits, Some((10, 4096)));
    let custom = fuzz_settings(&text("smoke"), &EnvValue::Unset, &text("2"), &text("128")).expect("custom");
    assert_eq!(custom.limits, Some((2, 128)));
    assert!(matches!(fuzz_settings(&text("smoke"), &EnvValue::Unset, &text("0"), &EnvValue::Unset), Err(FuzzError::SettingNotPositive(n)) if n == "RS_INFRA_FUZZ_SECONDS_PER_TARGET"));
    assert!(matches!(fuzz_settings(&text("smoke"), &EnvValue::Unset, &EnvValue::Unset, &text("-1")), Err(FuzzError::SettingNotPositive(n)) if n == "RS_INFRA_FUZZ_MAX_LEN"));
    assert!(matches!(fuzz_settings(&text("bogus"), &EnvValue::Unset, &EnvValue::Unset, &EnvValue::Unset), Err(FuzzError::Mode(_))));
    assert!(matches!(fuzz_settings(&text("smoke"), &text(""), &EnvValue::Unset, &EnvValue::Unset), Err(FuzzError::Toolchain(ToolchainError::Invalid))));
}

#[test]
fn targets_are_trimmed_nonempty_valid_lines() {
    assert_eq!(fuzz_targets("alpha\nbeta\n"), Ok(vec!["alpha".to_owned(), "beta".to_owned()]));
    assert_eq!(fuzz_targets("  alpha \n\n\tb-2.x_y\r\n"), Ok(vec!["alpha".to_owned(), "b-2.x_y".to_owned()]));
    assert_eq!(fuzz_targets(""), Err(FuzzError::NoTargets));
    assert_eq!(fuzz_targets(" \n \n"), Err(FuzzError::NoTargets));
    assert_eq!(fuzz_targets("ok\n_bad\n"), Err(FuzzError::InvalidTarget("_bad".to_owned())));
    assert_eq!(fuzz_targets("a/b"), Err(FuzzError::InvalidTarget("a/b".to_owned())));
    assert_eq!(FuzzError::NoTargets.message(), "cargo-fuzz is configured but reported no fuzz targets");
    assert_eq!(
        FuzzError::InvalidTarget("a/b".to_owned()).message(),
        "cargo fuzz list returned invalid target name: a/b"
    );
}

#[test]
fn target_commands_follow_the_mode() {
    let smoke = fuzz_settings(&EnvValue::Unset, &EnvValue::Unset, &text("2"), &text("128")).expect("smoke");
    assert_eq!(
        fuzz_target_arguments(&smoke, "alpha", "/p/fuzz/artifacts/alpha"),
        ["+nightly", "fuzz", "run", "alpha", "--", "-max_total_time=2", "-max_len=128", "-artifact_prefix=/p/fuzz/artifacts/alpha/"]
    );
    let build = fuzz_settings(&text("build-only"), &EnvValue::Unset, &EnvValue::Unset, &EnvValue::Unset).expect("build");
    assert_eq!(fuzz_target_arguments(&build, "beta", "unused"), ["+nightly", "fuzz", "build", "beta"]);
    assert_eq!(FuzzError::BuildFailed("alpha".to_owned()).message(), "fuzz build failed for target alpha");
    assert_eq!(
        FuzzError::SmokeFailed("alpha".to_owned(), "/d".to_owned()).message(),
        "fuzz smoke failed for target alpha; artifacts retained in /d"
    );
    assert_eq!(FuzzError::ListFailed("x".to_owned()).message(), "cargo fuzz list failed: x");
}
