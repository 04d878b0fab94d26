//! Decisions behind cargo-fuzz build and smoke checks: settings, target
//! discovery, and the command each target runs.

use vstd::prelude::*;

use crate::env_value::EnvValue;
use crate::fuzz_mode::{fuzz_mode_of, FuzzMode, FuzzModeError};
use crate::nightly::{toolchain, toolchain_result, ToolchainError};
use crate::plan::strings;
use crate::text::{chars_of, decimal, decimal_text, lines, lines_of, parse_u32, parse_u32_chars, string_of, trim, trim_chars};

verus! {

/// The largest value a libFuzzer integer flag accepts (`i32::MAX`).
pub open spec fn flag_limit() -> int {
    0x7fff_ffff
}

/// What a limit setting gives: its default when unset, the parsed value when
/// it is a positive integer no greater than `i32::MAX`, nothing otherwise.
pub open spec fn positive_setting_of(value: EnvValue, default: u32) -> Option<u32> {
    match value {
        EnvValue::Unset => Some(default),
        EnvValue::NotUnicode => None,
        EnvValue::Text(t) => match parse_u32(t@) {
            Some(n) => if 0 < n <= flag_limit() {
                Some(n)
            } else {
                None
            },
            None => None,
        },
    }
}

/// Why a fuzz check could not run or failed.
#[derive(Debug, Clone, PartialEq, Eq)]
pub enum FuzzError {
    /// `RS_INFRA_FUZZ_MODE` could not be used.
    Mode(FuzzModeError),
    /// `RS_INFRA_NIGHTLY_TOOLCHAIN` could not be used.
    Toolchain(ToolchainError),
    /// The named limit setting is not valid Unicode.
    SettingNotUnicode(String),
    /// The named limit setting is not a positive integer no greater than
    /// `i32::MAX`.
    SettingNotPositive(String),
    /// `cargo fuzz list` failed; holds what it wrote to standard error.
    ListFailed(String),
    /// `cargo fuzz list` reported no target.
    NoTargets,
    /// `cargo fuzz list` reported a target with an invalid name.
    InvalidTarget(String),
    /// Building the named target failed.
    BuildFailed(String),
    /// Smoke-testing the named target failed; holds the target and its
    /// artifact directory.
    SmokeFailed(String, String),
}

/// The message of a fuzz error.
pub open spec fn fuzz_error_message(e: FuzzError) -> Seq<char> {
    match e {
        FuzzError::Mode(m) => crate::fuzz_mode::fuzz_mode_error_message(m),
        FuzzError::Toolchain(t) => crate::nightly::toolchain_error_message(t),
        FuzzError::SettingNotUnicode(name) => "invalid "@ + name@,
        FuzzError::SettingNotPositive(name) => name@
            + " must be a positive integer no greater than 2147483647"@,
        FuzzError::ListFailed(stderr) => "cargo fuzz list failed: "@ + stderr@,
        FuzzError::NoTargets => "cargo-fuzz is configured but reported no fuzz targets"@,
        FuzzError::InvalidTarget(t) => "cargo fuzz list returned invalid target name: "@ + t@,
        FuzzError::BuildFailed(t) => "fuzz build failed for target "@ + t@,
        FuzzError::SmokeFailed(t, dir) => "fuzz smoke failed for target "@ + t@
            + "; artifacts retained in "@ + dir@,
    }
}

impl FuzzError {
    /// The error's message.
    pub fn message(&self) -> (r: String)
        ensures
            r@ == fuzz_error_message(*self),
    {
        match self {
            FuzzError::Mode(m) => m.message(),
            FuzzError::Toolchain(t) => t.message(),
            FuzzError::SettingNotUnicode(name) => {
                let mut r = "invalid ".to_owned();
                r.append(name.as_str());
                r
            },
            FuzzError::SettingNotPositive(name) => {
                let mut r = name.clone();
                r.append(" must be a positive integer no greater than 2147483647");
                r
            },
            FuzzError::ListFailed(stderr) => {
                let mut r = "cargo fuzz list failed: ".to_owned();
                r.append(stderr.as_str());
                r
            },
            FuzzError::NoTargets => "cargo-fuzz is configured but reported no fuzz targets".to_owned(),
            FuzzError::InvalidTarget(t) => {
                let mut r = "cargo fuzz list returned invalid target name: ".to_owned();
                r.append(t.as_str());
                r
            },
            FuzzError::BuildFailed(t) => {
                let mut r = "fuzz build failed for target ".to_owned();
                r.append(t.as_str());
                r
            },
            FuzzError::SmokeFailed(t, dir) => {
                let mut r = "fuzz smoke failed for target ".to_owned();
                r.append(t.as_str());
                r.append("; artifacts retained in ");
                r.append(dir.as_str());
                r
            },
        }
    }
}

/// Whether `e` is the error for an unusable limit setting named `name`
/// with the value `value`.
pub open spec fn is_setting_error(value: EnvValue, name: Seq<char>, e: FuzzError) -> bool {
    match value {
        EnvValue::NotUnicode => e matches FuzzError::SettingNotUnicode(n) && n@ == name,
        _ => e matches FuzzError::SettingNotPositive(n) && n@ == name,
    }
}

/// Reads a positive integer limit setting named `name`, using `default`
/// when it is unset.
pub fn positive_setting(name: &str, value: &EnvValue, default: u32) -> (r: Result<u32, FuzzError>)
    ensures
        match positive_setting_of(*value, default) {
            Some(n) => r == Ok::<u32, FuzzError>(n),
            None => r matches Err(e) && is_setting_error(*value, name@, e),
        },
{
    match value {
        EnvValue::Unset => Ok(default),
        EnvValue::NotUnicode => Err(FuzzError::SettingNotUnicode(name.to_owned())),
        EnvValue::Text(t) => match parse_u32_chars(&chars_of(t.as_str())) {
            Some(n) => {
                if 0 < n && n <= 0x7fff_ffff {
                    Ok(n)
                } else {
                    Err(FuzzError::SettingNotPositive(name.to_owned()))
                }
            },
            None => Err(FuzzError::SettingNotPositive(name.to_owned())),
        },
    }
}

/// The settings of a fuzz check.
#[derive(Debug, Clone, PartialEq, Eq)]
pub struct FuzzSettings {
    /// The selected mode.
    pub mode: FuzzMode,
    /// The toolchain argument; empty when the check is disabled.
    pub nightly: String,
    /// Seconds per target and maximum input length, in smoke mode.
    pub limits: Option<(u32, u32)>,
}

/// Reads the settings of a fuzz check, in the order the check needs them:
/// the mode; then, unless disabled, the toolchain; then, in smoke mode, the
/// seconds per target (default 10) and the maximum input length (default
/// 4096). The first setting that cannot be used is the error.
pub fn fuzz_settings(
    mode: &EnvValue,
    nightly: &EnvValue,
    seconds: &EnvValue,
    max_len: &EnvValue,
) -> (r: Result<FuzzSettings, FuzzError>)
    ensures
        match fuzz_mode_of(*mode) {
            None => match *mode {
                EnvValue::NotUnicode => r matches Err(FuzzError::Mode(FuzzModeError::NotUnicode)),
                EnvValue::Text(t) => r matches Err(FuzzError::Mode(FuzzModeError::Unsupported(v)))
                    && v@ == t@,
                EnvValue::Unset => false,
            },
            Some(FuzzMode::Disabled) => (r matches Ok(s) && s.mode == FuzzMode::Disabled
                && s.nightly@ == Seq::<char>::empty() && s.limits is None),
            Some(m) => match toolchain_result(*nightly) {
                Err(e) => r == Err::<FuzzSettings, FuzzError>(FuzzError::Toolchain(e)),
                Ok(t) => if m == FuzzMode::BuildOnly {
                    r matches Ok(s) && s.mode == m && s.nightly@ == t && s.limits is None
                } else {
                    match (positive_setting_of(*seconds, 10), positive_setting_of(*max_len, 4096)) {
                        (Some(a), Some(b)) => r matches Ok(s) && s.mode == m && s.nightly@ == t
                            && s.limits == Some((a, b)),
                        (None, _) => r matches Err(e) && is_setting_error(
                            *seconds,
                            "RS_INFRA_FUZZ_SECONDS_PER_TARGET"@,
                            e,
                        ),
                        (Some(_), None) => r matches Err(e) && is_setting_error(
                            *max_len,
                            "RS_INFRA_FUZZ_MAX_LEN"@,
                            e,
                        ),
                    }
                },
            },
        },
{
    let m = match FuzzMode::from_value(mode) {
        Ok(m) => m,
        Err(e) => return Err(FuzzError::Mode(e)),
    };
    if m == FuzzMode::Disabled {
        return Ok(FuzzSettings { mode: m, nightly: String::new(), limits: None });
    }
    let t = match toolchain(nightly) {
        Ok(t) => t,
        Err(e) => return Err(FuzzError::Toolchain(e)),
    };
    if m == FuzzMode::BuildOnly {
        return Ok(FuzzSettings { mode: m, nightly: t, limits: None });
    }
    let a = match positive_setting("RS_INFRA_FUZZ_SECONDS_PER_TARGET", seconds, 10) {
        Ok(a) => a,
        Err(e) => return Err(e),
    };
    let b = match positive_setting("RS_INFRA_FUZZ_MAX_LEN", max_len, 4096) {
        Ok(b) => b,
        Err(e) => return Err(e),
    };
    Ok(FuzzSettings { mode: m, nightly: t, limits: Some((a, b)) })
}

/// Whether `c` is an ASCII letter or digit.
pub open spec fn is_ascii_alnum(c: char) -> bool {
    ('0' <= c <= '9') || ('a' <= c <= 'z') || ('A' <= c <= 'Z')
}

/// Whether `t` is a valid target name: it starts with an ASCII letter or
/// digit, and holds only those, `_`, `-` and `.`.
pub open spec fn valid_target(t: Seq<char>) -> bool {
    &&& t.len() > 0
    &&& is_ascii_alnum(t[0])
    &&& forall|i: int|
        0 <= i < t.len() ==> is_ascii_alnum(#[trigger] t[i]) || t[i] == '_' || t[i] == '-' || t[i]
            == '.'
}

/// The trimmed nonempty lines of the first `n` lines, in order.
pub open spec fn listed_upto(ls: Seq<Seq<char>>, n: int) -> Seq<Seq<char>>
    decreases n,
{
    if n <= 0 {
        Seq::empty()
    } else if trim(ls[n - 1]).len() == 0 {
        listed_upto(ls, n - 1)
    } else {
        listed_upto(ls, n - 1).push(trim(ls[n - 1]))
    }
}

/// The targets that a `cargo fuzz list` output names: its trimmed nonempty
/// lines.
pub open spec fn listed_targets(listed: Seq<char>) -> Seq<Seq<char>> {
    listed_upto(lines(listed), lines(listed).len() as int)
}

/// Whether a character is allowed in a target name.
fn target_char(c: char) -> (r: bool)
    ensures
        r == (is_ascii_alnum(c) || c == '_' || c == '-' || c == '.'),
{
    ('0' <= c && c <= '9') || ('a' <= c && c <= 'z') || ('A' <= c && c <= 'Z') || c == '_' || c
        == '-' || c == '.'
}

/// Returns whether `t` is a valid target name.
fn valid_target_exec(t: &Vec<char>) -> (r: bool)
    ensures
        r == valid_target(t@),
{
    if t.len() == 0 {
        return false;
    }
    let c0 = t[0];
    if !(('0' <= c0 && c0 <= '9') || ('a' <= c0 && c0 <= 'z') || ('A' <= c0 && c0 <= 'Z')) {
        return false;
    }
    let mut i: usize = 0;
    while i < t.len()
        invariant
            i <= t@.len(),
            forall|k: int|
                0 <= k < i ==> is_ascii_alnum(#[trigger] t@[k]) || t@[k] == '_' || t@[k] == '-'
                    || t@[k] == '.',
        decreases t.len() - i,
    {
        if !target_char(t[i]) {
            return false;
        }
        i += 1;
    }
    true
}

/// Reads the targets of a `cargo fuzz list` output: its trimmed nonempty
/// lines. None at all, or one with an invalid name, is an error.
pub fn fuzz_targets(listed: &str) -> (r: Result<Vec<String>, FuzzError>)
    ensures
        listed_targets(listed@).len() == 0 ==> r matches Err(FuzzError::NoTargets),
        listed_targets(listed@).len() > 0 && (forall|i: int|
            0 <= i < listed_targets(listed@).len() ==> valid_target(
                #[trigger] listed_targets(listed@)[i],
            )) ==> (r matches Ok(v) && strings(v@) == listed_targets(listed@)),
        listed_targets(listed@).len() > 0 && (exists|i: int|
            0 <= i < listed_targets(listed@).len() && !valid_target(
                #[trigger] listed_targets(listed@)[i],
            )) ==> (r matches Err(FuzzError::InvalidTarget(t)) && exists|i: int|
            0 <= i < listed_targets(listed@).len() && #[trigger] listed_targets(listed@)[i] == t@
                && !valid_target(t@) && forall|k: int|
                0 <= k < i ==> valid_target(#[trigger] listed_targets(listed@)[k])),
{
    let ls = lines_of(&chars_of(listed));
    let mut targets: Vec<Vec<char>> = Vec::new();
    let mut i: usize = 0;
    while i < ls.len()
        invariant
            i <= ls@.len(),
            ls@.len() == lines(listed@).len(),
            forall|j: int| 0 <= j < ls@.len() ==> #[trigger] ls@[j]@ == lines(listed@)[j],
            targets@.len() == listed_upto(lines(listed@), i as int).len(),
            forall|j: int|
                0 <= j < targets@.len() ==> #[trigger] targets@[j]@ == listed_upto(
                    lines(listed@),
                    i as int,
                )[j],
        decreases ls.len() - i,
    {
        let t = trim_chars(&ls[i]);
        if t.len() > 0 {
            targets.push(t);
        }
        i += 1;
    }
    let ghost all = listed_targets(listed@);
    if targets.len() == 0 {
        return Err(FuzzError::NoTargets);
    }
    let mut k: usize = 0;
    while k < targets.len()
        invariant
            k <= targets@.len(),
            all == listed_targets(listed@),
            targets@.len() == all.len(),
            forall|j: int| 0 <= j < targets@.len() ==> #[trigger] targets@[j]@ == all[j],
            forall|j: int| 0 <= j < k ==> valid_target(#[trigger] all[j]),
        decreases targets.len() - k,
    {
        if !valid_target_exec(&targets[k]) {
            let name = string_of(&targets[k]);
            assert(all[k as int] == name@);
            return Err(FuzzError::InvalidTarget(name));
        }
        k += 1;
    }
    let mut r: Vec<String> = Vec::new();
    let mut j: usize = 0;
    while j < targets.len()
        invariant
            j <= targets@.len(),
            all == listed_targets(listed@),
            targets@.len() == all.len(),
            forall|m: int| 0 <= m < targets@.len() ==> #[trigger] targets@[m]@ == all[m],
            strings(r@) == all.subrange(0, j as int),
        decreases targets.len() - j,
    {
        let ghost before = r@;
        r.push(string_of(&targets[j]));
        assert(strings(r@) =~= strings(before).push(all[j as int]));
        j += 1;
    }
    assert(all.subrange(0, all.len() as int) =~= all);
    Ok(r)
}

/// The Cargo arguments that build one target.
pub open spec fn fuzz_build_args(nightly: Seq<char>, target: Seq<char>) -> Seq<Seq<char>> {
    seq![nightly, "fuzz"@, "build"@, target]
}

/// The Cargo arguments that smoke-test one target for `seconds` with inputs
/// of at most `max_len` bytes, keeping crash artifacts in `artifacts`.
pub open spec fn fuzz_run_args(
    nightly: Seq<char>,
    target: Seq<char>,
    seconds: u32,
    max_len: u32,
    artifacts: Seq<char>,
) -> Seq<Seq<char>> {
    seq![
        nightly,
        "fuzz"@,
        "run"@,
        target,
        "--"@,
        "-max_total_time="@ + decimal(seconds as nat),
        "-max_len="@ + decimal(max_len as nat),
        "-artifact_prefix="@ + artifacts + "/"@,
    ]
}

/// Returns the Cargo arguments for one target: a build in build-only mode,
/// a bounded smoke run in smoke mode. `artifacts` is the target's artifact
/// directory.
pub fn fuzz_target_arguments(settings: &FuzzSettings, target: &str, artifacts: &str) -> (r: Vec<
    String,
>)
    requires
        settings.mode != FuzzMode::Disabled,
        settings.mode == FuzzMode::Smoke <==> settings.limits is Some,
    ensures
        settings.limits is None ==> strings(r@) == fuzz_build_args(settings.nightly@, target@),
        settings.limits matches Some((s, m)) ==> strings(r@) == fuzz_run_args(
            settings.nightly@,
            target@,
            s,
            m,
            artifacts@,
        ),
{
    let mut r: Vec<String> = Vec::new();
    r.push(settings.nightly.clone());
    r.push("fuzz".to_owned());
    match settings.limits {
        None => {
            r.push("build".to_owned());
            r.push(target.to_owned());
            assert(strings(r@) =~= fuzz_build_args(settings.nightly@, target@));
        },
        Some((seconds, max_len)) => {
            r.push("run".to_owned());
            r.push(target.to_owned());
            r.push("--".to_owned());
            let mut a = "-max_total_time=".to_owned();
            a.append(decimal_text(seconds as u64).as_str());
            r.push(a);
            let mut b = "-max_len=".to_owned();
            b.append(decimal_text(max_len as u64).as_str());
            r.push(b);
            let mut c = "-artifact_prefix=".to_owned();
            c.append(artifacts);
            c.append("/");
            r.push(c);
            assert(strings(r@) =~= fuzz_run_args(
                settings.nightly@,
                target@,
                seconds,
                max_len,
                artifacts@,
            ));
        },
    }
    r
}

} // verus!
