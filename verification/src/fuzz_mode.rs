//! cargo-fuzz execution modes.

use vstd::prelude::*;

use crate::env_value::EnvValue;
use crate::text::same_text;

verus! {

/// The text of a value as `format!("{:?}", value)` writes a string: quoted,
/// with Rust's debug escapes.
pub uninterp spec fn debug_quoted(text: Seq<char>) -> Seq<char>;

/// Writes `text` as Rust's `Debug` writes a string (`format!("{text:?}")`).
#[verifier::external_body]
pub(crate) fn debug_text(text: &str) -> (r: String)
    ensures
        r@ == debug_quoted(text@),
{
    format!("{text:?}")
}

/// The operation selected by `RS_INFRA_FUZZ_MODE`.
#[derive(Debug, Clone, Copy, PartialEq, Eq, Structural)]
pub enum FuzzMode {
    /// Build and run bounded smoke tests.
    Smoke,
    /// Build every target without executing it.
    BuildOnly,
    /// Skip without invoking Cargo or requiring nightly.
    Disabled,
}

/// Why `RS_INFRA_FUZZ_MODE` could not be used.
#[derive(Debug, Clone, PartialEq, Eq)]
pub enum FuzzModeError {
    /// The value is not valid Unicode.
    NotUnicode,
    /// The value names no mode; holds the value.
    Unsupported(String),
}

/// The mode that a value of `RS_INFRA_FUZZ_MODE` selects: smoke when unset
/// or empty.
pub open spec fn fuzz_mode_of(value: EnvValue) -> Option<FuzzMode> {
    match value {
        EnvValue::Unset => Some(FuzzMode::Smoke),
        EnvValue::NotUnicode => None,
        EnvValue::Text(t) => if t@ == ""@ || t@ == "smoke"@ {
            Some(FuzzMode::Smoke)
        } else if t@ == "build-only"@ {
            Some(FuzzMode::BuildOnly)
        } else if t@ == "disabled"@ {
            Some(FuzzMode::Disabled)
        } else {
            None
        },
    }
}

/// The message of a mode error.
pub open spec fn fuzz_mode_error_message(e: FuzzModeError) -> Seq<char> {
    match e {
        FuzzModeError::NotUnicode => "invalid RS_INFRA_FUZZ_MODE"@,
        FuzzModeError::Unsupported(v) => "RS_INFRA_FUZZ_MODE must be smoke, build-only, or disabled; got "@
            + debug_quoted(v@),
    }
}

impl FuzzModeError {
    /// The error's message.
    pub fn message(&self) -> (r: String)
        ensures
            r@ == fuzz_mode_error_message(*self),
    {
        match self {
            FuzzModeError::NotUnicode => "invalid RS_INFRA_FUZZ_MODE".to_owned(),
            FuzzModeError::Unsupported(v) => {
                let mut r = "RS_INFRA_FUZZ_MODE must be smoke, build-only, or disabled; got ".to_owned();
                let quoted = debug_text(v.as_str());
                r.append(quoted.as_str());
                r
            },
        }
    }
}

impl FuzzMode {
    /// Reads a value of `RS_INFRA_FUZZ_MODE`: unset, empty and `smoke` give
    /// smoke; `build-only` and `disabled` give those modes.
    pub fn from_value(value: &EnvValue) -> (r: Result<FuzzMode, FuzzModeError>)
        ensures
            match fuzz_mode_of(*value) {
                Some(m) => r == Ok::<FuzzMode, FuzzModeError>(m),
                None => match *value {
                    EnvValue::NotUnicode => r matches Err(FuzzModeError::NotUnicode),
                    EnvValue::Text(t) => r matches Err(FuzzModeError::Unsupported(v)) && v@ == t@,
                    EnvValue::Unset => false,
                },
            },
    {
        match value {
            EnvValue::Unset => Ok(FuzzMode::Smoke),
            EnvValue::NotUnicode => Err(FuzzModeError::NotUnicode),
            EnvValue::Text(t) => {
                let s = t.as_str();
                if same_text(s, "") || same_text(s, "smoke") {
                    Ok(FuzzMode::Smoke)
                } else if same_text(s, "build-only") {
                    Ok(FuzzMode::BuildOnly)
                } else if same_text(s, "disabled") {
                    Ok(FuzzMode::Disabled)
                } else {
                    Err(FuzzModeError::Unsupported(t.clone()))
                }
            },
        }
    }
}

} // verus!
