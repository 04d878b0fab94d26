//! Selects the nightly Rust toolchain used by advanced verification suites.

use vstd::prelude::*;

use crate::env_value::EnvValue;
use crate::text::{char_is_space, chars_of, has_space, push_char};

verus! {

/// Why `RS_INFRA_NIGHTLY_TOOLCHAIN` could not be used.
#[derive(Debug, Clone, Copy, PartialEq, Eq, Structural)]
pub enum ToolchainError {
    /// The variable's value is not valid Unicode.
    NotUnicode,
    /// The value is empty, holds whitespace, or starts with `+` or `-`.
    Invalid,
}

impl ToolchainError {
    /// The error's message.
    pub fn message(&self) -> (r: String)
        ensures
            r@ == toolchain_error_message(*self),
    {
        match self {
            ToolchainError::NotUnicode => "invalid RS_INFRA_NIGHTLY_TOOLCHAIN".to_owned(),
            ToolchainError::Invalid => {
                "RS_INFRA_NIGHTLY_TOOLCHAIN must be a nonempty toolchain name without a leading '+' or '-'".to_owned()
            },
        }
    }
}

/// The message of a toolchain error.
pub open spec fn toolchain_error_message(e: ToolchainError) -> Seq<char> {
    match e {
        ToolchainError::NotUnicode => "invalid RS_INFRA_NIGHTLY_TOOLCHAIN"@,
        ToolchainError::Invalid => "RS_INFRA_NIGHTLY_TOOLCHAIN must be a nonempty toolchain name without a leading '+' or '-'"@,
    }
}

/// The toolchain name that the variable selects: `nightly` when unset, its
/// text when set, nothing when it is not Unicode.
pub open spec fn selected_toolchain(value: EnvValue) -> Option<Seq<char>> {
    match value {
        EnvValue::Unset => Some("nightly"@),
        EnvValue::NotUnicode => None,
        EnvValue::Text(t) => Some(t@),
    }
}

/// Whether `name` can follow `+` on a Cargo command line: nonempty, without
/// whitespace, and not starting with `+` or `-`.
pub open spec fn valid_toolchain_name(name: Seq<char>) -> bool {
    &&& name.len() > 0
    &&& name[0] != '+'
    &&& name[0] != '-'
    &&& !has_space(name)
}

/// What [`toolchain`] gives for the variable's value.
pub open spec fn toolchain_result(value: EnvValue) -> Result<Seq<char>, ToolchainError> {
    match selected_toolchain(value) {
        None => Err(ToolchainError::NotUnicode),
        Some(name) => if valid_toolchain_name(name) {
            Ok(seq!['+'] + name)
        } else {
            Err(ToolchainError::Invalid)
        },
    }
}

/// Returns the Cargo `+toolchain` argument selected by the value of
/// `RS_INFRA_NIGHTLY_TOOLCHAIN`, defaulting to `+nightly`.
pub fn toolchain(value: &EnvValue) -> (r: Result<String, ToolchainError>)
    ensures
        match toolchain_result(*value) {
            Ok(t) => r matches Ok(s) && s@ == t,
            Err(e) => r == Err::<String, ToolchainError>(e),
        },
{
    let selected = match value {
        EnvValue::Unset => "nightly".to_owned(),
        EnvValue::NotUnicode => return Err(ToolchainError::NotUnicode),
        EnvValue::Text(t) => t.clone(),
    };
    let chars = chars_of(selected.as_str());
    if chars.len() == 0 || chars[0] == '+' || chars[0] == '-' {
        return Err(ToolchainError::Invalid);
    }
    let mut i: usize = 0;
    while i < chars.len()
        invariant
            i <= chars@.len(),
            chars@ == selected@,
            selected_toolchain(*value) == Some(selected@),
            forall|k: int| 0 <= k < i ==> !crate::text::is_space(#[trigger] chars@[k]),
        decreases chars.len() - i,
    {
        if char_is_space(chars[i]) {
            assert(has_space(chars@)) by {
                assert(crate::text::is_space(chars@[i as int]));
            }
            return Err(ToolchainError::Invalid);
        }
        i += 1;
    }
    let mut r = String::new();
    push_char(&mut r, '+');
    r.append(selected.as_str());
    assert(r@ =~= seq!['+'] + selected@);
    Ok(r)
}

} // verus!
