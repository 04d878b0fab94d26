//! Values read from environment variables.

use vstd::prelude::*;

verus! {

/// What reading one environment variable gave.
#[derive(Debug, Clone, PartialEq, Eq)]
pub enum EnvValue {
    /// The variable is not set.
    Unset,
    /// The variable is set but its value is not valid Unicode.
    NotUnicode,
    /// The variable is set to this text.
    Text(String),
}

} // verus!
