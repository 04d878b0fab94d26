//! Planning and checking of Cargo verification suites.

pub mod cli;
pub mod env_value;
pub mod fuzz;
pub mod fuzz_mode;
pub mod json;
pub mod laws;
pub mod legacy;
pub mod loom;
pub mod metadata;
pub mod nightly;
pub mod package;
pub mod plan;
pub mod plan_entry;
pub mod plan_status;
pub mod readme;
pub mod runner;
pub mod sequence;
pub mod sanitizer;
pub mod suite;
pub mod text;

pub use crate::env_value::EnvValue;
pub use crate::json::JsonValue;
pub use crate::plan::plan;
pub use crate::plan_entry::PlanEntry;
pub use crate::plan_status::PlanStatus;
pub use crate::suite::Suite;
