//! Resolution of a project directory into an immutable project descriptor:
//! its identity (name, author, description), whether it ships its own
//! container recipe, and where it lives.
//!
//! The filesystem is read by the caller; the library decides, from what was
//! found, which descriptor results and which diagnostic (if any) is owed.

pub mod schema;
pub mod toml_table;
pub mod resolve;
pub mod laws;
