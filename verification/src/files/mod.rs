//! File-related helpers: existence checks and their error classification.
//! Removal, directory creation and reading run in the unverified shell.

pub mod errors;
pub mod operations;
