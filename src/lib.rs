//! Finds git repositories under a directory and reports which of them hold
//! uncommitted changes.

pub mod cli;
pub mod error;
pub mod output;
pub mod scan;
pub mod session;
pub mod text;
