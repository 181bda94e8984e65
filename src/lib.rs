//! Staleness checks for a flake lock file, together with the decisions that
//! drive the system management tool around it.

pub mod cli;
pub mod commands;
pub mod config;
pub mod errors;
pub mod flake_lock;
pub mod status;
pub mod text;

use vstd::prelude::*;

verus! {

/// The tool's name, as users invoke it.
pub const CRATE_NAME: &'static str = "nixos-systool";

} // verus!
