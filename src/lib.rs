//! Orchestration of a TVM source checkout and native build.
//!
//! The library decides: it resolves a build configuration into a plan
//! (repository, branch, source and output directories, driver settings)
//! and runs a session that, event by event, says which step comes next.
//! The caller performs the steps (file system, version control, native
//! build driver) and reports what happened.
use vstd::prelude::*;

pub mod artifacts;
pub mod config;
pub mod error;
pub mod git;
pub mod laws;
pub mod paths;
pub mod plan;
pub mod session;

verus! {

} // verus!
