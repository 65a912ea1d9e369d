//! The failures a build can end in.
use vstd::prelude::*;

verus! {

/// Why a build did not complete, by the stage that failed.
#[derive(Debug, PartialEq)]
pub enum BuildError {
    /// Cloning the repository or updating one of its submodules failed.
    Git2(git2::Error),
    /// No source directory was given and the home directory is unknown.
    HomeDirectoryUnavailable,
    /// Removing the tool-owned source directory failed.
    Filesystem(String),
    /// The target, host or build profile is empty.
    UnsupportedConfiguration,
    /// The native build driver reported a failure.
    BuildDriver(String),
}

} // verus!
