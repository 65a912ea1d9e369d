//! The version-control client's error type, as the library carries it.
use vstd::prelude::*;

verus! {

/// `git2::Error`, carried unopened from a failed clone or submodule update.
#[verifier::external_type_specification]
#[verifier::external_body]
pub struct ExGitError(git2::Error);

} // verus!
