//! Where a completed build leaves what it produced.
use vstd::prelude::*;
use vstd::string::*;

use crate::error::BuildError;
use crate::paths::{join_path, path_join};
use crate::plan::BuildPlan;

verus! {

pub const PYTHON_DIR: &'static str = "python";

/// Directory under the output directory that the driver installs libraries to.
pub const LIB_DIR: &'static str = "lib";

pub const RUNTIME_LIBRARY: &'static str = "libtvm_runtime";

pub const COMPILER_LIBRARY: &'static str = "libtvm";

/// The host name under which shared libraries end in `.dylib`.
pub const MACOS_HOST: &'static str = "Darwin";

pub const MACOS_LIBRARY_SUFFIX: &'static str = ".dylib";

pub const LIBRARY_SUFFIX: &'static str = ".so";

/// The file name suffix of a shared library built on `host`.
pub open spec fn library_suffix(host: Seq<char>) -> Seq<char> {
    if host == MACOS_HOST@ {
        MACOS_LIBRARY_SUFFIX@
    } else {
        LIBRARY_SUFFIX@
    }
}

/// The path of the shared library `name` that a build with `plan` installs.
pub open spec fn library_path(plan: BuildPlan, name: Seq<char>) -> Seq<char> {
    path_join(path_join(plan.output_dir@, LIB_DIR@), name + library_suffix(plan.platform.host@))
}

/// The places a build is expected to leave its products in. They are not
/// checked to exist.
#[derive(Debug, Clone, PartialEq)]
pub struct BuildResult {
    /// The Python package in the source tree.
    pub python_libraries: String,
    pub tvm_runtime_shared_library: String,
    pub tvm_compiler_shared_library: String,
}

impl BuildPlan {
    fn library(&self, name: &str) -> (r: String)
        ensures
            r@ == library_path(*self, name@),
    {
        let suffix = if self.platform.host == String::from_str(MACOS_HOST) {
            MACOS_LIBRARY_SUFFIX
        } else {
            LIBRARY_SUFFIX
        };
        let lib_dir = join_path(self.output_dir.as_str(), LIB_DIR);
        let file = String::from_str(name).concat(suffix);
        join_path(lib_dir.as_str(), file.as_str())
    }

    /// Where a build with this plan leaves its products.
    pub fn artifacts(&self) -> (r: BuildResult)
        ensures
            r.python_libraries@ == path_join(self.source_dir@, PYTHON_DIR@),
            r.tvm_runtime_shared_library@ == library_path(*self, RUNTIME_LIBRARY@),
            r.tvm_compiler_shared_library@ == library_path(*self, COMPILER_LIBRARY@),
    {
        BuildResult {
            python_libraries: join_path(self.source_dir.as_str(), PYTHON_DIR),
            tvm_runtime_shared_library: self.library(RUNTIME_LIBRARY),
            tvm_compiler_shared_library: self.library(COMPILER_LIBRARY),
        }
    }
}

/// Prepares the output directory `output_path`. The native build driver
/// creates the directory itself, so nothing is left to do and this succeeds.
pub fn make_target_directory(output_path: &str) -> (r: Result<(), BuildError>)
    ensures
        r is Ok,
{
    Ok(())
}

} // verus!
