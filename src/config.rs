//! What the caller asks for: the build configuration and the platform.
use vstd::prelude::*;
use vstd::string::*;

verus! {

/// The caller's request. Every field is optional; `resolve_plan` supplies
/// the defaults.
#[derive(Debug, Clone, PartialEq)]
pub struct BuildConfig {
    /// Repository to clone; the upstream TVM repository when absent.
    pub repository: Option<String>,
    /// Source directory owned by the caller, never removed; a directory
    /// under the home directory, owned by this library, when absent.
    pub repository_path: Option<String>,
    /// Output directory of the native build; `build` beside the source
    /// directory when absent.
    pub output_path: Option<String>,
    /// Branch to clone; `main` when absent.
    pub branch: Option<String>,
    /// Asks for verbose progress; the native build driver always runs at
    /// its most verbose.
    pub verbose: bool,
    /// Remove a tool-owned source directory before acquiring the source.
    pub clean: bool,
}

impl Default for BuildConfig {
    fn default() -> (r: BuildConfig)
        ensures
            r.repository is None,
            r.repository_path is None,
            r.output_path is None,
            r.branch is None,
            !r.verbose,
            !r.clean,
    {
        BuildConfig {
            repository: None,
            repository_path: None,
            output_path: None,
            branch: None,
            verbose: false,
            clean: false,
        }
    }
}

pub const DEFAULT_TARGET: &'static str = "x86_64-apple-darwin19.5.0";

pub const DEFAULT_HOST: &'static str = "Darwin";

pub const DEFAULT_PROFILE: &'static str = "Debug";

/// The platform the native build is driven for.
#[derive(Debug, Clone, PartialEq)]
pub struct Platform {
    pub target: String,
    pub host: String,
    pub profile: String,
}

impl Platform {
    /// A platform the native build driver accepts: no part is empty.
    pub open spec fn valid(&self) -> bool {
        self.target@.len() > 0 && self.host@.len() > 0 && self.profile@.len() > 0
    }

    pub fn is_valid(&self) -> (r: bool)
        ensures
            r == self.valid(),
    {
        !self.target.as_str().is_empty() && !self.host.as_str().is_empty()
            && !self.profile.as_str().is_empty()
    }
}

impl Default for Platform {
    /// A debug build for x86-64 macOS.
    fn default() -> (r: Platform)
        ensures
            r.target@ == DEFAULT_TARGET@,
            r.host@ == DEFAULT_HOST@,
            r.profile@ == DEFAULT_PROFILE@,
            r.valid(),
    {
        proof {
            reveal_strlit("x86_64-apple-darwin19.5.0");
            reveal_strlit("Darwin");
            reveal_strlit("Debug");
        }
        Platform {
            target: String::from_str(DEFAULT_TARGET),
            host: String::from_str(DEFAULT_HOST),
            profile: String::from_str(DEFAULT_PROFILE),
        }
    }
}

} // verus!
