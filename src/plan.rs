//! Resolving a configuration into a plan: what to fetch, where, and how to
//! drive the native build.
use vstd::prelude::*;
use vstd::string::*;

use crate::config::{BuildConfig, Platform};
use crate::error::BuildError;
use crate::paths::{join_path, path_join};

verus! {

pub const TVM_REPO: &'static str = "https://github.com/apache/incubator-tvm";

pub const DEFAULT_BRANCH: &'static str = "main";

/// Directory under the home directory that holds what this library owns.
pub const TOOL_DIR: &'static str = ".tvm_build";

pub const SOURCE_DIR: &'static str = "source";

pub const PARENT_DIR: &'static str = "..";

pub const BUILD_DIR: &'static str = "build";

pub const GENERATOR: &'static str = "Ninja";

/// The repository cloned for `config`.
pub open spec fn repository_of(config: BuildConfig) -> Seq<char> {
    match config.repository {
        Some(u) => u@,
        None => TVM_REPO@,
    }
}

/// The branch cloned for `config`.
pub open spec fn branch_of(config: BuildConfig) -> Seq<char> {
    match config.branch {
        Some(b) => b@,
        None => DEFAULT_BRANCH@,
    }
}

/// The tool-owned source directory under the home directory `home`.
pub open spec fn default_source_dir(home: Seq<char>) -> Seq<char> {
    path_join(path_join(home, TOOL_DIR@), SOURCE_DIR@)
}

/// The directory `build` beside the source directory `source`.
pub open spec fn default_output_dir(source: Seq<char>) -> Seq<char> {
    path_join(path_join(source, PARENT_DIR@), BUILD_DIR@)
}

/// Whether `config` leaves the source directory to this library.
pub open spec fn owns_source_of(config: BuildConfig) -> bool {
    config.repository_path is None
}

/// Whether a source directory can be found for `config`.
pub open spec fn source_resolvable(config: BuildConfig, home: Option<String>) -> bool {
    config.repository_path is Some || home is Some
}

/// The source directory for `config`, where `source_resolvable` holds.
pub open spec fn source_dir_of(config: BuildConfig, home: Option<String>) -> Seq<char> {
    match config.repository_path {
        Some(p) => p@,
        None => default_source_dir(home->Some_0@),
    }
}

/// The output directory for `config`, where `source_resolvable` holds.
pub open spec fn output_dir_of(config: BuildConfig, home: Option<String>) -> Seq<char> {
    match config.output_path {
        Some(o) => o@,
        None => default_output_dir(source_dir_of(config, home)),
    }
}

/// Everything a build session acts on, resolved from a configuration.
#[derive(Debug, Clone, PartialEq)]
pub struct BuildPlan {
    pub repository_url: String,
    pub branch: String,
    pub source_dir: String,
    /// The library owns `source_dir` and may remove it.
    pub owns_source: bool,
    /// Remove an owned `source_dir` before acquiring the source.
    pub clean: bool,
    pub output_dir: String,
    pub generator: String,
    pub very_verbose: bool,
    pub platform: Platform,
}

/// `plan` is what `config`, the home directory `home` and `platform` resolve to.
pub open spec fn plan_of(plan: BuildPlan, config: BuildConfig, home: Option<String>, platform: Platform) -> bool {
    &&& plan.repository_url@ == repository_of(config)
    &&& plan.branch@ == branch_of(config)
    &&& plan.source_dir@ == source_dir_of(config, home)
    &&& plan.owns_source == owns_source_of(config)
    &&& plan.clean == config.clean
    &&& plan.output_dir@ == output_dir_of(config, home)
    &&& plan.generator@ == GENERATOR@
    &&& plan.very_verbose
    &&& plan.platform == platform
}

fn or_default(value: Option<String>, default: &str) -> (r: String)
    ensures
        r@ == match value {
            Some(v) => v@,
            None => default@,
        },
{
    match value {
        Some(v) => v,
        None => String::from_str(default),
    }
}

/// Resolves `config` into a plan. `home` is the user's home directory, if
/// it is known; it is needed only when `config` names no source directory.
pub fn resolve_plan(config: BuildConfig, home: Option<String>, platform: Platform) -> (r: Result<BuildPlan, BuildError>)
    ensures
        !source_resolvable(config, home) ==> r == Err::<BuildPlan, BuildError>(BuildError::HomeDirectoryUnavailable),
        source_resolvable(config, home) && !platform.valid() ==> r == Err::<BuildPlan, BuildError>(BuildError::UnsupportedConfiguration),
        source_resolvable(config, home) && platform.valid() ==> r is Ok && plan_of(r->Ok_0, config, home, platform),
{
    let owns_source = config.repository_path.is_none();
    let source_dir = match config.repository_path {
        Some(p) => p,
        None => match home {
            Some(h) => {
                let tool = join_path(h.as_str(), TOOL_DIR);
                join_path(tool.as_str(), SOURCE_DIR)
            },
            None => {
                return Err(BuildError::HomeDirectoryUnavailable);
            },
        },
    };
    if !platform.is_valid() {
        return Err(BuildError::UnsupportedConfiguration);
    }
    let output_dir = match config.output_path {
        Some(o) => o,
        None => {
            let parent = join_path(source_dir.as_str(), PARENT_DIR);
            join_path(parent.as_str(), BUILD_DIR)
        },
    };
    let repository_url = or_default(config.repository, TVM_REPO);
    let branch = or_default(config.branch, DEFAULT_BRANCH);
    Ok(BuildPlan {
        repository_url,
        branch,
        source_dir,
        owns_source,
        clean: config.clean,
        output_dir,
        generator: String::from_str(GENERATOR),
        very_verbose: true,
        platform,
    })
}

} // verus!
