use tvm_build::artifacts::make_target_directory;
use tvm_build::config::{BuildConfig, Platform};
use tvm_build::error::BuildError;
use tvm_build::paths::join_path;
use tvm_build::plan::resolve_plan;

fn home() -> Option<String> {
    Some("/home/user".to_string())
}

fn linux() -> Platform {
    Platform {
        target: "x86_64-unknown-linux-gnu".to_string(),
        host: "Linux".to_string(),
        profile: "Release".to_string(),
    }
}

#[test]
fn default_config_is_empty() {
    let c = BuildConfig::default();
    assert_eq!(c.repository, None);
    assert_eq!(c.repository_path, None);
    assert_eq!(c.output_path, None);
    assert_eq!(c.branch, None);
    assert!(!c.verbose);
    assert!(!c.clean);
}

#[test]
fn default_platform_is_macos_debug() {
    let p = Platform::default();
    assert_eq!(p.target, "x86_64-apple-darwin19.5.0");
    assert_eq!(p.host, "Darwin");
    assert_eq!(p.profile, "Debug");
    assert!(p.is_valid());
}

#[test]
fn join_inserts_separator() {
    assert_eq!(join_path("/home/user", ".tvm_build"), "/home/user/.tvm_build");
    assert_eq!(join_path("/home/user/", ".tvm_build"), "/home/user/.tvm_build");
    assert_eq!(join_path("", "source"), "source");
}

#[test]
fn defaults_resolve_under_home() {
    let plan = resolve_plan(BuildConfig::default(), home(), Platform::default()).unwrap();
    assert_eq!(plan.repository_url, "https://github.com/apache/incubator-tvm");
    assert_eq!(plan.branch, "main");
    assert_eq!(plan.source_dir, "/home/user/.tvm_build/source");
    assert!(plan.owns_source);
    assert!(!plan.clean);
    assert_eq!(plan.generator, "Ninja");
    assert!(plan.very_verbose);
    assert_eq!(plan.platform, Platform::default());
}

#[test]
fn output_defaults_beside_source() {
    let plan = resolve_plan(BuildConfig::default(), home(), Platform::default()).unwrap();
    assert_eq!(plan.output_dir, "/home/user/.tvm_build/source/../build");
    let mut config = BuildConfig::default();
    config.repository_path = Some("/work/tvm".to_string());
    let plan = resolve_plan(config, None, Platform::default()).unwrap();
    assert_eq!(plan.output_dir, "/work/tvm/../build");
}

#[test]
fn caller_source_is_not_owned() {
    let mut config = BuildConfig::default();
    config.repository_path = Some("/work/tvm".to_string());
    config.clean = true;
    let plan = resolve_plan(config, home(), Platform::default()).unwrap();
    assert_eq!(plan.source_dir, "/work/tvm");
    assert!(!plan.owns_source);
    assert!(plan.clean);
}

#[test]
fn explicit_settings_are_kept() {
    let config = BuildConfig {
        repository: Some("https://example.org/tvm.git".to_string()),
        repository_path: None,
        output_path: Some("/out".to_string()),
        branch: Some("release-1.0".to_string()),
        verbose: true,
        clean: true,
    };
    let plan = resolve_plan(config, home(), linux()).unwrap();
    assert_eq!(plan.repository_url, "https://example.org/tvm.git");
    assert_eq!(plan.branch, "release-1.0");
    assert_eq!(plan.output_dir, "/out");
    assert_eq!(plan.platform, linux());
}

#[test]
fn branch_selection() {
    let mut config = BuildConfig::default();
    config.branch = Some("release-1.0".to_string());
    let plan = resolve_plan(config, home(), Platform::default()).unwrap();
    assert_eq!(plan.branch, "release-1.0");
}

#[test]
fn missing_home_is_an_error() {
    let r = resolve_plan(BuildConfig::default(), None, Platform::default());
    assert_eq!(r, Err(BuildError::HomeDirectoryUnavailable));
}

#[test]
fn empty_platform_part_is_an_error() {
    let mut p = linux();
    p.profile = String::new();
    assert!(!p.is_valid());
    let r = resolve_plan(BuildConfig::default(), home(), p);
    assert_eq!(r, Err(BuildError::UnsupportedConfiguration));
}

#[test]
fn artifacts_on_macos() {
    let plan = resolve_plan(BuildConfig::default(), home(), Platform::default()).unwrap();
    let a = plan.artifacts();
    assert_eq!(a.python_libraries, "/home/user/.tvm_build/source/python");
    assert_eq!(
        a.tvm_runtime_shared_library,
        "/home/user/.tvm_build/source/../build/lib/libtvm_runtime.dylib"
    );
    assert_eq!(
        a.tvm_compiler_shared_library,
        "/home/user/.tvm_build/source/../build/lib/libtvm.dylib"
    );
}

#[test]
fn artifacts_on_linux() {
    let mut config = BuildConfig::default();
    config.output_path = Some("/out".to_string());
    let plan = resolve_plan(config, home(), linux()).unwrap();
    let a = plan.artifacts();
    assert_eq!(a.tvm_runtime_shared_library, "/out/lib/libtvm_runtime.so");
    assert_eq!(a.tvm_compiler_shared_library, "/out/lib/libtvm.so");
}

#[test]
fn target_directory_needs_nothing() {
    assert_eq!(make_target_directory("/out"), Ok(()));
}
