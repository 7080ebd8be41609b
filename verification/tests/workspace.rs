use deno_loader::error::create_js_error;
use deno_loader::error::LoaderError;
use deno_loader::graph::GraphKind;
use deno_loader::logging::LevelFilter;
use deno_loader::logging::Logging;
use deno_loader::workspace::npm_system_info;
use deno_loader::workspace::AllowJsonImports;
use deno_loader::workspace::ConfigDiscovery;
use deno_loader::workspace::DenoWorkspace;
use deno_loader::workspace::DenoWorkspaceOptions;
use deno_loader::workspace::IsCjsResolutionMode;
use deno_loader::workspace::NodeCodeTranslatorMode;
use deno_loader::workspace::NpmCacheSetting;
use deno_loader::workspace::NpmCachingStrategy;
use deno_loader::workspace::PackagesAllowedScripts;
use deno_loader::workspace::Timestamp;

fn nothing() -> DenoWorkspaceOptions {
    DenoWorkspaceOptions {
        no_config: None,
        no_lock: None,
        platform: None,
        config_path: None,
        node_conditions: None,
        newest_dependency_date: None,
        cached_only: None,
        preserve_jsx: None,
        no_transpile: None,
        debug: None,
    }
}

fn make(options: DenoWorkspaceOptions) -> Result<DenoWorkspace, String> {
    DenoWorkspace::new(Ok(options), Ok("/work".to_string())).map_err(|e| create_js_error(&e))
}

#[test]
fn defaults() {
    let made = make(nothing()).unwrap();
    assert!(matches!(made.workspace.config_discovery, ConfigDiscovery::DiscoverCwd));
    assert!(!made.workspace.no_lock);
    assert!(!made.workspace.no_npm);
    assert!(!made.workspace.is_package_manager_subcommand);
    assert!(!made.workspace.lockfile_skip_write);
    assert!(!made.workspace.import_npm_lockfile);
    assert_eq!(made.workspace.frozen_lockfile, None);
    assert_eq!(made.workspace.lock_arg, None);
    assert_eq!(made.workspace.vendor, None);
    assert!(!made.resolver.is_browser_platform);
    assert!(!made.resolver.no_transpile);
    assert!(!made.resolver.preserve_jsx);
    assert!(!made.resolver.force_check_js);
    assert!(made.resolver.force_disable_verbatim_module_syntax);
    assert!(made.resolver.unstable_sloppy_imports);
    assert!(made.resolver.bundle_mode);
    assert!(made.resolver.conditions.is_empty());
    assert_eq!(made.resolver.newest_dependency_date, None);
    assert_eq!(made.installer.cache_setting, NpmCacheSetting::Use);
    assert!(!made.installer.clean_on_install);
    assert!(!made.installer.dedup_lockfile_peer_variants);
    assert!(!made.installer.production);
    assert!(!made.installer.skip_types);
    assert!(!made.installer.explicit_install);
    assert_eq!(made.resolver.allow_json_imports, AllowJsonImports::Always);
    assert_eq!(
        made.resolver.is_cjs_resolution_mode,
        IsCjsResolutionMode::ExplicitTypeCommonJs
    );
    assert_eq!(made.resolver.node_code_translator_mode, NodeCodeTranslatorMode::Disabled);
    assert!(made.resolver.source_map_base_is_root);
    assert_eq!(made.installer.caching_strategy, NpmCachingStrategy::Eager);
    assert_eq!(made.installer.lifecycle_scripts, PackagesAllowedScripts::NoPackage);
    assert_eq!(made.graph_kind, GraphKind::CodeOnly);
    assert!(made.fetcher.allow_remote);
    assert!(made.fetcher.use_cache);
    assert_eq!(made.create_loader().initial_cwd, "/work");
}

#[test]
fn left_out_is_not_set() {
    let made = make(DenoWorkspaceOptions {
        no_config: Some(false),
        no_lock: Some(false),
        cached_only: Some(false),
        preserve_jsx: Some(false),
        no_transpile: Some(false),
        node_conditions: Some(Vec::new()),
        ..nothing()
    })
    .unwrap();
    assert!(matches!(made.workspace.config_discovery, ConfigDiscovery::DiscoverCwd));
    assert!(!made.workspace.no_lock);
    assert!(!made.resolver.no_transpile);
    assert!(!made.resolver.preserve_jsx);
    assert_eq!(made.installer.cache_setting, NpmCacheSetting::Use);
}

#[test]
fn set_flags_are_taken_over() {
    let date = Timestamp { seconds: 1_700_000_000, nanoseconds: 5 };
    let made = make(DenoWorkspaceOptions {
        no_lock: Some(true),
        cached_only: Some(true),
        preserve_jsx: Some(true),
        no_transpile: Some(true),
        node_conditions: Some(vec!["worker".to_string()]),
        newest_dependency_date: Some(date),
        ..nothing()
    })
    .unwrap();
    assert!(made.workspace.no_lock);
    assert!(made.resolver.no_transpile);
    assert!(made.resolver.preserve_jsx);
    assert_eq!(made.installer.cache_setting, NpmCacheSetting::Only);
    assert_eq!(made.resolver.conditions, vec!["worker"]);
    assert_eq!(made.resolver.newest_dependency_date, Some(date));
}

#[test]
fn debug_flag() {
    assert!(!nothing().is_debug());
    assert!(!DenoWorkspaceOptions { debug: Some(false), ..nothing() }.is_debug());
    assert!(DenoWorkspaceOptions { debug: Some(true), ..nothing() }.is_debug());
}

#[test]
fn first_workspace_decides_logging() {
    let loud = DenoWorkspaceOptions { debug: Some(true), ..nothing() };
    assert!(loud.logger(Logging::untouched()).debug);
    let once = loud.offer_logger(Logging::untouched(), true);
    assert!(nothing().logger(once).debug);
    let twice = nothing().offer_logger(once, false);
    assert_eq!(twice.logger.map(|logger| logger.debug), Some(true));
    assert_eq!(twice.filter, Some(LevelFilter::Debug));
}

#[test]
fn platforms() {
    for (name, browser) in [("node", false), ("deno", false), ("browser", true)] {
        let options = DenoWorkspaceOptions { platform: Some(name.to_string()), ..nothing() };
        assert_eq!(make(options).unwrap().resolver.is_browser_platform, browser);
    }
}

#[test]
fn unknown_platform_is_refused() {
    for name in ["bun", "", "Node"] {
        let options = DenoWorkspaceOptions { platform: Some(name.to_string()), ..nothing() };
        assert_eq!(make(options).err(), Some(format!("Unknown platform '{}'", name)));
    }
}

#[test]
fn config_path_is_seen_from_the_directory() {
    for (given, expected) in [
        ("deno.json", "/work/deno.json"),
        ("sub/deno.json", "/work/sub/deno.json"),
        ("/etc/deno.json", "/etc/deno.json"),
        ("file:///etc/a%20b.json", "/etc/a b.json"),
    ] {
        let options = DenoWorkspaceOptions { config_path: Some(given.to_string()), ..nothing() };
        match make(options).unwrap().workspace.config_discovery {
            ConfigDiscovery::Path(path) => assert_eq!(path, expected),
            _ => panic!("the path is taken"),
        }
    }
}

#[test]
fn no_config_overrides_the_path() {
    let options = DenoWorkspaceOptions {
        no_config: Some(true),
        config_path: Some("file:///etc/deno.json".to_string()),
        ..nothing()
    };
    let made = make(options).unwrap();
    assert!(matches!(made.workspace.config_discovery, ConfigDiscovery::Disabled));
}

#[test]
fn unknown_platform_comes_before_the_config_path() {
    let options = DenoWorkspaceOptions {
        platform: Some("bun".to_string()),
        config_path: Some("deno.json".to_string()),
        ..nothing()
    };
    assert_eq!(make(options).err(), Some("Unknown platform 'bun'".to_string()));
}

#[test]
fn unreadable_options_are_refused_in_context() {
    let made = DenoWorkspace::new(Err("invalid type".to_string()), Ok("/work".to_string()));
    assert_eq!(
        made.map_err(|e| create_js_error(&e)).err(),
        Some("Failed deserializing workspace options.: invalid type".to_string())
    );
}

#[test]
fn unknown_directory_is_refused() {
    let gone = LoaderError::msg("gone".to_string());
    let made = DenoWorkspace::new(Ok(nothing()), Err(gone));
    assert_eq!(made.map_err(|e| create_js_error(&e)).err(), Some("gone".to_string()));
}

#[test]
fn system_info() {
    let info = npm_system_info(Some("linux".to_string()), Some("x64".to_string()));
    let info = info.map_err(|e| create_js_error(&e)).unwrap();
    assert_eq!(info.os, "linux");
    assert_eq!(info.cpu, "x64");
    let none = npm_system_info(None, None).map_err(|e| create_js_error(&e)).err();
    assert_eq!(none, Some("Could not resolve process.platform global.".to_string()));
    let none = npm_system_info(Some("linux".to_string()), None);
    assert_eq!(
        none.map_err(|e| create_js_error(&e)).err(),
        Some("Could not resolve process.arch global.".to_string())
    );
}
