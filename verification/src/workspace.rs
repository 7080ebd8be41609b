//! The workspace: how its options become settings.

use vstd::prelude::*;

use crate::error::LoaderError;
use crate::graph::GraphKind;
use crate::loader::DenoLoader;
use crate::logging::Logger;
use crate::logging::Logging;
use crate::paths::resolve_absolute_path;
use crate::text::concat3;
use crate::text::same_text;

verus! {

/// A point in time, in seconds since the start of 1970 in UTC and nanoseconds
/// after that.
#[derive(Clone, Copy, Debug, PartialEq, Eq, Structural)]
pub struct Timestamp {
    pub seconds: i64,
    pub nanoseconds: u32,
}

/// What a caller can ask of a workspace. Everything may be left out.
pub struct DenoWorkspaceOptions {
    pub no_config: Option<bool>,
    pub no_lock: Option<bool>,
    pub platform: Option<String>,
    pub config_path: Option<String>,
    pub node_conditions: Option<Vec<String>>,
    pub newest_dependency_date: Option<Timestamp>,
    pub cached_only: Option<bool>,
    pub preserve_jsx: Option<bool>,
    pub no_transpile: Option<bool>,
    pub debug: Option<bool>,
}

/// Whether a flag is set. One that is left out is not.
pub open spec fn is_set(flag: Option<bool>) -> bool {
    flag == Some(true)
}

fn flag(given: Option<bool>) -> (set: bool)
    ensures
        set == is_set(given),
{
    match given {
        Some(set) => set,
        None => false,
    }
}

impl DenoWorkspaceOptions {
    /// Whether what is done is logged in detail.
    pub fn is_debug(&self) -> (debug: bool)
        ensures
            debug == is_set(self.debug),
    {
        flag(self.debug)
    }

    /// The logger to offer to the process for a workspace with these options.
    pub fn logger(&self, logging: Logging) -> (logger: Logger)
        ensures
            logger == crate::logging::logger_to_offer(logging, is_set(self.debug)),
    {
        logging.logger(self.is_debug())
    }

    /// How logging stands once the logger for these options was offered, which
    /// comes before anything that can fail.
    pub fn offer_logger(&self, logging: Logging, accepted: bool) -> (after: Logging)
        ensures
            after == crate::logging::offered(logging, is_set(self.debug), accepted),
    {
        logging.offer(self.is_debug(), accepted)
    }
}

/// The platform that modules are resolved for, where it is one: a browser or not.
pub open spec fn browser_platform(platform: Option<Seq<char>>) -> Option<bool> {
    match platform {
        None => Some(false),
        Some(name) => if name == "node"@ || name == "deno"@ {
            Some(false)
        } else if name == "browser"@ {
            Some(true)
        } else {
            None
        },
    }
}

/// Why a platform is not one.
pub open spec fn platform_message(name: Seq<char>) -> Seq<char> {
    "Unknown platform '"@ + name + "'"@
}

/// Whether modules are resolved for a browser.
pub fn resolve_is_browser_platform(options: &DenoWorkspaceOptions) -> (outcome: Result<
    bool,
    LoaderError,
>)
    ensures
        match browser_platform(crate::host::text_view(options.platform)) {
            Some(browser) => outcome == Ok::<bool, LoaderError>(browser),
            None => outcome is Err && outcome->Err_0@ == crate::error::plain_error(
                platform_message(options.platform->0@),
            ),
        },
{
    proof {
        reveal_strlit("node");
        reveal_strlit("deno");
        reveal_strlit("browser");
    }
    match &options.platform {
        None => Ok(false),
        Some(name) => {
            if same_text(name.as_str(), "node") || same_text(name.as_str(), "deno") {
                Ok(false)
            } else if same_text(name.as_str(), "browser") {
                Ok(true)
            } else {
                Err(LoaderError::msg(concat3("Unknown platform '", name.as_str(), "'")))
            }
        },
    }
}

/// Where the configuration file comes from.
pub enum ConfigDiscovery {
    /// There is none.
    Disabled,
    /// It is at this path.
    Path(String),
    /// It is looked for from the current directory on.
    DiscoverCwd,
}

/// Whether the configuration file can come from here, or this error say why it
/// cannot.
pub open spec fn is_config_discovery(
    options: DenoWorkspaceOptions,
    cwd: Seq<char>,
    outcome: Result<ConfigDiscovery, LoaderError>,
) -> bool {
    if is_set(options.no_config) {
        outcome == Ok::<ConfigDiscovery, LoaderError>(ConfigDiscovery::Disabled)
    } else {
        match options.config_path {
            None => outcome == Ok::<ConfigDiscovery, LoaderError>(ConfigDiscovery::DiscoverCwd),
            Some(path) => match outcome {
                Ok(ConfigDiscovery::Path(found)) => crate::paths::is_absolute_path(
                    path@,
                    cwd,
                    Ok(found@),
                ),
                Ok(_) => false,
                Err(error) => exists|message: Seq<char>|
                    #[trigger] crate::paths::is_absolute_path(path@, cwd, Err(message))
                        && error@ == crate::error::in_context(
                        "Failed resolving config path."@,
                        crate::error::plain_error(message),
                    ),
            },
        }
    }
}

/// Where the configuration file comes from.
pub fn config_discovery(options: &DenoWorkspaceOptions, cwd: &str) -> (outcome: Result<
    ConfigDiscovery,
    LoaderError,
>)
    ensures
        is_config_discovery(*options, cwd@, outcome),
{
    if flag(options.no_config) {
        return Ok(ConfigDiscovery::Disabled);
    }
    match &options.config_path {
        None => Ok(ConfigDiscovery::DiscoverCwd),
        Some(path) => match resolve_absolute_path(path.as_str(), cwd) {
            Ok(path) => Ok(ConfigDiscovery::Path(path)),
            Err(message) => {
                assert(crate::paths::is_absolute_path(path@, cwd@, Err(message@)));
                Err(LoaderError::msg(message).context("Failed resolving config path."))
            },
        },
    }
}

/// Settings of the workspace itself.
pub struct WorkspaceSettings {
    pub config_discovery: ConfigDiscovery,
    pub is_package_manager_subcommand: bool,
    /// Left to the configuration file.
    pub frozen_lockfile: Option<bool>,
    /// The lockfile is always at its usual place.
    pub lock_arg: Option<String>,
    pub lockfile_skip_write: bool,
    pub no_lock: bool,
    pub no_npm: bool,
    pub import_npm_lockfile: bool,
    /// Left to the configuration file.
    pub vendor: Option<bool>,
}

/// When JSON can be imported.
#[derive(Clone, Copy, Debug, PartialEq, Eq, Structural)]
pub enum AllowJsonImports {
    Always,
    /// Only where the import says that it is JSON.
    WithAttribute,
}

/// Which modules are CommonJS.
#[derive(Clone, Copy, Debug, PartialEq, Eq, Structural)]
pub enum IsCjsResolutionMode {
    /// Those of a package that says so.
    ExplicitTypeCommonJs,
    /// Those of a package that does not say otherwise.
    ImplicitTypeCommonJs,
    /// None that could be either.
    Disabled,
}

/// Whether CommonJS is turned into modules that can be imported.
#[derive(Clone, Copy, Debug, PartialEq, Eq, Structural)]
pub enum NodeCodeTranslatorMode {
    Disabled,
    ModuleLoader,
}

/// Settings of the resolver.
pub struct ResolverSettings {
    pub allow_json_imports: AllowJsonImports,
    pub is_cjs_resolution_mode: IsCjsResolutionMode,
    pub node_code_translator_mode: NodeCodeTranslatorMode,
    /// Whether paths in source maps are seen from the root of the workspace.
    pub source_map_base_is_root: bool,
    pub no_transpile: bool,
    pub preserve_jsx: bool,
    pub force_check_js: bool,
    pub force_disable_verbatim_module_syntax: bool,
    pub unstable_sloppy_imports: bool,
    pub is_browser_platform: bool,
    pub bundle_mode: bool,
    pub conditions: Vec<String>,
    /// Packages that are newer are not installed.
    pub newest_dependency_date: Option<Timestamp>,
}

/// Where npm packages come from.
#[derive(Clone, Copy, Debug, PartialEq, Eq, Structural)]
pub enum NpmCacheSetting {
    /// Only from the cache.
    Only,
    /// From the cache, or else from the registry.
    Use,
}

/// When npm packages are put in the cache.
#[derive(Clone, Copy, Debug, PartialEq, Eq, Structural)]
pub enum NpmCachingStrategy {
    /// All of them, at once.
    Eager,
    /// Each when it is needed.
    Lazy,
    /// Only when that is asked for.
    Manual,
}

/// The npm packages that may run scripts when they are installed.
#[derive(Clone, Copy, Debug, PartialEq, Eq, Structural)]
pub enum PackagesAllowedScripts {
    All,
    NoPackage,
}

/// Settings of the installer of npm packages.
pub struct InstallerSettings {
    pub cache_setting: NpmCacheSetting,
    pub caching_strategy: NpmCachingStrategy,
    pub lifecycle_scripts: PackagesAllowedScripts,
    pub clean_on_install: bool,
    pub dedup_lockfile_peer_variants: bool,
    pub production: bool,
    pub skip_types: bool,
    pub explicit_install: bool,
}

/// Whether remote files are fetched, and where from.
pub struct FetcherSettings {
    pub allow_remote: bool,
    /// Whether the cache is used.
    pub use_cache: bool,
}

/// A workspace: its settings, and the directory that it was made in.
pub struct DenoWorkspace {
    pub initial_cwd: String,
    pub workspace: WorkspaceSettings,
    pub resolver: ResolverSettings,
    pub installer: InstallerSettings,
    pub fetcher: FetcherSettings,
    /// What the module graph of a loader holds.
    pub graph_kind: GraphKind,
}

/// The names in a list that may be left out.
pub open spec fn listed(list: Option<Vec<String>>) -> Seq<String> {
    match list {
        Some(list) => list@,
        None => Seq::empty(),
    }
}

/// The settings of the workspace itself, given where the configuration file comes
/// from.
pub open spec fn workspace_settings_for(
    options: DenoWorkspaceOptions,
    config_discovery: ConfigDiscovery,
) -> WorkspaceSettings {
    WorkspaceSettings {
        config_discovery,
        is_package_manager_subcommand: false,
        frozen_lockfile: None,
        lock_arg: None,
        lockfile_skip_write: false,
        no_lock: is_set(options.no_lock),
        no_npm: false,
        import_npm_lockfile: false,
        vendor: None,
    }
}

/// Whether these are the settings of the resolver.
pub open spec fn are_resolver_settings(
    options: DenoWorkspaceOptions,
    is_browser_platform: bool,
    settings: ResolverSettings,
) -> bool {
    &&& settings.allow_json_imports == AllowJsonImports::Always
    &&& settings.is_cjs_resolution_mode == IsCjsResolutionMode::ExplicitTypeCommonJs
    &&& settings.node_code_translator_mode == NodeCodeTranslatorMode::Disabled
    &&& settings.source_map_base_is_root
    &&& settings.no_transpile == is_set(options.no_transpile)
    &&& settings.preserve_jsx == is_set(options.preserve_jsx)
    &&& !settings.force_check_js
    &&& settings.force_disable_verbatim_module_syntax
    &&& settings.unstable_sloppy_imports
    &&& settings.is_browser_platform == is_browser_platform
    &&& settings.bundle_mode
    &&& settings.conditions@ == listed(options.node_conditions)
    &&& settings.newest_dependency_date == options.newest_dependency_date
}

/// The settings of the installer.
pub open spec fn installer_settings_for(options: DenoWorkspaceOptions) -> InstallerSettings {
    InstallerSettings {
        cache_setting: if is_set(options.cached_only) {
            NpmCacheSetting::Only
        } else {
            NpmCacheSetting::Use
        },
        caching_strategy: NpmCachingStrategy::Eager,
        lifecycle_scripts: PackagesAllowedScripts::NoPackage,
        clean_on_install: false,
        dedup_lockfile_peer_variants: false,
        production: false,
        skip_types: false,
        explicit_install: false,
    }
}

/// Whether this workspace can be made of the options in the directory `cwd`, or
/// this error say why none can. The platform is looked at before the
/// configuration file.
pub open spec fn makes(
    options: DenoWorkspaceOptions,
    cwd: String,
    outcome: Result<DenoWorkspace, LoaderError>,
) -> bool {
    match browser_platform(crate::host::text_view(options.platform)) {
        None => outcome is Err && outcome->Err_0@ == crate::error::plain_error(
            platform_message(options.platform->0@),
        ),
        Some(browser) => match outcome {
            Ok(made) => {
                &&& is_config_discovery(options, cwd@, Ok(made.workspace.config_discovery))
                &&& made.initial_cwd == cwd
                &&& made.workspace == workspace_settings_for(
                    options,
                    made.workspace.config_discovery,
                )
                &&& are_resolver_settings(options, browser, made.resolver)
                &&& made.installer == installer_settings_for(options)
                &&& made.fetcher == (FetcherSettings { allow_remote: true, use_cache: true })
                &&& made.graph_kind == GraphKind::CodeOnly
            },
            Err(error) => is_config_discovery(options, cwd@, Err(error)),
        },
    }
}

impl DenoWorkspace {
    /// Makes a workspace of options that were read, or not: the message then says
    /// why. `cwd` is the current directory, or why it is not known.
    pub fn new(
        options: Result<DenoWorkspaceOptions, String>,
        cwd: Result<String, LoaderError>,
    ) -> (outcome: Result<DenoWorkspace, LoaderError>)
        ensures
            match options {
                Err(message) => outcome is Err && outcome->Err_0@ == crate::error::in_context(
                    "Failed deserializing workspace options."@,
                    crate::error::plain_error(message@),
                ),
                Ok(options) => match cwd {
                    Err(error) => outcome == Err::<DenoWorkspace, LoaderError>(error),
                    Ok(cwd) => makes(options, cwd, outcome),
                },
            },
    {
        match options {
            Err(message) => Err(
                LoaderError::msg(message).context("Failed deserializing workspace options."),
            ),
            Ok(options) => match cwd {
                Err(error) => Err(error),
                Ok(cwd) => Self::new_inner(options, cwd),
            },
        }
    }

    /// Makes a workspace of its options in the directory `cwd`.
    pub fn new_inner(options: DenoWorkspaceOptions, cwd: String) -> (outcome: Result<
        DenoWorkspace,
        LoaderError,
    >)
        ensures
            makes(options, cwd, outcome),
    {
        let is_browser_platform: bool = match resolve_is_browser_platform(&options) {
            Ok(browser) => browser,
            Err(error) => return Err(error),
        };
        let config_discovery: ConfigDiscovery = match config_discovery(&options, cwd.as_str()) {
            Ok(found) => found,
            Err(error) => return Err(error),
        };
        let workspace = WorkspaceSettings {
            config_discovery,
            is_package_manager_subcommand: false,
            frozen_lockfile: None,
            lock_arg: None,
            lockfile_skip_write: false,
            no_lock: flag(options.no_lock),
            no_npm: false,
            import_npm_lockfile: false,
            vendor: None,
        };
        let installer = InstallerSettings {
            cache_setting: if flag(options.cached_only) {
                NpmCacheSetting::Only
            } else {
                NpmCacheSetting::Use
            },
            caching_strategy: NpmCachingStrategy::Eager,
            lifecycle_scripts: PackagesAllowedScripts::NoPackage,
            clean_on_install: false,
            dedup_lockfile_peer_variants: false,
            production: false,
            skip_types: false,
            explicit_install: false,
        };
        let ghost given = options;
        let resolver = ResolverSettings {
            allow_json_imports: AllowJsonImports::Always,
            is_cjs_resolution_mode: IsCjsResolutionMode::ExplicitTypeCommonJs,
            node_code_translator_mode: NodeCodeTranslatorMode::Disabled,
            source_map_base_is_root: true,
            no_transpile: flag(options.no_transpile),
            preserve_jsx: flag(options.preserve_jsx),
            force_check_js: false,
            force_disable_verbatim_module_syntax: true,
            unstable_sloppy_imports: true,
            is_browser_platform,
            bundle_mode: true,
            conditions: match options.node_conditions {
                Some(conditions) => conditions,
                None => Vec::new(),
            },
            newest_dependency_date: options.newest_dependency_date,
        };
        assert(resolver.conditions@ =~= listed(given.node_conditions));
        Ok(
            DenoWorkspace {
                initial_cwd: cwd,
                workspace,
                resolver,
                installer,
                fetcher: FetcherSettings { allow_remote: true, use_cache: true },
                graph_kind: GraphKind::CodeOnly,
            },
        )
    }

    /// A loader for this workspace. It sees entrypoints from the directory that
    /// the workspace was made in.
    pub fn create_loader(&self) -> (loader: DenoLoader)
        ensures
            loader.initial_cwd == self.initial_cwd,
    {
        DenoLoader { initial_cwd: self.initial_cwd.clone() }
    }
}

/// The system that npm packages are installed for.
pub struct NpmSystemInfo {
    pub os: String,
    pub cpu: String,
}

/// The system that npm packages are installed for, as the JavaScript host gives
/// it.
pub fn npm_system_info(platform: Option<String>, arch: Option<String>) -> (outcome: Result<
    NpmSystemInfo,
    LoaderError,
>)
    ensures
        match platform {
            None => outcome is Err && outcome->Err_0@ == crate::error::plain_error(
                "Could not resolve process.platform global."@,
            ),
            Some(os) => match arch {
                None => outcome is Err && outcome->Err_0@ == crate::error::plain_error(
                    "Could not resolve process.arch global."@,
                ),
                Some(cpu) => outcome == Ok::<NpmSystemInfo, LoaderError>(
                    NpmSystemInfo { os, cpu },
                ),
            },
        },
{
    let os: String = match platform {
        Some(os) => os,
        None => return Err(
            LoaderError::msg("Could not resolve process.platform global.".to_owned()),
        ),
    };
    let cpu: String = match arch {
        Some(cpu) => cpu,
        None => return Err(LoaderError::msg("Could not resolve process.arch global.".to_owned())),
    };
    Ok(NpmSystemInfo { os, cpu })
}

/// Whether two callers ask for the same, where a flag that is left out is not set
/// and a list that is left out is empty.
pub open spec fn ask_the_same(a: DenoWorkspaceOptions, b: DenoWorkspaceOptions) -> bool {
    &&& is_set(a.no_config) == is_set(b.no_config)
    &&& is_set(a.no_lock) == is_set(b.no_lock)
    &&& is_set(a.cached_only) == is_set(b.cached_only)
    &&& is_set(a.preserve_jsx) == is_set(b.preserve_jsx)
    &&& is_set(a.no_transpile) == is_set(b.no_transpile)
    &&& listed(a.node_conditions) == listed(b.node_conditions)
    &&& a.platform == b.platform
    &&& a.config_path == b.config_path
    &&& a.newest_dependency_date == b.newest_dependency_date
}

/// Leaving out a flag is the same as saying that it is not set, and leaving out
/// the conditions the same as giving none.
pub proof fn law_left_out_is_not_set(
    a: DenoWorkspaceOptions,
    b: DenoWorkspaceOptions,
    cwd: String,
    outcome: Result<DenoWorkspace, LoaderError>,
)
    requires
        ask_the_same(a, b),
    ensures
        makes(a, cwd, outcome) <==> makes(b, cwd, outcome),
{
}

/// A path to a configuration file is not even looked at where there is to be
/// none.
pub proof fn law_no_config_overrides_path(
    options: DenoWorkspaceOptions,
    cwd: Seq<char>,
    outcome: Result<ConfigDiscovery, LoaderError>,
)
    requires
        is_set(options.no_config),
        is_config_discovery(options, cwd, outcome),
    ensures
        outcome == Ok::<ConfigDiscovery, LoaderError>(ConfigDiscovery::Disabled),
{
}

/// The first workspace of a process decides how it logs. A second one changes
/// nothing about that, whatever it asks for.
pub proof fn law_first_workspace_decides_logging(
    first: DenoWorkspaceOptions,
    second: DenoWorkspaceOptions,
)
    ensures
        ({
            let before = Logging { logger: None, filter: None };
            let once = crate::logging::offered(before, is_set(first.debug), true);
            &&& once.logger == Some(Logger { debug: is_set(first.debug) })
            &&& first.debug == Some(true) ==> once.filter == Some(
                crate::logging::LevelFilter::Debug,
            )
            &&& first.debug != Some(true) ==> once.filter == Some(
                crate::logging::LevelFilter::Info,
            )
            &&& crate::logging::offered(once, is_set(second.debug), false) == once
        }),
{
}

/// No npm package runs scripts when it is installed, whatever the options are.
pub proof fn law_no_package_runs_scripts(
    options: DenoWorkspaceOptions,
    cwd: String,
    made: DenoWorkspace,
)
    requires
        makes(options, cwd, Ok(made)),
    ensures
        made.installer.lifecycle_scripts == PackagesAllowedScripts::NoPackage,
{
}

/// Whether a workspace was made of these options in this directory, with this
/// outcome.
pub open spec fn was_made(
    options: DenoWorkspaceOptions,
    cwd: String,
    outcome: Result<DenoWorkspace, LoaderError>,
) -> bool {
    ||| call_ensures(DenoWorkspace::new_inner, (options, cwd), outcome)
    ||| call_ensures(
        DenoWorkspace::new,
        (Ok::<DenoWorkspaceOptions, String>(options), Ok::<String, LoaderError>(cwd)),
        outcome,
    )
}

/// Each setting that an option decides is that option: a flag is set exactly when
/// its own option is, the conditions are those that were given, in their order,
/// and so is the date. Modules are resolved for a browser exactly when the
/// platform is one.
pub proof fn law_each_setting_is_its_own_option(
    options: DenoWorkspaceOptions,
    cwd: String,
    made: DenoWorkspace,
)
    requires
        was_made(options, cwd, Ok(made)),
    ensures
        made.resolver.no_transpile <==> options.no_transpile == Some(true),
        made.resolver.preserve_jsx <==> options.preserve_jsx == Some(true),
        made.workspace.no_lock <==> options.no_lock == Some(true),
        made.installer.cache_setting == NpmCacheSetting::Only <==> options.cached_only == Some(
            true,
        ),
        made.installer.cache_setting == NpmCacheSetting::Use <==> options.cached_only != Some(true),
        options.node_conditions matches Some(conditions) ==> made.resolver.conditions@
            == conditions@,
        options.node_conditions is None ==> made.resolver.conditions@.len() == 0,
        made.resolver.newest_dependency_date == options.newest_dependency_date,
        made.resolver.is_browser_platform <==> options.platform is Some && options.platform->0@
            == "browser"@,
        made.initial_cwd == cwd,
{
    reveal_strlit("node");
    reveal_strlit("deno");
    reveal_strlit("browser");
    assert("node"@.len() == 4 && "deno"@.len() == 4 && "browser"@.len() == 7);
}

/// A setting depends on its own option alone: two callers who agree on an option
/// get the same setting for it, whatever else they ask for.
pub proof fn law_settings_do_not_depend_on_other_options(
    a: DenoWorkspaceOptions,
    b: DenoWorkspaceOptions,
    cwd_a: String,
    cwd_b: String,
    made_a: DenoWorkspace,
    made_b: DenoWorkspace,
)
    requires
        was_made(a, cwd_a, Ok(made_a)),
        was_made(b, cwd_b, Ok(made_b)),
    ensures
        (a.no_transpile == Some(true)) == (b.no_transpile == Some(true))
            ==> made_a.resolver.no_transpile == made_b.resolver.no_transpile,
        (a.preserve_jsx == Some(true)) == (b.preserve_jsx == Some(true))
            ==> made_a.resolver.preserve_jsx == made_b.resolver.preserve_jsx,
        (a.no_lock == Some(true)) == (b.no_lock == Some(true)) ==> made_a.workspace.no_lock
            == made_b.workspace.no_lock,
        (a.cached_only == Some(true)) == (b.cached_only == Some(true))
            ==> made_a.installer.cache_setting == made_b.installer.cache_setting,
        a.node_conditions == b.node_conditions ==> made_a.resolver.conditions@
            == made_b.resolver.conditions@,
        a.newest_dependency_date == b.newest_dependency_date
            ==> made_a.resolver.newest_dependency_date == made_b.resolver.newest_dependency_date,
        a.platform == b.platform ==> made_a.resolver.is_browser_platform
            == made_b.resolver.is_browser_platform,
{
}

/// What no option decides is the same for every workspace.
pub proof fn law_fixed_settings(options: DenoWorkspaceOptions, cwd: String, made: DenoWorkspace)
    requires
        was_made(options, cwd, Ok(made)),
    ensures
        !made.workspace.is_package_manager_subcommand,
        made.workspace.frozen_lockfile is None,
        made.workspace.lock_arg is None,
        !made.workspace.lockfile_skip_write,
        !made.workspace.no_npm,
        !made.workspace.import_npm_lockfile,
        made.workspace.vendor is None,
        made.resolver.allow_json_imports == AllowJsonImports::Always,
        made.resolver.is_cjs_resolution_mode == IsCjsResolutionMode::ExplicitTypeCommonJs,
        made.resolver.node_code_translator_mode == NodeCodeTranslatorMode::Disabled,
        made.resolver.source_map_base_is_root,
        !made.resolver.force_check_js,
        made.resolver.force_disable_verbatim_module_syntax,
        made.resolver.unstable_sloppy_imports,
        made.resolver.bundle_mode,
        made.installer.caching_strategy == NpmCachingStrategy::Eager,
        made.installer.lifecycle_scripts == PackagesAllowedScripts::NoPackage,
        !made.installer.clean_on_install,
        !made.installer.dedup_lockfile_peer_variants,
        !made.installer.production,
        !made.installer.skip_types,
        !made.installer.explicit_install,
        made.fetcher.allow_remote,
        made.fetcher.use_cache,
        made.graph_kind == GraphKind::CodeOnly,
{
}

/// The configuration file is not looked for where that is asked, is at the path
/// that was given otherwise, seen from the directory, and is looked for where none
/// was given.
pub proof fn law_where_the_configuration_comes_from(
    options: DenoWorkspaceOptions,
    cwd: String,
    made: DenoWorkspace,
)
    requires
        was_made(options, cwd, Ok(made)),
    ensures
        made.workspace.config_discovery is Disabled <==> options.no_config == Some(true),
        made.workspace.config_discovery is DiscoverCwd <==> options.no_config != Some(true)
            && options.config_path is None,
        made.workspace.config_discovery matches ConfigDiscovery::Path(found) ==> {
            &&& options.config_path is Some
            &&& "file:///"@.is_prefix_of(options.config_path->0@)
                ==> crate::host::is_url_file_path(options.config_path->0@, Ok(found@))
            &&& !"file:///"@.is_prefix_of(options.config_path->0@) ==> exists|taken: Seq<char>|
                #[trigger] crate::host::is_taken_for(options.config_path->0@, taken)
                    && crate::host::is_joined_path(cwd@, taken, found@)
        },
{
    if let ConfigDiscovery::Path(found) = made.workspace.config_discovery {
        let path = options.config_path->0@;
        if !"file:///"@.is_prefix_of(path) {
            let taken = choose|taken: Seq<char>|
                #[trigger] crate::host::is_host_path(path, taken) && crate::host::is_joined_path(
                    cwd@,
                    taken,
                    found@,
                );
            assert(crate::host::is_taken_for(path, taken));
        }
    }
}

/// A workspace is refused for a platform that is none, before the path to the
/// configuration file is looked at, and for a file URL without a path. Nothing
/// else refuses it.
pub proof fn law_why_a_workspace_is_refused(
    options: DenoWorkspaceOptions,
    cwd: String,
    outcome: Result<DenoWorkspace, LoaderError>,
)
    requires
        was_made(options, cwd, outcome),
    ensures
        ({
            let known = options.platform is None || options.platform->0@ == "node"@
                || options.platform->0@ == "deno"@ || options.platform->0@ == "browser"@;
            &&& !known ==> (outcome matches Err(error) && error.graph_error is None
                && error.messages@.len() == 1 && error.messages@[0]@ == "Unknown platform '"@
                + options.platform->0@ + "'"@)
            &&& known && (options.no_config == Some(true) || options.config_path is None
                || !"file:///"@.is_prefix_of(options.config_path->0@)) ==> outcome is Ok
            &&& known ==> (outcome matches Err(error) ==> error.graph_error is None
                && error.messages@.len() == 2 && error.messages@[0]@
                == "Failed resolving config path."@ && crate::host::is_url_file_path(
                options.config_path->0@,
                Err(error.messages@[1]@),
            ))
        }),
{
    reveal_strlit("node");
    reveal_strlit("deno");
    reveal_strlit("browser");
    if let Err(error) = outcome {
        crate::error::lemma_messages(error);
        let known = browser_platform(crate::host::text_view(options.platform)) is Some;
        if known {
            let path = options.config_path->0@;
            let message = choose|message: Seq<char>|
                #[trigger] crate::paths::is_absolute_path(path, cwd@, Err(message)) && error@
                    == crate::error::in_context(
                    "Failed resolving config path."@,
                    crate::error::plain_error(message),
                );
            assert(error@.messages[0] == "Failed resolving config path."@);
            assert(error@.messages[1] == message);
        } else {
            assert(error@.messages[0] == platform_message(options.platform->0@));
        }
    }
}

/// Options that could not be read are refused with why, in the context of the
/// reading, and a directory that is not known with its own error.
pub proof fn law_unreadable_options_are_refused(
    options: Result<DenoWorkspaceOptions, String>,
    cwd: Result<String, LoaderError>,
    outcome: Result<DenoWorkspace, LoaderError>,
)
    requires
        call_ensures(DenoWorkspace::new, (options, cwd), outcome),
    ensures
        options matches Err(message) ==> (outcome matches Err(error) && error.graph_error is None
            && error.messages@.len() == 2 && error.messages@[0]@
            == "Failed deserializing workspace options."@ && error.messages@[1]@ == message@),
        options is Ok ==> (cwd matches Err(error) ==> outcome == Err::<DenoWorkspace, LoaderError>(
            error,
        )),
{
    if let Err(message) = options {
        let error = outcome->Err_0;
        crate::error::lemma_messages(error);
        assert(error@.messages[0] == "Failed deserializing workspace options."@);
        assert(error@.messages[1] == message@);
    }
}

/// A platform is known by its name: `node` and `deno` are no browsers, `browser`
/// is one, and no name at all means none. Every other name is refused.
pub proof fn law_platforms_by_name(
    options: DenoWorkspaceOptions,
    outcome: Result<bool, LoaderError>,
)
    requires
        call_ensures(resolve_is_browser_platform, (&options,), outcome),
    ensures
        options.platform is None ==> outcome == Ok::<bool, LoaderError>(false),
        options.platform matches Some(name) ==> {
            &&& outcome == Ok::<bool, LoaderError>(true) <==> name@ == "browser"@
            &&& outcome == Ok::<bool, LoaderError>(false) <==> name@ == "node"@ || name@
                == "deno"@
        },
{
    reveal_strlit("node");
    reveal_strlit("deno");
    reveal_strlit("browser");
    assert("node"@.len() == 4 && "deno"@.len() == 4 && "browser"@.len() == 7);
}

/// A loader sees entrypoints from the directory that its workspace was made in.
pub proof fn law_loader_has_the_directory(
    options: DenoWorkspaceOptions,
    cwd: String,
    made: DenoWorkspace,
    loader: DenoLoader,
)
    requires
        was_made(options, cwd, Ok(made)),
        call_ensures(DenoWorkspace::create_loader, (&made,), loader),
    ensures
        loader.initial_cwd == cwd,
{
}

/// The system is the one that the host gives. The platform is missed before the
/// architecture is.
pub proof fn law_system_is_the_hosts(
    platform: Option<String>,
    arch: Option<String>,
    outcome: Result<NpmSystemInfo, LoaderError>,
)
    requires
        call_ensures(npm_system_info, (platform, arch), outcome),
    ensures
        outcome is Ok <==> platform is Some && arch is Some,
        outcome matches Ok(info) ==> Some(info.os) == platform && Some(info.cpu) == arch,
        platform is None ==> (outcome matches Err(error) && error.messages@.len() == 1
            && error.messages@[0]@ == "Could not resolve process.platform global."@),
        platform is Some && arch is None ==> (outcome matches Err(error) && error.messages@.len()
            == 1 && error.messages@[0]@ == "Could not resolve process.arch global."@),
{
    if let Err(error) = outcome {
        crate::error::lemma_messages(error);
        if platform is None {
            assert(error@.messages[0] == "Could not resolve process.platform global."@);
        } else {
            assert(error@.messages[0] == "Could not resolve process.arch global."@);
        }
    }
}

/// A workspace is for debugging exactly when that option says so, and the logger
/// that is made for it goes by that.
pub proof fn law_debugging_is_asked_for(
    options: DenoWorkspaceOptions,
    debug: bool,
    logging: Logging,
    accepted: bool,
    logger: Logger,
    after: Logging,
)
    requires
        call_ensures(DenoWorkspaceOptions::is_debug, (&options,), debug),
        call_ensures(DenoWorkspaceOptions::logger, (&options, logging), logger),
        call_ensures(DenoWorkspaceOptions::offer_logger, (&options, logging, accepted), after),
    ensures
        debug <==> options.debug == Some(true),
        logging.logger is None ==> logger.debug == debug,
        logging.logger matches Some(first) ==> logger == first,
        after.logger == Some(logger),
        !accepted ==> after.filter == logging.filter,
        accepted ==> after.filter == Some(
            if options.debug == Some(true) {
                crate::logging::LevelFilter::Debug
            } else {
                crate::logging::LevelFilter::Info
            },
        ),
{
}

/// The configuration file comes from nowhere where that is asked, then from the
/// path that was given, and else from a search. Only a file URL without a path is
/// an error.
pub proof fn law_configuration_discovery(
    options: DenoWorkspaceOptions,
    cwd: &str,
    outcome: Result<ConfigDiscovery, LoaderError>,
)
    requires
        call_ensures(config_discovery, (&options, cwd), outcome),
    ensures
        options.no_config == Some(true) <==> (outcome matches Ok(ConfigDiscovery::Disabled)),
        options.no_config != Some(true) && options.config_path is None <==> (outcome matches Ok(
            ConfigDiscovery::DiscoverCwd,
        )),
        outcome is Err ==> options.config_path is Some && "file:///"@.is_prefix_of(
            options.config_path->0@,
        ),
{
}

} // verus!
