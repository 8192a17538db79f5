//! The configuration model of the host.
//!
//! A configuration document is read into a tree of nodes (`ConfigNode` and the
//! nodes below it), in which every setting the document may leave out is an
//! `Option`.  Resolving a node tree fills in the defaults and yields a `Config`.
use vstd::prelude::*;

verus! {

/// How verbose the logs are.
#[derive(Clone, Copy, Debug, PartialEq, Eq, Structural)]
pub enum LogsLevel {
    Error,
    Warn,
    Info,
    Debug,
    Trace,
}

impl LogsLevel {
    /// The filter directive that selects this level.
    pub open spec fn spec_directive(self) -> Seq<char> {
        match self {
            LogsLevel::Error => "error"@,
            LogsLevel::Warn => "warn"@,
            LogsLevel::Info => "info"@,
            LogsLevel::Debug => "debug"@,
            LogsLevel::Trace => "trace"@,
        }
    }

    /// The filter directive that selects this level: the level's name in lower case.
    pub fn directive(&self) -> (s: &'static str)
        ensures
            s@ == self.spec_directive(),
    {
        match self {
            LogsLevel::Error => "error",
            LogsLevel::Warn => "warn",
            LogsLevel::Info => "info",
            LogsLevel::Debug => "debug",
            LogsLevel::Trace => "trace",
        }
    }
}

impl Default for LogsLevel {
    /// `Info` is the level used when none is chosen.
    fn default() -> (level: Self)
        ensures
            level == LogsLevel::Info,
    {
        LogsLevel::Info
    }
}

/// Settings of the log file.
pub struct FileLogsConfig {
    pub enabled: bool,
    /// The folder of the log files, relative to the folder of the executable.
    pub path: String,
}

/// The mathematical value of a `FileLogsConfig`.
pub struct FileLogsConfigView {
    pub enabled: bool,
    pub path: Seq<char>,
}

impl View for FileLogsConfig {
    type V = FileLogsConfigView;

    open spec fn view(&self) -> FileLogsConfigView {
        FileLogsConfigView { enabled: self.enabled, path: self.path@ }
    }
}

/// The log file settings used when the document gives none.
pub open spec fn default_file_logs() -> FileLogsConfigView {
    FileLogsConfigView { enabled: true, path: "logs"@ }
}

impl Default for FileLogsConfig {
    /// Log files are written, into the folder `logs`.
    fn default() -> (c: Self)
        ensures
            c@ == default_file_logs(),
    {
        FileLogsConfig { enabled: true, path: String::from_str("logs") }
    }
}

/// Settings of the logs.
pub struct LogsConfig {
    pub enabled: bool,
    pub level: LogsLevel,
    pub file: FileLogsConfig,
}

/// The mathematical value of a `LogsConfig`.
pub struct LogsConfigView {
    pub enabled: bool,
    pub level: LogsLevel,
    pub file: FileLogsConfigView,
}

impl View for LogsConfig {
    type V = LogsConfigView;

    open spec fn view(&self) -> LogsConfigView {
        LogsConfigView { enabled: self.enabled, level: self.level, file: self.file@ }
    }
}

/// A file route: the file `file` is served under the URL path `path`.
pub struct FileRouteConfig {
    pub path: String,
    pub file: String,
    pub nest_routes: bool,
}

/// One route of the host.
pub enum RouteConfig {
    /// A single file under a URL path.
    File(FileRouteConfig),
    /// A folder (second field) under a URL path (first field).
    Dir(String, String),
    /// The file served for every request that no other route takes.
    FallbackFile(String),
}

/// The mathematical value of a `RouteConfig`.
pub enum RouteConfigView {
    File { path: Seq<char>, file: Seq<char>, nest_routes: bool },
    Dir { url: Seq<char>, dir: Seq<char> },
    FallbackFile { file: Seq<char> },
}

impl View for RouteConfig {
    type V = RouteConfigView;

    open spec fn view(&self) -> RouteConfigView {
        match self {
            RouteConfig::File(f) => RouteConfigView::File {
                path: f.path@,
                file: f.file@,
                nest_routes: f.nest_routes,
            },
            RouteConfig::Dir(url, dir) => RouteConfigView::Dir { url: url@, dir: dir@ },
            RouteConfig::FallbackFile(file) => RouteConfigView::FallbackFile { file: file@ },
        }
    }
}

/// The views of a sequence of routes.
pub open spec fn routes_view(routes: Seq<RouteConfig>) -> Seq<RouteConfigView> {
    routes.map_values(|r: RouteConfig| r@)
}

/// Settings of the application.
pub struct AppConfig {
    /// The TCP port the host listens on.
    pub port: u16,
    pub routes: Vec<RouteConfig>,
}

/// The mathematical value of an `AppConfig`.
pub struct AppConfigView {
    pub port: u16,
    pub routes: Seq<RouteConfigView>,
}

impl View for AppConfig {
    type V = AppConfigView;

    open spec fn view(&self) -> AppConfigView {
        AppConfigView { port: self.port, routes: routes_view(self.routes@) }
    }
}

/// The port of an `app` node that names none.
pub const DEFAULT_PORT: u16 = 80;

/// The application settings used when the document has no `app` node at all:
/// port 0 and no routes.  (An `app` node without a port gets `DEFAULT_PORT`.)
pub open spec fn default_app() -> AppConfigView {
    AppConfigView { port: 0, routes: Seq::empty() }
}

impl Default for AppConfig {
    /// Port 0 and no routes.
    fn default() -> (c: Self)
        ensures
            c@ == default_app(),
    {
        let routes: Vec<RouteConfig> = Vec::new();
        proof {
            assert(routes_view(routes@) =~= Seq::<RouteConfigView>::empty());
        }
        AppConfig { port: 0, routes }
    }
}

/// The whole configuration.
pub struct Config {
    pub logs: LogsConfig,
    pub app: AppConfig,
}

/// The mathematical value of a `Config`.
pub struct ConfigView {
    pub logs: LogsConfigView,
    pub app: AppConfigView,
}

impl View for Config {
    type V = ConfigView;

    open spec fn view(&self) -> ConfigView {
        ConfigView { logs: self.logs@, app: self.app@ }
    }
}

// ---------------------------------------------------------------------------
// The document as read, before the defaults are filled in.
// ---------------------------------------------------------------------------

/// The `file` node below `logs`: its properties `enabled` and `path`.
pub struct FileLogsNode {
    pub enabled: Option<bool>,
    pub path: Option<String>,
}

/// The `logs` node: its property `enabled` and its children `level` and `file`.
pub struct LogsNode {
    pub enabled: Option<bool>,
    pub level: Option<LogsLevel>,
    pub file: Option<FileLogsNode>,
}

/// The `app` node: its child `port` and its route children.
pub struct AppNode {
    pub port: Option<u16>,
    pub routes: Vec<RouteConfig>,
}

/// The top of the document: its children `logs` and `app`.
pub struct ConfigNode {
    pub logs: Option<LogsNode>,
    pub app: Option<AppNode>,
}

/// The mathematical value of a `FileLogsNode`.
pub struct FileLogsNodeView {
    pub enabled: Option<bool>,
    pub path: Option<Seq<char>>,
}

/// The mathematical value of a `LogsNode`.
pub struct LogsNodeView {
    pub enabled: Option<bool>,
    pub level: Option<LogsLevel>,
    pub file: Option<FileLogsNodeView>,
}

/// The mathematical value of an `AppNode`.
pub struct AppNodeView {
    pub port: Option<u16>,
    pub routes: Seq<RouteConfigView>,
}

/// The mathematical value of a `ConfigNode`.
pub struct ConfigNodeView {
    pub logs: Option<LogsNodeView>,
    pub app: Option<AppNodeView>,
}

impl View for FileLogsNode {
    type V = FileLogsNodeView;

    open spec fn view(&self) -> FileLogsNodeView {
        FileLogsNodeView {
            enabled: self.enabled,
            path: match self.path {
                Some(p) => Some(p@),
                None => None,
            },
        }
    }
}

impl View for LogsNode {
    type V = LogsNodeView;

    open spec fn view(&self) -> LogsNodeView {
        LogsNodeView {
            enabled: self.enabled,
            level: self.level,
            file: match self.file {
                Some(f) => Some(f@),
                None => None,
            },
        }
    }
}

impl View for AppNode {
    type V = AppNodeView;

    open spec fn view(&self) -> AppNodeView {
        AppNodeView { port: self.port, routes: routes_view(self.routes@) }
    }
}

impl View for ConfigNode {
    type V = ConfigNodeView;

    open spec fn view(&self) -> ConfigNodeView {
        ConfigNodeView {
            logs: match self.logs {
                Some(l) => Some(l@),
                None => None,
            },
            app: match self.app {
                Some(a) => Some(a@),
                None => None,
            },
        }
    }
}

/// Why a document does not give a configuration.
#[derive(Clone, Copy, Debug, PartialEq, Eq, Structural)]
pub enum ConfigError {
    /// The `logs` node has no `level` child.
    MissingLogsLevel,
}

/// The log file settings that a `file` node gives.
pub open spec fn resolve_file_logs(n: FileLogsNodeView) -> FileLogsConfigView {
    FileLogsConfigView {
        enabled: match n.enabled {
            Some(b) => b,
            None => true,
        },
        path: match n.path {
            Some(p) => p,
            None => "logs"@,
        },
    }
}

/// The log settings that a `logs` node gives: its `level` is required.
pub open spec fn resolve_logs(n: LogsNodeView) -> Result<LogsConfigView, ConfigError> {
    match n.level {
        None => Err(ConfigError::MissingLogsLevel),
        Some(level) => Ok(
            LogsConfigView {
                enabled: match n.enabled {
                    Some(b) => b,
                    None => true,
                },
                level,
                file: match n.file {
                    Some(f) => resolve_file_logs(f),
                    None => default_file_logs(),
                },
            },
        ),
    }
}

/// The application settings that an `app` node gives.
pub open spec fn resolve_app(n: AppNodeView) -> AppConfigView {
    AppConfigView {
        port: match n.port {
            Some(p) => p,
            None => DEFAULT_PORT,
        },
        routes: n.routes,
    }
}

/// The configuration that a document with a `logs` node gives.  A document
/// without one has no configuration: the default log settings are defined in
/// terms of themselves (`enabled: true` and the rest from the same default),
/// so computing them never ends.
pub open spec fn resolve_config(n: ConfigNodeView) -> Result<ConfigView, ConfigError>
    recommends
        n.logs is Some,
{
    let app = match n.app {
        Some(a) => resolve_app(a),
        None => default_app(),
    };
    match resolve_logs(n.logs->Some_0) {
        Ok(logs) => Ok(ConfigView { logs, app }),
        Err(e) => Err(e),
    }
}

impl FileLogsConfig {
    /// Fills in the defaults of a `file` node: enabled, folder `logs`.
    pub fn from_node(node: FileLogsNode) -> (c: FileLogsConfig)
        ensures
            c@ == resolve_file_logs(node@),
    {
        let enabled = match node.enabled {
            Some(b) => b,
            None => true,
        };
        let path = match node.path {
            Some(p) => p,
            None => String::from_str("logs"),
        };
        FileLogsConfig { enabled, path }
    }
}

impl LogsConfig {
    /// Fills in the defaults of a `logs` node; fails when it names no level.
    pub fn from_node(node: LogsNode) -> (res: Result<LogsConfig, ConfigError>)
        ensures
            match res {
                Ok(c) => resolve_logs(node@) == Ok::<LogsConfigView, ConfigError>(c@),
                Err(e) => resolve_logs(node@) == Err::<LogsConfigView, ConfigError>(e),
            },
    {
        let level = match node.level {
            Some(level) => level,
            None => {
                return Err(ConfigError::MissingLogsLevel);
            },
        };
        let enabled = match node.enabled {
            Some(b) => b,
            None => true,
        };
        let file = match node.file {
            Some(f) => FileLogsConfig::from_node(f),
            None => FileLogsConfig::default(),
        };
        Ok(LogsConfig { enabled, level, file })
    }
}

impl AppConfig {
    /// Fills in the defaults of an `app` node: port `DEFAULT_PORT`.
    pub fn from_node(node: AppNode) -> (c: AppConfig)
        ensures
            c@ == resolve_app(node@),
    {
        let port = match node.port {
            Some(p) => p,
            None => DEFAULT_PORT,
        };
        AppConfig { port, routes: node.routes }
    }
}

impl Config {
    /// Resolves a whole document: a missing `app` node gives the default
    /// application settings.  A document without a `logs` node is left out: its
    /// logs would be the default log settings, whose computation never ends.
    pub fn from_node(node: ConfigNode) -> (res: Result<Config, ConfigError>)
        requires
            node.logs is Some,
        ensures
            match res {
                Ok(c) => resolve_config(node@) == Ok::<ConfigView, ConfigError>(c@),
                Err(e) => resolve_config(node@) == Err::<ConfigView, ConfigError>(e),
            },
    {
        let app = match node.app {
            Some(a) => AppConfig::from_node(a),
            None => AppConfig::default(),
        };
        let logs = match LogsConfig::from_node(node.logs.unwrap()) {
            Ok(c) => c,
            Err(e) => {
                return Err(e);
            },
        };
        Ok(Config { logs, app })
    }
}

/// A `logs` node without a `level` child makes the whole document fail, whatever else it holds.
pub proof fn law_logs_level_required(n: ConfigNodeView)
    requires
        n.logs matches Some(l) && l.level is None,
    ensures
        resolve_config(n) == Err::<ConfigView, ConfigError>(ConfigError::MissingLogsLevel),
{
}

/// Every setting the document gives is kept as given.
pub proof fn law_given_settings_kept(n: ConfigNodeView)
    requires
        n.logs is Some,
        resolve_config(n) is Ok,
    ensures
        n.logs matches Some(l) ==> resolve_config(n)->Ok_0.logs.level == l.level->Some_0,
        n.logs matches Some(l) ==> (l.enabled matches Some(b) ==> resolve_config(n)->Ok_0.logs.enabled
            == b),
        n.logs matches Some(l) ==> (l.file matches Some(f) ==> (f.enabled matches Some(b)
            ==> resolve_config(n)->Ok_0.logs.file.enabled == b)),
        n.logs matches Some(l) ==> (l.file matches Some(f) ==> (f.path matches Some(p)
            ==> resolve_config(n)->Ok_0.logs.file.path == p)),
        n.app matches Some(a) ==> (a.port matches Some(p) ==> resolve_config(n)->Ok_0.app.port == p),
        n.app matches Some(a) ==> resolve_config(n)->Ok_0.app.routes == a.routes,
{
}

/// An `app` node without a port listens on `DEFAULT_PORT`; without an `app`
/// node at all the port is 0.
pub proof fn law_port_defaults(n: ConfigNodeView)
    requires
        n.logs is Some,
        resolve_config(n) is Ok,
    ensures
        n.app matches Some(a) ==> (a.port is None ==> resolve_config(n)->Ok_0.app.port == DEFAULT_PORT),
        n.app is None ==> resolve_config(n)->Ok_0.app.port == 0,
{
}

/// A `file` node without an `enabled` property turns the log file on, whatever
/// folder it names; without a `path` the folder is `logs`; given values are kept.
pub proof fn law_file_logs_node_defaults(n: FileLogsNodeView)
    ensures
        n.enabled is None ==> resolve_file_logs(n).enabled == true,
        n.enabled is Some ==> resolve_file_logs(n).enabled == n.enabled->Some_0,
        n.path is None ==> resolve_file_logs(n).path == "logs"@,
        n.path is Some ==> resolve_file_logs(n).path == n.path->Some_0,
{
}

/// A `logs` node with a level resolves; without an `enabled` property logging
/// is on, whatever its `file` child says; without a `file` child the log file is
/// on, in the folder `logs`.
pub proof fn law_logs_node_defaults(n: LogsNodeView)
    requires
        n.level is Some,
    ensures
        resolve_logs(n) is Ok,
        resolve_logs(n)->Ok_0.level == n.level->Some_0,
        n.enabled is None ==> resolve_logs(n)->Ok_0.enabled == true,
        n.enabled is Some ==> resolve_logs(n)->Ok_0.enabled == n.enabled->Some_0,
        n.file is None ==> resolve_logs(n)->Ok_0.file.enabled == true,
        n.file is None ==> resolve_logs(n)->Ok_0.file.path == "logs"@,
{
}

/// In a whole document whose `logs` node has a level: logging is on unless the
/// node says otherwise, and without a `file` child the log file is on, in the
/// folder `logs`; the document fails exactly when the level is missing.
pub proof fn law_document_logs_defaults(n: ConfigNodeView)
    requires
        n.logs is Some,
    ensures
        (resolve_config(n) is Ok) == (n.logs->Some_0.level is Some),
        n.logs->Some_0.level is Some ==> resolve_config(n)->Ok_0.logs.level
            == n.logs->Some_0.level->Some_0,
        n.logs->Some_0.level is Some && n.logs->Some_0.enabled is None
            ==> resolve_config(n)->Ok_0.logs.enabled == true,
        n.logs->Some_0.level is Some && n.logs->Some_0.file is None
            ==> resolve_config(n)->Ok_0.logs.file.enabled == true,
        n.logs->Some_0.level is Some && n.logs->Some_0.file is None
            ==> resolve_config(n)->Ok_0.logs.file.path == "logs"@,
        n.logs->Some_0.level is Some && n.logs->Some_0.file is Some && n.logs->Some_0.file->Some_0.enabled is None
            ==> resolve_config(n)->Ok_0.logs.file.enabled == true,
{
}

} // verus!
