use runeweb::config::{
    AppConfig, AppNode, Config, ConfigError, ConfigNode, FileLogsConfig, FileLogsNode, FileRouteConfig,
    LogsConfig, LogsLevel, LogsNode, RouteConfig, DEFAULT_PORT,
};

fn logs_node(level: Option<LogsLevel>) -> LogsNode {
    LogsNode { enabled: None, level, file: None }
}

#[test]
fn logs_level_default_is_info() {
    assert_eq!(LogsLevel::default(), LogsLevel::Info);
}

#[test]
fn logs_level_directives() {
    assert_eq!(LogsLevel::Error.directive(), "error");
    assert_eq!(LogsLevel::Warn.directive(), "warn");
    assert_eq!(LogsLevel::Info.directive(), "info");
    assert_eq!(LogsLevel::Debug.directive(), "debug");
    assert_eq!(LogsLevel::Trace.directive(), "trace");
}

#[test]
fn file_logs_default() {
    let c = FileLogsConfig::default();
    assert!(c.enabled);
    assert_eq!(c.path, "logs");
}

#[test]
fn app_default_has_port_zero_and_no_routes() {
    let c = AppConfig::default();
    assert_eq!(c.port, 0);
    assert!(c.routes.is_empty());
}

#[test]
fn logs_node_without_level_is_refused() {
    let res = Config::from_node(ConfigNode { logs: Some(logs_node(None)), app: None });
    assert_eq!(res.err(), Some(ConfigError::MissingLogsLevel));
    let res = LogsConfig::from_node(logs_node(None));
    assert_eq!(res.err(), Some(ConfigError::MissingLogsLevel));
}

#[test]
fn logs_node_with_level_only() {
    let c = LogsConfig::from_node(logs_node(Some(LogsLevel::Trace))).unwrap();
    assert!(c.enabled);
    assert_eq!(c.level, LogsLevel::Trace);
    assert!(c.file.enabled);
    assert_eq!(c.file.path, "logs");
}

#[test]
fn logs_node_settings_are_kept() {
    let node = LogsNode {
        enabled: Some(false),
        level: Some(LogsLevel::Warn),
        file: Some(FileLogsNode { enabled: Some(false), path: Some(String::from("var/log")) }),
    };
    let c = LogsConfig::from_node(node).unwrap();
    assert!(!c.enabled);
    assert_eq!(c.level, LogsLevel::Warn);
    assert!(!c.file.enabled);
    assert_eq!(c.file.path, "var/log");
}

#[test]
fn file_node_defaults() {
    let c = FileLogsConfig::from_node(FileLogsNode { enabled: None, path: None });
    assert!(c.enabled);
    assert_eq!(c.path, "logs");
    let c = FileLogsConfig::from_node(FileLogsNode { enabled: Some(false), path: None });
    assert!(!c.enabled);
    assert_eq!(c.path, "logs");
}

#[test]
fn no_app_node_gives_port_zero() {
    let c = Config::from_node(ConfigNode { logs: Some(logs_node(Some(LogsLevel::Info))), app: None })
        .unwrap();
    assert_eq!(c.app.port, 0);
    assert!(c.app.routes.is_empty());
    assert!(c.logs.enabled);
    assert_eq!(c.logs.file.path, "logs");
}

#[test]
fn app_node_without_port_listens_on_80() {
    assert_eq!(DEFAULT_PORT, 80);
    let c = AppConfig::from_node(AppNode { port: None, routes: Vec::new() });
    assert_eq!(c.port, 80);
    let c = Config::from_node(ConfigNode {
        logs: Some(logs_node(Some(LogsLevel::Error))),
        app: Some(AppNode { port: None, routes: Vec::new() }),
    })
    .unwrap();
    assert_eq!(c.app.port, 80);
}

#[test]
fn app_node_port_and_routes_kept() {
    let routes = vec![
        RouteConfig::File(FileRouteConfig {
            path: String::from("/"),
            file: String::from("index.html"),
            nest_routes: false,
        }),
        RouteConfig::Dir(String::from("/static"), String::from("static")),
        RouteConfig::FallbackFile(String::from("404.html")),
    ];
    let c = Config::from_node(ConfigNode {
        logs: Some(logs_node(Some(LogsLevel::Debug))),
        app: Some(AppNode { port: Some(8080), routes }),
    })
    .unwrap();
    assert_eq!(c.app.port, 8080);
    assert_eq!(c.logs.level, LogsLevel::Debug);
    assert_eq!(c.app.routes.len(), 3);
    match &c.app.routes[1] {
        RouteConfig::Dir(url, dir) => {
            assert_eq!(url, "/static");
            assert_eq!(dir, "static");
        }
        _ => panic!("expected a folder route"),
    }
}
