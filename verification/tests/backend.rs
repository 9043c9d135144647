use rpxy::backend::{BackendApp, BackendAppBuilder, BackendAppManager, PathManager, to_server_name};
use rpxy::config::{
    AppConfig, AppConfigList, AppTlsConfig, Application, Apps, ConfigToml, ReverseProxyOption, build_settings,
};
use rpxy::error::{BackendAppField, RpxyError};

fn app_config(app_name: &str, server_name: &str, tls: Option<AppTlsConfig>) -> AppConfig {
    AppConfig {
        app_name: app_name.to_string(),
        server_name: server_name.to_string(),
        tls,
        reverse_proxy: vec![ReverseProxyOption { path: None, upstream: vec!["localhost:8080".to_string()] }],
    }
}

fn manager(configs: Vec<AppConfig>, default_app: Option<&str>) -> BackendAppManager {
    let list = AppConfigList { inner: configs, default_app: default_app.map(|s| s.to_string()) };
    BackendAppManager::try_from(&list).unwrap()
}

#[test]
fn server_names_are_lower_case() {
    assert_eq!(to_server_name("WWW.Example.COM").as_str(), "www.example.com");
    assert_eq!(to_server_name("ÄB.example").as_str(), "Äb.example");
}

#[test]
fn builder_needs_every_required_field() {
    let mut b = BackendAppBuilder::new();
    assert!(matches!(b.build(), Err(RpxyError::BuildBackendApp(BackendAppField::AppName))));
    b.app_name("app1".to_string());
    assert!(matches!(b.build(), Err(RpxyError::BuildBackendApp(BackendAppField::ServerName))));
    b.server_name("Example.com");
    assert!(matches!(b.build(), Err(RpxyError::BuildBackendApp(BackendAppField::PathManager))));
    b.path_manager(PathManager { routes: Vec::new() });
    let app = b.build().unwrap();
    assert_eq!(app.app_name, "app1");
    assert_eq!(app.server_name.as_str(), "example.com");
    assert_eq!(app.https_redirection, None);
    assert_eq!(app.mutual_tls, None);
}

#[test]
fn backend_app_from_settings() {
    let plain = BackendApp::try_from(&app_config("app1", "Example.com", None)).unwrap();
    assert_eq!(plain.server_name.as_str(), "example.com");
    assert_eq!(plain.https_redirection, None);
    assert_eq!(plain.path_manager.routes.len(), 1);
    assert_eq!(plain.path_manager.routes[0].upstream, vec!["localhost:8080"]);
    let tls = AppTlsConfig { https_redirection: true, mutual_tls: false };
    let secure = BackendApp::try_from(&app_config("app2", "b.example.com", Some(tls))).unwrap();
    assert_eq!(secure.https_redirection, Some(true));
    assert_eq!(secure.mutual_tls, Some(false));
}

#[test]
fn exact_match_wins_over_wildcard() {
    let m = manager(
        vec![app_config("wild", "*.example.com", None), app_config("exact", "www.example.com", None)],
        None,
    );
    assert_eq!(m.find_app(&to_server_name("WWW.example.com")).unwrap().app_name, "exact");
    assert_eq!(m.find_app(&to_server_name("api.example.com")).unwrap().app_name, "wild");
}

#[test]
fn unknown_name_finds_nothing() {
    let m = manager(vec![app_config("wild", "*.example.com", None)], None);
    assert!(m.find_app(&to_server_name("example.org")).is_none());
    assert!(m.find_app(&to_server_name("example.com")).is_none());
}

#[test]
fn invalid_wildcard_is_skipped() {
    let m = manager(vec![app_config("bad", "*.\\example.com", None)], None);
    assert!(m.find_app(&to_server_name("a.\\example.com")).is_none());
    assert!(m.find_app(&to_server_name("*.\\example.com")).is_some());
}

#[test]
fn later_settings_replace_earlier_ones() {
    let m = manager(vec![app_config("first", "a.example.com", None), app_config("second", "A.example.com", None)], None);
    assert_eq!(m.find_app(&to_server_name("a.example.com")).unwrap().app_name, "second");
}

#[test]
fn default_server_name_of_default_app() {
    let m = manager(
        vec![app_config("app1", "a.example.com", None), app_config("app2", "B.example.com", None)],
        Some("app2"),
    );
    assert_eq!(m.default_server_name().unwrap().as_str(), "b.example.com");
}

#[test]
fn unknown_default_app_gives_no_default() {
    let m = manager(vec![app_config("app1", "a.example.com", None)], Some("other"));
    assert!(m.default_server_name().is_none());
    let n = manager(vec![app_config("app1", "a.example.com", None)], None);
    assert!(n.default_server_name().is_none());
}

#[test]
fn empty_manager_finds_nothing() {
    let m = BackendAppManager::default();
    assert!(m.find_app(&to_server_name("example.com")).is_none());
    assert!(m.default_server_name().is_none());
}

#[test]
fn server_name_lowercasing_is_idempotent() {
    let once = to_server_name("Api.Example.COM");
    let twice = to_server_name(once.as_str());
    assert_eq!(once.as_str(), twice.as_str());
}

#[test]
fn every_configured_app_is_found_by_its_server_name() {
    let apps = vec![
        ("app1".to_string(), Application { server_name: Some("A.example.com".to_string()), tls: None, reverse_proxy: Vec::new() }),
        ("app2".to_string(), Application { server_name: Some("*.example.org".to_string()), tls: None, reverse_proxy: Vec::new() }),
    ];
    let config = ConfigToml {
        listen_port: Some(80),
        listen_port_tls: None,
        apps: Some(Apps(apps)),
        default_app: Some("app2".to_string()),
        experimental: None,
        data_dir: None,
    };
    let (_, list) = build_settings(&config).unwrap();
    let m = BackendAppManager::try_from(&list).unwrap();
    assert_eq!(m.find_app(&to_server_name("a.example.com")).unwrap().app_name, "app1");
    assert_eq!(m.find_app(&to_server_name("*.example.org")).unwrap().app_name, "app2");
    assert_eq!(m.find_app(&to_server_name("www.example.org")).unwrap().app_name, "app2");
    assert_eq!(m.default_server_name().unwrap().as_str(), "*.example.org");
}
