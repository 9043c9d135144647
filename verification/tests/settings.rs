use rpxy::config::{
    AppTlsConfig, Application, Apps, ConfigToml, ProxyConfig, ReverseProxyOption, TlsOption,
    build_settings,
};
use rpxy::error::ConfigError;
use rpxy::opts::Opts;

fn tls(https_redirection: Option<bool>, client_ca: Option<&str>) -> TlsOption {
    TlsOption {
        tls_cert_path: Some("/certs/cert.pem".to_string()),
        tls_cert_key_path: Some("/certs/key.pem".to_string()),
        client_ca_cert_path: client_ca.map(|s| s.to_string()),
        https_redirection,
        acme: None,
    }
}

fn app(server_name: Option<&str>, tls: Option<TlsOption>) -> Application {
    Application {
        server_name: server_name.map(|s| s.to_string()),
        tls,
        reverse_proxy: vec![ReverseProxyOption {
            path: Some("/api".to_string()),
            upstream: vec!["127.0.0.1:8080".to_string(), "127.0.0.1:8081".to_string()],
        }],
    }
}

fn config(apps: Option<Vec<(String, Application)>>) -> ConfigToml {
    ConfigToml {
        listen_port: Some(8080),
        listen_port_tls: Some(8443),
        apps: apps.map(Apps),
        default_app: Some("app1".to_string()),
        experimental: None,
        data_dir: None,
    }
}

#[test]
fn settings_need_apps() {
    assert!(matches!(build_settings(&config(None)), Err(ConfigError::NoApps)));
}

#[test]
fn settings_need_server_names() {
    let apps = vec![
        ("app1".to_string(), app(Some("example.com"), None)),
        ("app2".to_string(), app(None, None)),
    ];
    assert!(matches!(build_settings(&config(Some(apps))), Err(ConfigError::NoServerName)));
}

#[test]
fn settings_follow_the_apps_table() {
    let apps = vec![
        ("app1".to_string(), app(Some("Example.com"), None)),
        ("app2".to_string(), app(Some("b.example.com"), Some(tls(None, Some("/ca.pem"))))),
        ("app3".to_string(), app(Some("c.example.com"), Some(tls(Some(false), None)))),
    ];
    let (proxy, list) = build_settings(&config(Some(apps))).unwrap();
    assert_eq!(proxy, ProxyConfig { http_port: Some(8080), https_port: Some(8443) });
    assert_eq!(list.default_app.as_deref(), Some("app1"));
    assert_eq!(list.inner.len(), 3);
    assert_eq!(list.inner[0].app_name, "app1");
    assert_eq!(list.inner[0].server_name, "Example.com");
    assert_eq!(list.inner[0].tls, None);
    assert_eq!(list.inner[0].reverse_proxy.len(), 1);
    assert_eq!(list.inner[0].reverse_proxy[0].path.as_deref(), Some("/api"));
    assert_eq!(list.inner[0].reverse_proxy[0].upstream, vec!["127.0.0.1:8080", "127.0.0.1:8081"]);
    assert_eq!(
        list.inner[1].tls,
        Some(AppTlsConfig { https_redirection: true, mutual_tls: true })
    );
    assert_eq!(
        list.inner[2].tls,
        Some(AppTlsConfig { https_redirection: false, mutual_tls: false })
    );
}

#[test]
fn opts_hold_paths() {
    let opts = Opts { config_file_path: "./config.toml".to_string(), log_dir_path: None };
    assert_eq!(opts.config_file_path, "./config.toml");
    assert!(opts.log_dir_path.is_none());
}

#[test]
fn refusals_carry_their_messages() {
    assert_eq!(ConfigError::NoApps.message(), "No apps");
    assert_eq!(ConfigError::NoServerName.message(), "No server name");
    assert_eq!(
        ConfigError::MissingDataDir.message(),
        "ACME is enabled but 'data_dir' is not set. Please add to your config:\n  data_dir = \"/var/lib/rpxy\""
    );
    assert!(ConfigError::InvalidAcmeTlsOption.message().starts_with("Condition failed: "));
    assert!(ConfigError::MissingCertificatePath.message().contains("tls_cert_key_path"));
}
