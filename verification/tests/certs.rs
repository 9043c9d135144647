use rpxy::acme::build_acme_manager;
use rpxy::certs::build_cert_manager;
use rpxy::config::{AcmeOption, Application, Apps, ConfigToml, Experimental, TlsOption};
use rpxy::error::ConfigError;

fn file_tls(cert: &str, key: &str, ca: Option<&str>) -> TlsOption {
    TlsOption {
        tls_cert_path: Some(cert.to_string()),
        tls_cert_key_path: Some(key.to_string()),
        client_ca_cert_path: ca.map(|s| s.to_string()),
        https_redirection: None,
        acme: Some(false),
    }
}

fn acme_tls() -> TlsOption {
    TlsOption {
        tls_cert_path: None,
        tls_cert_key_path: None,
        client_ca_cert_path: None,
        https_redirection: None,
        acme: Some(true),
    }
}

fn app(server_name: Option<&str>, tls: Option<TlsOption>) -> Application {
    Application { server_name: server_name.map(|s| s.to_string()), tls, reverse_proxy: Vec::new() }
}

fn config(apps: Option<Vec<(String, Application)>>, tls_port: Option<u16>) -> ConfigToml {
    ConfigToml {
        listen_port: Some(80),
        listen_port_tls: tls_port,
        apps: apps.map(Apps),
        default_app: None,
        experimental: None,
        data_dir: None,
    }
}

fn acme(dir_url: Option<&str>) -> Option<Experimental> {
    Some(Experimental {
        acme: Some(AcmeOption {
            dir_url: dir_url.map(|s| s.to_string()),
            email: "admin@example.com".to_string(),
            registry_path: None,
        }),
    })
}

#[test]
fn cert_sources_need_apps() {
    assert!(matches!(build_cert_manager(&config(None, Some(443))), Err(ConfigError::NoApps)));
}

#[test]
fn no_tls_port_no_cert_sources() {
    let apps = vec![("app1".to_string(), app(Some("example.com"), Some(file_tls("/c", "/k", None))))];
    assert!(matches!(build_cert_manager(&config(Some(apps), None)), Ok(None)));
}

#[test]
fn cert_sources_by_server_name() {
    let apps = vec![
        ("app1".to_string(), app(Some("a.example.com"), Some(file_tls("/a/c", "/a/k", Some("/ca"))))),
        ("app2".to_string(), app(Some("b.example.com"), None)),
        ("app3".to_string(), app(None, None)),
    ];
    let map = build_cert_manager(&config(Some(apps), Some(443))).unwrap().unwrap();
    let a = map.get("a.example.com").unwrap();
    assert_eq!(a.tls_cert_path, "/a/c");
    assert_eq!(a.tls_cert_key_path, "/a/k");
    assert_eq!(a.client_ca_cert_path.as_deref(), Some("/ca"));
    assert!(map.get("b.example.com").is_none());
}

#[test]
fn later_app_replaces_cert_source() {
    let apps = vec![
        ("app1".to_string(), app(Some("a.example.com"), Some(file_tls("/1/c", "/1/k", None)))),
        ("app2".to_string(), app(Some("a.example.com"), Some(file_tls("/2/c", "/2/k", None)))),
    ];
    let map = build_cert_manager(&config(Some(apps), Some(443))).unwrap().unwrap();
    assert_eq!(map.get("a.example.com").unwrap().tls_cert_path, "/2/c");
}

#[test]
fn tls_app_needs_server_name() {
    let apps = vec![("app1".to_string(), app(None, Some(file_tls("/c", "/k", None))))];
    assert!(matches!(build_cert_manager(&config(Some(apps), Some(443))), Err(ConfigError::NoServerName)));
}

#[test]
fn acme_cert_sources_need_data_dir() {
    let apps = vec![("app1".to_string(), app(Some("a.example.com"), Some(acme_tls())))];
    let mut c = config(Some(apps), Some(443));
    c.experimental = acme(None);
    assert!(matches!(build_cert_manager(&c), Err(ConfigError::MissingDataDir)));
}

#[test]
fn acme_cert_sources_need_acme_configured() {
    let apps = vec![("app1".to_string(), app(Some("a.example.com"), Some(acme_tls())))];
    let mut c = config(Some(apps), Some(443));
    c.data_dir = Some("/var/lib/rpxy".to_string());
    assert!(matches!(build_cert_manager(&c), Err(ConfigError::InvalidAcmeTlsOption)));
}

#[test]
fn acme_certificates_are_read_where_acme_caches_them() {
    let apps = vec![
        ("app1".to_string(), app(Some("A.example.com"), Some(acme_tls()))),
        ("app2".to_string(), app(Some("b.example.com"), Some(file_tls("/b/c", "/b/k", None)))),
    ];
    let mut c = config(Some(apps), Some(443));
    c.experimental = acme(Some("https://ACME.example.org/dir"));
    c.data_dir = Some("/var/lib/rpxy".to_string());
    let map = build_cert_manager(&c).unwrap().unwrap();
    let params = build_acme_manager(&c).unwrap().unwrap();
    let expected_dir = format!("{}/a.example.com/", params.registry_path);
    let a = map.get("A.example.com").unwrap();
    assert!(a.tls_cert_path.starts_with(&expected_dir));
    assert_eq!(a.tls_cert_path, a.tls_cert_key_path);
    let file = rpxy::acme::cached_cert_file_name(&["a.example.com".to_string()], "https://acme.example.org/dir");
    assert_eq!(a.tls_cert_path, format!("{}{}", expected_dir, file));
    assert_eq!(params.domains, vec!["A.example.com"]);
    assert_eq!(map.get("b.example.com").unwrap().tls_cert_path, "/b/c");
}

#[test]
fn missing_certificate_path_is_refused() {
    let mut broken = file_tls("/c", "/k", None);
    broken.tls_cert_key_path = None;
    let apps = vec![("app1".to_string(), app(Some("a.example.com"), Some(broken)))];
    assert!(matches!(
        build_cert_manager(&config(Some(apps), Some(443))),
        Err(ConfigError::MissingCertificatePath)
    ));
}

#[test]
fn earlier_refusal_comes_before_missing_certificate_path() {
    let mut broken = file_tls("/c", "/k", None);
    broken.tls_cert_path = None;
    let apps = vec![
        ("app1".to_string(), app(None, Some(file_tls("/c", "/k", None)))),
        ("app2".to_string(), app(Some("b.example.com"), Some(broken))),
    ];
    let c = config(Some(apps), Some(443));
    assert!(matches!(build_cert_manager(&c), Err(ConfigError::NoServerName)));
}
