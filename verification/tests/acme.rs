use rpxy::acme::{ACME_DIR_URL, build_acme_manager, build_tls_for_app_acme, cached_cert_file_name};
use rpxy::config::{AcmeOption, Application, Apps, ConfigToml, Experimental, TlsOption};
use rpxy::error::{ConfigError, RpxyAcmeError};

fn acme_tls() -> TlsOption {
    TlsOption {
        tls_cert_path: None,
        tls_cert_key_path: None,
        client_ca_cert_path: None,
        https_redirection: None,
        acme: Some(true),
    }
}

fn file_tls() -> TlsOption {
    TlsOption {
        tls_cert_path: Some("/certs/cert.pem".to_string()),
        tls_cert_key_path: Some("/certs/key.pem".to_string()),
        client_ca_cert_path: None,
        https_redirection: None,
        acme: None,
    }
}

fn acme_option(registry_path: Option<&str>) -> AcmeOption {
    AcmeOption {
        dir_url: None,
        email: "admin@example.com".to_string(),
        registry_path: registry_path.map(|s| s.to_string()),
    }
}

fn app(server_name: &str, tls: Option<TlsOption>) -> Application {
    Application { server_name: Some(server_name.to_string()), tls, reverse_proxy: Vec::new() }
}

fn config(apps: Vec<(String, Application)>, acme: Option<AcmeOption>, data_dir: Option<&str>) -> ConfigToml {
    ConfigToml {
        listen_port: Some(80),
        listen_port_tls: Some(443),
        apps: Some(Apps(apps)),
        default_app: None,
        experimental: Some(Experimental { acme }),
        data_dir: data_dir.map(|s| s.to_string()),
    }
}

#[test]
fn cached_file_name_of_one_domain() {
    let name = cached_cert_file_name(&["example.com".to_string()], ACME_DIR_URL);
    assert_eq!(name, "cached_cert_2-w_70b_GHdFgFLxy7udLGXY74N-P22LlF_qyJFqoQg");
}

#[test]
fn cached_file_name_of_two_domains() {
    let name = cached_cert_file_name(
        &["a.example.com".to_string(), "b.example.com".to_string()],
        "https://acme-staging-v02.api.letsencrypt.org/directory",
    );
    assert_eq!(name, "cached_cert_A9sWPiFdGTqcw_jCPE_j58xD7OPS_rZWZL3zAcJ1PKw");
}

#[test]
fn cached_file_name_of_nothing() {
    assert_eq!(cached_cert_file_name(&[], ""), "cached_cert_47DEQpj8HBSa-_TImW-5JCeuQeRkm5NMpJWZG3hSuFU");
}

#[test]
fn acme_app_reads_from_cache() {
    let mut tls = acme_tls();
    let r = build_tls_for_app_acme(
        &mut tls,
        &Some(acme_option(None)),
        "Example.COM",
        "/var/lib/rpxy/acme",
        "HTTPS://acme-v02.api.letsencrypt.org/directory",
    );
    assert!(r.is_ok());
    let expected = "/var/lib/rpxy/acme/example.com/cached_cert_2-w_70b_GHdFgFLxy7udLGXY74N-P22LlF_qyJFqoQg";
    assert_eq!(tls.tls_cert_path.as_deref(), Some(expected));
    assert_eq!(tls.tls_cert_key_path.as_deref(), Some(expected));
    assert_eq!(tls.acme, Some(true));
}

#[test]
fn non_acme_app_is_left_alone() {
    let mut tls = file_tls();
    assert!(build_tls_for_app_acme(&mut tls, &None, "example.com", "", ACME_DIR_URL).is_ok());
    assert_eq!(tls.tls_cert_path.as_deref(), Some("/certs/cert.pem"));
    assert_eq!(tls.tls_cert_key_path.as_deref(), Some("/certs/key.pem"));
}

#[test]
fn acme_app_needs_acme_configured() {
    let mut tls = acme_tls();
    let r = build_tls_for_app_acme(&mut tls, &None, "example.com", "/r", ACME_DIR_URL);
    assert!(matches!(r, Err(ConfigError::InvalidAcmeTlsOption)));
    assert!(tls.tls_cert_path.is_none());
}

#[test]
fn acme_app_must_not_name_its_own_certificate() {
    let mut tls = acme_tls();
    tls.tls_cert_path = Some("/certs/cert.pem".to_string());
    let r = build_tls_for_app_acme(&mut tls, &Some(acme_option(None)), "example.com", "/r", ACME_DIR_URL);
    assert!(matches!(r, Err(ConfigError::InvalidAcmeTlsOption)));
    assert_eq!(tls.tls_cert_path.as_deref(), Some("/certs/cert.pem"));
    assert!(tls.tls_cert_key_path.is_none());
}

#[test]
fn acme_manager_not_needed_without_acme() {
    let c = config(vec![("app1".to_string(), app("example.com", Some(acme_tls())))], None, None);
    assert!(matches!(build_acme_manager(&c), Ok(None)));
}

#[test]
fn acme_manager_not_needed_without_acme_apps() {
    let c = config(
        vec![("app1".to_string(), app("example.com", Some(file_tls())))],
        Some(acme_option(None)),
        None,
    );
    assert!(matches!(build_acme_manager(&c), Ok(None)));
}

#[test]
fn acme_manager_needs_data_dir() {
    let c = config(
        vec![("app1".to_string(), app("example.com", Some(acme_tls())))],
        Some(acme_option(None)),
        None,
    );
    assert!(matches!(build_acme_manager(&c), Err(ConfigError::MissingDataDir)));
}

#[test]
fn acme_manager_parameters() {
    let c = config(
        vec![
            ("app1".to_string(), app("a.example.com", Some(acme_tls()))),
            ("app2".to_string(), app("b.example.com", Some(file_tls()))),
            ("app3".to_string(), app("c.example.com", None)),
            ("app4".to_string(), app("D.example.com", Some(acme_tls()))),
        ],
        Some(acme_option(Some("registry"))),
        Some("/var/lib/rpxy"),
    );
    let p = build_acme_manager(&c).unwrap().unwrap();
    assert_eq!(p.dir_url, None);
    assert_eq!(p.registry_path, "/var/lib/rpxy/registry");
    assert_eq!(p.emails, vec!["admin@example.com"]);
    assert_eq!(p.domains, vec!["a.example.com", "D.example.com"]);
}

#[test]
fn acme_manager_absolute_registry() {
    let mut acme = acme_option(Some("/srv/acme"));
    acme.dir_url = Some("https://ca.example.org/dir".to_string());
    let c = config(
        vec![("app1".to_string(), app("a.example.com", Some(acme_tls())))],
        Some(acme),
        Some("/var/lib/rpxy"),
    );
    let p = build_acme_manager(&c).unwrap().unwrap();
    assert_eq!(p.dir_url.as_deref(), Some("https://ca.example.org/dir"));
    assert_eq!(p.registry_path, "/srv/acme");
}

#[test]
fn acme_error_variants() {
    let e = RpxyAcmeError::WritePermissionDenied {
        domain: "example.com".to_string(),
        path: "/var/lib/rpxy".to_string(),
        source: std::io::Error::new(std::io::ErrorKind::PermissionDenied, "denied"),
    };
    assert!(matches!(e, RpxyAcmeError::WritePermissionDenied { .. }));
    let u = RpxyAcmeError::InvalidUrl(url::ParseError::EmptyHost);
    assert!(matches!(u, RpxyAcmeError::InvalidUrl(url::ParseError::EmptyHost)));
}

#[test]
fn acme_manager_needs_apps() {
    let mut c = config(Vec::new(), Some(acme_option(None)), Some("/var/lib/rpxy"));
    c.apps = None;
    assert!(matches!(build_acme_manager(&c), Err(ConfigError::NoApps)));
}

#[test]
fn acme_app_needs_server_name() {
    let nameless = Application { server_name: None, tls: Some(acme_tls()), reverse_proxy: Vec::new() };
    let c = config(
        vec![
            ("app1".to_string(), app("a.example.com", Some(acme_tls()))),
            ("app2".to_string(), nameless),
        ],
        Some(acme_option(None)),
        Some("/var/lib/rpxy"),
    );
    assert!(matches!(build_acme_manager(&c), Err(ConfigError::NoServerName)));
}
