//! ACME: where certificates obtained by ACME are cached, and the parameters
//! of the ACME manager.

use vstd::prelude::*;
use vstd::utf8::encode_utf8;
use crate::config::{AcmeOption, Application, ConfigToml, TlsOption};
use crate::error::ConfigError;
use crate::paths::{resolve_path_against_data_dir, resolved_path};
use crate::text::{ascii_lower, clone_opt_string, concat, opt_view, slash_join, to_ascii_lowercase};

verus! {

/// Directory URL of the ACME server used when the configuration names none
/// (Let's Encrypt production).
pub const ACME_DIR_URL: &'static str = "https://acme-v02.api.letsencrypt.org/directory";

/// The SHA-256 digest of `data`, as the `sha2` crate computes it.
pub uninterp spec fn sha256_digest(data: Seq<u8>) -> Seq<u8>;

/// The URL-safe base64 encoding without padding of `data`, as the `base64`
/// crate's `URL_SAFE_NO_PAD` engine computes it.
pub uninterp spec fn base64_url_no_pad(data: Seq<u8>) -> Seq<char>;

/// `sha2::Sha256::digest`: the result is named; the crate's output type fixes
/// its length to 32 bytes, which is stated.
#[verifier::external_body]
fn sha256(data: &[u8]) -> (r: Vec<u8>)
    ensures
        r@ == sha256_digest(data@),
        r@.len() == 32,
{
    <sha2::Sha256 as sha2::Digest>::digest(data).to_vec()
}

/// `base64::Engine::encode` with the `URL_SAFE_NO_PAD` engine: the result is
/// named, not stated.
#[verifier::external_body]
fn encode_base64_url_no_pad(data: &[u8]) -> (r: String)
    ensures
        r@ == base64_url_no_pad(data@),
{
    base64::Engine::encode(&base64::engine::general_purpose::URL_SAFE_NO_PAD, data)
}

/// The UTF-8 bytes of each domain, each followed by a zero byte.
pub open spec fn domains_key(domains: Seq<Seq<char>>) -> Seq<u8>
    decreases domains.len(),
{
    if domains.len() == 0 {
        Seq::empty()
    } else {
        domains_key(domains.drop_last()) + encode_utf8(domains.last()) + seq![0u8]
    }
}

/// The bytes that name a certificate in the cache: the domains, then the
/// ACME directory URL.
pub open spec fn cache_key(domains: Seq<Seq<char>>, dir_url: Seq<char>) -> Seq<u8> {
    domains_key(domains) + encode_utf8(dir_url)
}

/// File name under which the certificate for `domains` from the ACME server
/// at `dir_url` is cached: `cached_cert_` and the base64 of the SHA-256 of
/// the cache key.
pub open spec fn cached_cert_name(domains: Seq<Seq<char>>, dir_url: Seq<char>) -> Seq<char> {
    "cached_cert_"@ + base64_url_no_pad(sha256_digest(cache_key(domains, dir_url)))
}

/// Appends the bytes `b` to `v`.
fn append_bytes(v: &mut Vec<u8>, b: &[u8])
    ensures
        final(v)@ == old(v)@ + b@,
{
    let ghost start = v@;
    for i in 0..b.len()
        invariant
            v@ == start + b@.take(i as int),
    {
        v.push(b[i]);
        assert(b@.take(i + 1) == b@.take(i as int).push(b[i as int]));
    }
    assert(b@.take(b.len() as int) == b@);
}

/// The file name of the cached certificate for `domains` obtained from the
/// ACME server at `directory_url`.
pub fn cached_cert_file_name(domains: &[String], directory_url: &str) -> (r: String)
    ensures
        r@ == cached_cert_name(domains@.map_values(|d: String| d@), directory_url@),
{
    let ghost names = domains@.map_values(|d: String| d@);
    let mut key: Vec<u8> = Vec::new();
    for i in 0..domains.len()
        invariant
            names == domains@.map_values(|d: String| d@),
            key@ == domains_key(names.take(i as int)),
    {
        append_bytes(&mut key, domains[i].as_str().as_bytes());
        append_bytes(&mut key, &[0u8]);
        assert(names.take(i + 1).drop_last() == names.take(i as int));
    }
    assert(names.take(domains.len() as int) == names);
    append_bytes(&mut key, directory_url.as_bytes());
    let digest = sha256(key.as_slice());
    let encoded = encode_base64_url_no_pad(digest.as_slice());
    concat("cached_cert_", encoded.as_str())
}

/// Where the certificate of the ACME application `server_name` is cached:
/// `<registry>/<server name>/<cached file name>`, with the server name and
/// the directory URL in ASCII lower case.
pub open spec fn acme_cert_path(registry: Seq<char>, server_name: Seq<char>, dir_url: Seq<char>) -> Seq<char> {
    let name = ascii_lower(server_name);
    registry + seq!['/'] + name + seq!['/'] + cached_cert_name(seq![name], ascii_lower(dir_url))
}

/// Whether the TLS table asks for ACME.
pub open spec fn wants_acme(tls: TlsOption) -> bool {
    tls.acme == Some(true)
}

/// Points the certificate and key paths of an application that asks for
/// ACME to the ACME cache. Such an application needs ACME to be configured
/// and must not name its own certificate or key; other applications are left
/// as they are.
pub fn build_tls_for_app_acme(
    tls: &mut TlsOption,
    acme_option: &Option<AcmeOption>,
    server_name: &str,
    acme_registry_path: &str,
    acme_dir_url: &str,
) -> (r: Result<(), ConfigError>)
    ensures
        !wants_acme(*old(tls)) ==> r is Ok && *final(tls) == *old(tls),
        wants_acme(*old(tls)) ==> (r is Ok <==> acme_option is Some
            && old(tls).tls_cert_key_path is None && old(tls).tls_cert_path is None),
        r matches Err(e) ==> e == ConfigError::InvalidAcmeTlsOption && *final(tls) == *old(tls),
        wants_acme(*old(tls)) && r is Ok ==> {
            &&& opt_view(final(tls).tls_cert_path) == Some(
                acme_cert_path(acme_registry_path@, server_name@, acme_dir_url@),
            )
            &&& final(tls).tls_cert_key_path == final(tls).tls_cert_path
            &&& final(tls).client_ca_cert_path == old(tls).client_ca_cert_path
            &&& final(tls).https_redirection == old(tls).https_redirection
            &&& final(tls).acme == old(tls).acme
        },
{
    if tls.acme == Some(true) {
        if !(acme_option.is_some() && tls.tls_cert_key_path.is_none() && tls.tls_cert_path.is_none()) {
            return Err(ConfigError::InvalidAcmeTlsOption);
        }
        let name = to_ascii_lowercase(server_name);
        let subdir = slash_join(acme_registry_path, name.as_str());
        let dir_url = to_ascii_lowercase(acme_dir_url);
        let domains = vec![name];
        let file_name = cached_cert_file_name(domains.as_slice(), dir_url.as_str());
        proof {
            assert(domains@.map_values(|d: String| d@) == seq![ascii_lower(server_name@)]);
        }
        let cert_path = slash_join(subdir.as_str(), file_name.as_str());
        tls.tls_cert_key_path = Some(cert_path.clone());
        tls.tls_cert_path = Some(cert_path);
    }
    Ok(())
}

/// Whether the application asks for ACME.
pub open spec fn is_acme_app(app: Application) -> bool {
    app.tls matches Some(t) && wants_acme(t)
}

/// Every application that asks for ACME names its server.
pub open spec fn acme_apps_named(apps: Seq<(String, Application)>) -> bool {
    forall|i: int|
        0 <= i < apps.len() && is_acme_app((#[trigger] apps[i]).1) ==> apps[i].1.server_name is Some
}

/// The server names of the applications that ask for ACME, in table order.
pub open spec fn acme_domains(apps: Seq<(String, Application)>) -> Seq<Seq<char>>
    decreases apps.len(),
{
    if apps.len() == 0 {
        Seq::empty()
    } else {
        let rest = acme_domains(apps.drop_last());
        let app = apps.last().1;
        if is_acme_app(app) {
            match app.server_name {
                Some(s) => rest.push(s@),
                None => rest,
            }
        } else {
            rest
        }
    }
}

/// The registry path configured for ACME, relative to the data directory
/// unless absolute; `acme` where none is configured.
pub open spec fn registry_subpath(acme: AcmeOption) -> Seq<char> {
    match acme.registry_path {
        Some(r) => r@,
        None => "acme"@,
    }
}

/// What the ACME manager is created with.
pub struct AcmeManagerParams {
    /// Directory URL of the ACME server, if configured.
    pub dir_url: Option<String>,
    /// Directory where certificates and account keys are cached.
    pub registry_path: String,
    /// Contact e-mail addresses of the ACME account.
    pub emails: Vec<String>,
    /// Domains to obtain certificates for.
    pub domains: Vec<String>,
}

/// Decides whether an ACME manager is needed and with which parameters: one
/// is needed when ACME is configured and some application asks for it; it
/// then needs `data_dir`, against which the registry path is resolved. With
/// ACME configured, the `apps` table is required and every application that
/// asks for ACME must name its server.
pub fn build_acme_manager(config: &ConfigToml) -> (r: Result<Option<AcmeManagerParams>, ConfigError>)
    ensures
        config.acme_option() is None ==> r matches Ok(None),
        config.acme_option() is Some && config.apps is None ==> (r matches Err(e) && e
            == ConfigError::NoApps),
        config.acme_option() is Some && config.apps is Some && !acme_apps_named(config.app_entries())
            ==> (r matches Err(e) && e == ConfigError::NoServerName),
        config.acme_option() is Some && config.apps is Some && acme_apps_named(config.app_entries())
            && acme_domains(config.app_entries()).len() == 0 ==> r matches Ok(None),
        config.acme_option() is Some && config.apps is Some && acme_apps_named(config.app_entries())
            && acme_domains(config.app_entries()).len() > 0 && config.data_dir is None ==> (r matches Err(
            e,
        ) && e == ConfigError::MissingDataDir),
        config.acme_option() is Some && config.apps is Some && acme_apps_named(config.app_entries())
            && acme_domains(config.app_entries()).len() > 0 && config.data_dir is Some ==> (r matches Ok(Some(p)) && {
            let acme = config.acme_option()->0;
            &&& p.dir_url == acme.dir_url
            &&& p.registry_path@ == resolved_path(registry_subpath(acme), config.data_dir->0@)
            &&& p.emails@ == seq![acme.email]
            &&& p.domains@.map_values(|d: String| d@) == acme_domains(config.app_entries())
        }),
{
    let acme_option = match &config.experimental {
        Some(e) => match &e.acme {
            Some(a) => a,
            None => {
                return Ok(None);
            },
        },
        None => {
            return Ok(None);
        },
    };
    let apps = match &config.apps {
        Some(a) => a,
        None => {
            return Err(ConfigError::NoApps);
        },
    };
    let ghost entries = apps.0@;
    let mut domains: Vec<String> = Vec::new();
    for i in 0..apps.0.len()
        invariant
            entries == apps.0@,
            entries == config.app_entries(),
            config.acme_option() is Some,
            config.apps is Some,
            forall|k: int|
                0 <= k < i && is_acme_app((#[trigger] entries[k]).1) ==> entries[k].1.server_name is Some,
            domains@.map_values(|d: String| d@) == acme_domains(entries.take(i as int)),
    {
        let app = &apps.0[i].1;
        assert(entries.take(i + 1).drop_last() == entries.take(i as int));
        assert(entries.take(i + 1).last() == entries[i as int]);
        if let Some(tls) = &app.tls {
            if tls.acme == Some(true) {
                assert(is_acme_app(entries[i as int].1));
                let name = match &app.server_name {
                    Some(s) => s.clone(),
                    None => {
                        assert(!acme_apps_named(entries));
                        return Err(ConfigError::NoServerName);
                    },
                };
                domains.push(name);
            }
        }
        assert(domains@.map_values(|d: String| d@) == acme_domains(entries.take(i + 1)));
    }
    assert(entries.take(apps.0.len() as int) == entries);
    assert(acme_apps_named(entries));
    if domains.len() == 0 {
        return Ok(None);
    }
    let data_dir = match &config.data_dir {
        Some(d) => d,
        None => {
            return Err(ConfigError::MissingDataDir);
        },
    };
    let registry_subpath = match &acme_option.registry_path {
        Some(r) => r.as_str(),
        None => "acme",
    };
    let registry_path = resolve_path_against_data_dir(registry_subpath, data_dir.as_str());
    let emails = vec![acme_option.email.clone()];
    Ok(
        Some(
            AcmeManagerParams {
                dir_url: clone_opt_string(&acme_option.dir_url),
                registry_path,
                emails,
                domains,
            },
        ),
    )
}

/// With no registry path configured, the ACME manager's registry is the
/// sub-path `acme` resolved against `data_dir`; a configured one is used as
/// it is written.
pub proof fn acme_registry_defaults_to_acme(acme: AcmeOption, data_dir: Seq<char>)
    ensures
        acme.registry_path is None ==> resolved_path(registry_subpath(acme), data_dir) == resolved_path(
            "acme"@,
            data_dir,
        ),
        acme.registry_path matches Some(r) ==> resolved_path(registry_subpath(acme), data_dir)
            == resolved_path(r@, data_dir),
{
}

} // verus!
