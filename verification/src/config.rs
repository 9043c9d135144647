//! The parsed configuration file and the settings built from it.

use vstd::prelude::*;
use crate::error::ConfigError;
use crate::paths::{is_absolute, join, parent, path_is_absolute, path_join, path_parent};
use crate::text::{clone_opt_string, clone_strings, opt_view};

verus! {

/// One reverse-proxy route of an application: the path prefix it serves and
/// the upstream locations requests are forwarded to.
pub struct ReverseProxyOption {
    pub path: Option<String>,
    pub upstream: Vec<String>,
}

/// TLS settings of one application.
pub struct TlsOption {
    pub tls_cert_path: Option<String>,
    pub tls_cert_key_path: Option<String>,
    pub client_ca_cert_path: Option<String>,
    pub https_redirection: Option<bool>,
    pub acme: Option<bool>,
}

/// One application of the `apps` table.
pub struct Application {
    pub server_name: Option<String>,
    pub tls: Option<TlsOption>,
    pub reverse_proxy: Vec<ReverseProxyOption>,
}

/// The `apps` table: application name and application, in the order in
/// which the table is walked.
pub struct Apps(pub Vec<(String, Application)>);

/// The `[experimental.acme]` table.
pub struct AcmeOption {
    pub dir_url: Option<String>,
    pub email: String,
    pub registry_path: Option<String>,
}

/// The `[experimental]` table.
pub struct Experimental {
    pub acme: Option<AcmeOption>,
}

/// The configuration file as parsed.
pub struct ConfigToml {
    pub listen_port: Option<u16>,
    pub listen_port_tls: Option<u16>,
    pub apps: Option<Apps>,
    pub default_app: Option<String>,
    pub experimental: Option<Experimental>,
    pub data_dir: Option<String>,
}

/// Listening settings of the proxy.
#[derive(Clone, Copy, Debug, PartialEq, Eq, Structural)]
pub struct ProxyConfig {
    pub http_port: Option<u16>,
    pub https_port: Option<u16>,
}

/// TLS behaviour of one application.
#[derive(Clone, Copy, Debug, PartialEq, Eq, Structural)]
pub struct AppTlsConfig {
    pub https_redirection: bool,
    pub mutual_tls: bool,
}

/// Settings of one application.
pub struct AppConfig {
    pub app_name: String,
    pub server_name: String,
    pub tls: Option<AppTlsConfig>,
    pub reverse_proxy: Vec<ReverseProxyOption>,
}

/// Settings of all applications, and the application that serves plaintext
/// requests for unknown server names.
pub struct AppConfigList {
    pub inner: Vec<AppConfig>,
    pub default_app: Option<String>,
}

/// Two route lists hold the same routes in the same order.
pub open spec fn same_routes(a: Seq<ReverseProxyOption>, b: Seq<ReverseProxyOption>) -> bool {
    &&& a.len() == b.len()
    &&& forall|i: int|
        0 <= i < a.len() ==> #[trigger] a[i].path == b[i].path && a[i].upstream@ == b[i].upstream@
}

impl ReverseProxyOption {
    /// A copy of this route.
    pub fn duplicate(&self) -> (r: Self)
        ensures
            r.path == self.path,
            r.upstream@ == self.upstream@,
    {
        ReverseProxyOption { path: clone_opt_string(&self.path), upstream: clone_strings(&self.upstream) }
    }
}

/// A copy of a route list.
pub fn duplicate_routes(v: &Vec<ReverseProxyOption>) -> (r: Vec<ReverseProxyOption>)
    ensures
        same_routes(r@, v@),
{
    let mut r: Vec<ReverseProxyOption> = Vec::new();
    for i in 0..v.len()
        invariant
            same_routes(r@, v@.take(i as int)),
    {
        r.push(v[i].duplicate());
        assert(same_routes(r@, v@.take(i + 1)));
    }
    assert(v@.take(v.len() as int) == v@);
    r
}

impl TlsOption {
    /// A copy of these TLS settings.
    pub fn duplicate(&self) -> (r: Self)
        ensures
            r == *self,
    {
        TlsOption {
            tls_cert_path: clone_opt_string(&self.tls_cert_path),
            tls_cert_key_path: clone_opt_string(&self.tls_cert_key_path),
            client_ca_cert_path: clone_opt_string(&self.client_ca_cert_path),
            https_redirection: self.https_redirection,
            acme: self.acme,
        }
    }
}

impl AcmeOption {
    /// A copy of this ACME table.
    pub fn duplicate(&self) -> (r: Self)
        ensures
            r == *self,
    {
        AcmeOption {
            dir_url: clone_opt_string(&self.dir_url),
            email: self.email.clone(),
            registry_path: clone_opt_string(&self.registry_path),
        }
    }
}

impl ConfigToml {
    /// The applications of the `apps` table, empty where it is missing.
    pub open spec fn app_entries(self) -> Seq<(String, Application)> {
        match self.apps {
            Some(apps) => apps.0@,
            None => Seq::empty(),
        }
    }

    /// The `[experimental.acme]` table, if any.
    pub open spec fn acme_option(self) -> Option<AcmeOption> {
        match self.experimental {
            Some(e) => e.acme,
            None => None,
        }
    }
}

/// The TLS behaviour built from an application's TLS table: HTTPS
/// redirection unless switched off, mutual TLS where a client CA is named.
pub open spec fn app_tls_config(tls: Option<TlsOption>) -> Option<AppTlsConfig> {
    match tls {
        Some(t) => Some(
            AppTlsConfig {
                https_redirection: match t.https_redirection {
                    Some(b) => b,
                    None => true,
                },
                mutual_tls: t.client_ca_cert_path is Some,
            },
        ),
        None => None,
    }
}

/// `c` holds the settings of the application `name` of the `apps` table.
pub open spec fn app_config_built(c: AppConfig, name: String, app: Application) -> bool {
    &&& c.app_name == name
    &&& app.server_name == Some(c.server_name)
    &&& c.tls == app_tls_config(app.tls)
    &&& same_routes(c.reverse_proxy@, app.reverse_proxy@)
}

/// Whether every application of the sequence names its server.
pub open spec fn all_named(apps: Seq<(String, Application)>) -> bool {
    forall|i: int| 0 <= i < apps.len() ==> (#[trigger] apps[i]).1.server_name is Some
}

/// `proxy` and `list` are the settings of `config`: its ports, its default
/// application, and the settings of each application in table order.
pub open spec fn settings_built(config: ConfigToml, proxy: ProxyConfig, list: AppConfigList) -> bool {
    &&& proxy == ProxyConfig { http_port: config.listen_port, https_port: config.listen_port_tls }
    &&& list.default_app == config.default_app
    &&& list.inner@.len() == config.app_entries().len()
    &&& forall|i: int|
        0 <= i < list.inner@.len() ==> app_config_built(
            #[trigger] list.inner@[i],
            config.app_entries()[i].0,
            config.app_entries()[i].1,
        )
}

/// Settings of one application of the `apps` table.
fn build_app_config(name: &String, app: &Application) -> (r: Result<AppConfig, ConfigError>)
    ensures
        r is Ok <==> app.server_name is Some,
        r matches Ok(c) ==> app_config_built(c, *name, *app),
        r matches Err(e) ==> e == ConfigError::NoServerName,
{
    let server_name = match &app.server_name {
        Some(s) => s.clone(),
        None => {
            return Err(ConfigError::NoServerName);
        },
    };
    let tls = match &app.tls {
        Some(t) => Some(
            AppTlsConfig {
                https_redirection: match t.https_redirection {
                    Some(b) => b,
                    None => true,
                },
                mutual_tls: t.client_ca_cert_path.is_some(),
            },
        ),
        None => None,
    };
    Ok(
        AppConfig {
            app_name: name.clone(),
            server_name,
            tls,
            reverse_proxy: duplicate_routes(&app.reverse_proxy),
        },
    )
}

/// Builds the proxy settings and the application settings from the
/// configuration. The `apps` table must exist and every application in it
/// must name its server; each application gives one entry of the list, in
/// table order.
pub fn build_settings(config: &ConfigToml) -> (r: Result<(ProxyConfig, AppConfigList), ConfigError>)
    ensures
        r is Ok <==> config.apps is Some && all_named(config.app_entries()),
        config.apps is None ==> r == Err::<(ProxyConfig, AppConfigList), ConfigError>(
            ConfigError::NoApps,
        ),
        config.apps is Some && !all_named(config.app_entries()) ==> r == Err::<
            (ProxyConfig, AppConfigList),
            ConfigError,
        >(ConfigError::NoServerName),
        r matches Ok((proxy, list)) ==> settings_built(*config, proxy, list),
{
    let apps = match &config.apps {
        Some(a) => a,
        None => {
            return Err(ConfigError::NoApps);
        },
    };
    let ghost entries = apps.0@;
    let mut inner: Vec<AppConfig> = Vec::new();
    for i in 0..apps.0.len()
        invariant
            entries == apps.0@,
            entries == config.app_entries(),
            inner@.len() == i,
            forall|k: int| 0 <= k < i ==> (#[trigger] entries[k]).1.server_name is Some,
            forall|k: int|
                0 <= k < i ==> app_config_built(#[trigger] inner@[k], entries[k].0, entries[k].1),
    {
        let entry = &apps.0[i];
        match build_app_config(&entry.0, &entry.1) {
            Ok(c) => {
                inner.push(c);
            },
            Err(e) => {
                assert(!all_named(entries));
                return Err(e);
            },
        }
    }
    let proxy = ProxyConfig { http_port: config.listen_port, https_port: config.listen_port_tls };
    Ok((proxy, AppConfigList { inner, default_app: clone_opt_string(&config.default_app) }))
}

/// The data directory (as text) after resolving it against the
/// configuration file's location: a relative data directory is joined onto
/// the directory that holds the configuration file, where that file path has
/// a parent.
pub open spec fn resolved_dir_text(data_dir: Option<Seq<char>>, config_path: Seq<char>) -> Option<
    Seq<char>,
> {
    match data_dir {
        Some(d) => if !path_is_absolute(d) && path_parent(config_path) is Some {
            Some(path_join(path_parent(config_path)->0, d))
        } else {
            Some(d)
        },
        None => None,
    }
}

/// The data directory after resolving it against the configuration file's
/// location.
pub open spec fn resolved_data_dir(data_dir: Option<String>, config_path: Seq<char>) -> Option<
    Seq<char>,
> {
    resolved_dir_text(opt_view(data_dir), config_path)
}

/// Resolving the data directory a second time against the same
/// configuration path changes nothing, whenever the first resolution gave an
/// absolute path or left the text as it was.
pub proof fn resolve_data_dir_settles(data_dir: Option<Seq<char>>, config_path: Seq<char>)
    requires
        resolved_dir_text(data_dir, config_path) matches Some(r) ==> path_is_absolute(r) || r
            == data_dir->0,
    ensures
        resolved_dir_text(resolved_dir_text(data_dir, config_path), config_path) == resolved_dir_text(
            data_dir,
            config_path,
        ),
{
}

/// Resolves a relative `data_dir` against the directory of the configuration
/// file at `config_path`; nothing else of the configuration changes.
pub fn resolve_data_dir(config: &mut ConfigToml, config_path: &str)
    ensures
        opt_view(final(config).data_dir) == resolved_data_dir(old(config).data_dir, config_path@),
        final(config).listen_port == old(config).listen_port,
        final(config).listen_port_tls == old(config).listen_port_tls,
        final(config).apps == old(config).apps,
        final(config).default_app == old(config).default_app,
        final(config).experimental == old(config).experimental,
{
    let resolved = match &config.data_dir {
        Some(data_dir) => {
            if !is_absolute(data_dir.as_str()) {
                match parent(config_path) {
                    Some(config_dir) => Some(join(config_dir.as_str(), data_dir.as_str())),
                    None => None,
                }
            } else {
                None
            }
        },
        None => None,
    };
    if let Some(r) = resolved {
        config.data_dir = Some(r);
    }
}

/// HTTPS redirection of an application with TLS is what its TLS table sets,
/// and on where it sets nothing; mutual TLS is on exactly when a client CA is
/// named. An application without TLS has no TLS behaviour.
pub proof fn app_tls_follows_tls_table(config: ConfigToml, proxy: ProxyConfig, list: AppConfigList, i: int)
    requires
        settings_built(config, proxy, list),
        0 <= i < config.app_entries().len(),
    ensures
        ({
            let app = config.app_entries()[i].1;
            let c = list.inner@[i];
            &&& app.tls is None ==> c.tls is None
            &&& app.tls matches Some(t) ==> {
                &&& c.tls is Some
                &&& t.https_redirection == Some(true) ==> c.tls->0.https_redirection
                &&& t.https_redirection == Some(false) ==> !c.tls->0.https_redirection
                &&& t.https_redirection is None ==> c.tls->0.https_redirection
                &&& c.tls->0.mutual_tls <==> t.client_ca_cert_path is Some
            }
        }),
{
    assert(app_config_built(list.inner@[i], config.app_entries()[i].0, config.app_entries()[i].1));
}

/// A relative data directory is joined onto the configuration file's
/// directory whenever the configuration path has one, whatever its text; an
/// absolute one, or one next to a configuration path without a parent, is
/// kept as it is.
pub proof fn relative_data_dir_joined_onto_config_dir(data_dir: String, config_path: Seq<char>)
    ensures
        !path_is_absolute(data_dir@) && path_parent(config_path) is Some ==> resolved_data_dir(
            Some(data_dir),
            config_path,
        ) == Some(path_join(path_parent(config_path)->0, data_dir@)),
        path_is_absolute(data_dir@) ==> resolved_data_dir(Some(data_dir), config_path) == Some(
            data_dir@,
        ),
        path_parent(config_path) is None ==> resolved_data_dir(Some(data_dir), config_path) == Some(
            data_dir@,
        ),
        resolved_data_dir(None, config_path) is None,
{
}

} // verus!
