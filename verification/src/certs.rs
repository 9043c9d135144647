//! Certificate sources of the TLS applications: which certificate, key and
//! client CA files serve which server name.

use vstd::prelude::*;
use crate::acme::{
    ACME_DIR_URL, acme_cert_path, acme_domains, build_tls_for_app_acme, is_acme_app, registry_subpath,
    wants_acme,
};
use crate::config::{AcmeOption, Application, ConfigToml};
use crate::error::ConfigError;
use crate::keyed::{latest, lemma_latest_contains, lemma_latest_value};
use crate::paths::{resolve_path_against_data_dir, resolved_path};
use crate::text::{clone_opt_string, opt_view, str_eq};

verus! {

/// Certificate, key and optional client CA file of one server name.
pub struct CryptoFileSource {
    pub tls_cert_path: String,
    pub tls_cert_key_path: String,
    pub client_ca_cert_path: Option<String>,
}

/// The paths of a certificate source as text.
pub struct SourcePaths {
    pub cert: Seq<char>,
    pub key: Seq<char>,
    pub client_ca: Option<Seq<char>>,
}

impl CryptoFileSource {
    pub open spec fn paths(self) -> SourcePaths {
        SourcePaths {
            cert: self.tls_cert_path@,
            key: self.tls_cert_key_path@,
            client_ca: opt_view(self.client_ca_cert_path),
        }
    }
}

/// Certificate sources by server name; inserting a server name again
/// replaces its source.
pub struct CryptoSourceMap {
    entries: Vec<(String, CryptoFileSource)>,
}

/// A log of insertions as text keys and source paths.
pub open spec fn source_log(entries: Seq<(String, CryptoFileSource)>) -> Seq<(Seq<char>, SourcePaths)> {
    entries.map_values(|e: (String, CryptoFileSource)| (e.0@, e.1.paths()))
}

impl View for CryptoSourceMap {
    type V = Map<Seq<char>, SourcePaths>;

    closed spec fn view(&self) -> Map<Seq<char>, SourcePaths> {
        latest(source_log(self.entries@))
    }
}

impl CryptoSourceMap {
    /// An empty map.
    pub fn new() -> (r: Self)
        ensures
            r@ == Map::<Seq<char>, SourcePaths>::empty(),
    {
        let r = CryptoSourceMap { entries: Vec::new() };
        assert(source_log(r.entries@).len() == 0);
        r
    }

    /// Sets the source of `server_name`, replacing any earlier one.
    pub fn insert(&mut self, server_name: String, source: CryptoFileSource)
        ensures
            final(self)@ == old(self)@.insert(server_name@, source.paths()),
    {
        let ghost k = server_name@;
        let ghost v = source.paths();
        self.entries.push((server_name, source));
        proof {
            let log = source_log(self.entries@);
            assert(log.drop_last() == source_log(old(self).entries@));
            assert(log.last() == (k, v));
        }
    }

    /// The source of `server_name`, if it has one.
    pub fn get(&self, server_name: &str) -> (r: Option<&CryptoFileSource>)
        ensures
            r is Some <==> self@.contains_key(server_name@),
            r matches Some(s) ==> self@[server_name@] == s.paths(),
    {
        let ghost log = source_log(self.entries@);
        let mut i = self.entries.len();
        while i > 0
            invariant
                i <= self.entries@.len(),
                log == source_log(self.entries@),
                forall|l: int| i <= l < log.len() ==> (#[trigger] log[l]).0 != server_name@,
            decreases i,
        {
            i = i - 1;
            if str_eq(self.entries[i].0.as_str(), server_name) {
                proof {
                    assert(log[i as int].0 == server_name@);
                    lemma_latest_value(log, i as int);
                }
                return Some(&self.entries[i].1);
            }
        }
        proof {
            lemma_latest_contains(log, server_name@);
        }
        None
    }
}

/// What one application contributes to the certificate sources.
pub enum AppCertStep {
    /// The application has no TLS table.
    Skip,
    /// The configuration is refused with this error.
    Fail(ConfigError),
    /// The server name and the paths of its source.
    Source(Seq<char>, SourcePaths),
}

/// The step of one application. ACME applications read their certificate
/// and key from the ACME cache under `registry`; others from the files they
/// name.
pub open spec fn app_cert_step(
    app: Application,
    acme_configured: bool,
    registry: Seq<char>,
    dir_url: Seq<char>,
) -> AppCertStep {
    match app.tls {
        None => AppCertStep::Skip,
        Some(t) => match app.server_name {
            None => AppCertStep::Fail(ConfigError::NoServerName),
            Some(sn) => if wants_acme(t) {
                if acme_configured && t.tls_cert_key_path is None && t.tls_cert_path is None {
                    let p = acme_cert_path(registry, sn@, dir_url);
                    AppCertStep::Source(
                        sn@,
                        SourcePaths { cert: p, key: p, client_ca: opt_view(t.client_ca_cert_path) },
                    )
                } else {
                    AppCertStep::Fail(ConfigError::InvalidAcmeTlsOption)
                }
            } else {
                match (t.tls_cert_path, t.tls_cert_key_path) {
                    (Some(c), Some(k)) => AppCertStep::Source(
                        sn@,
                        SourcePaths { cert: c@, key: k@, client_ca: opt_view(t.client_ca_cert_path) },
                    ),
                    _ => AppCertStep::Fail(ConfigError::MissingCertificatePath),
                }
            },
        },
    }
}

/// Outcome of walking applications in order.
pub enum CertRun {
    /// All applications were walked; the sources by server name.
    Done(Map<Seq<char>, SourcePaths>),
    /// The walk stopped with this error.
    Failed(ConfigError),
}

/// Walks the applications in order, stopping at the first refusal; a later
/// application with the same server name replaces the earlier source.
pub open spec fn cert_run(
    apps: Seq<(String, Application)>,
    acme_configured: bool,
    registry: Seq<char>,
    dir_url: Seq<char>,
) -> CertRun
    decreases apps.len(),
{
    if apps.len() == 0 {
        CertRun::Done(Map::empty())
    } else {
        match cert_run(apps.drop_last(), acme_configured, registry, dir_url) {
            CertRun::Done(m) => match app_cert_step(apps.last().1, acme_configured, registry, dir_url) {
                AppCertStep::Skip => CertRun::Done(m),
                AppCertStep::Fail(e) => CertRun::Failed(e),
                AppCertStep::Source(k, v) => CertRun::Done(m.insert(k, v)),
            },
            other => other,
        }
    }
}

/// Once the walk has stopped it stays stopped.
proof fn lemma_cert_run_settles(
    apps: Seq<(String, Application)>,
    acme_configured: bool,
    registry: Seq<char>,
    dir_url: Seq<char>,
    n: int,
)
    requires
        0 <= n <= apps.len(),
        !(cert_run(apps.take(n), acme_configured, registry, dir_url) is Done),
    ensures
        cert_run(apps, acme_configured, registry, dir_url) == cert_run(
            apps.take(n),
            acme_configured,
            registry,
            dir_url,
        ),
    decreases apps.len(),
{
    if n == apps.len() {
        assert(apps.take(n) == apps);
    } else {
        assert(apps.drop_last().take(n) == apps.take(n));
        lemma_cert_run_settles(apps.drop_last(), acme_configured, registry, dir_url, n);
    }
}

/// Whether some application asks for ACME.
pub open spec fn any_acme_app(apps: Seq<(String, Application)>) -> bool {
    exists|i: int| 0 <= i < apps.len() && is_acme_app((#[trigger] apps[i]).1)
}

/// The ACME directory URL in effect: the configured one, else Let's Encrypt.
pub open spec fn acme_dir_url_of(acme: Option<AcmeOption>) -> Seq<char> {
    match acme {
        Some(a) => match a.dir_url {
            Some(u) => u@,
            None => ACME_DIR_URL@,
        },
        None => ACME_DIR_URL@,
    }
}

/// The configured ACME registry path, `acme` where none is configured.
pub open spec fn registry_subpath_of(acme: Option<AcmeOption>) -> Seq<char> {
    match acme {
        Some(a) => registry_subpath(a),
        None => "acme"@,
    }
}

/// The ACME registry the certificate sources read from: resolved against
/// `data_dir` when some application asks for ACME, empty otherwise.
pub open spec fn cert_registry_path(config: ConfigToml) -> Seq<char> {
    if any_acme_app(config.app_entries()) {
        resolved_path(registry_subpath_of(config.acme_option()), config.data_dir->0@)
    } else {
        Seq::empty()
    }
}

/// Outcome of building the certificate sources of a configuration.
pub enum CertPlan {
    /// The configuration is refused with this error.
    Failed(ConfigError),
    /// No TLS port is configured, so no certificates are served.
    NoTls,
    /// The sources by server name.
    Sources(Map<Seq<char>, SourcePaths>),
}

/// The certificate sources of a configuration: it needs the `apps` table;
/// without a TLS port there is nothing to serve; ACME needs `data_dir`; then
/// each TLS application, in order, gives the source of its server name.
pub open spec fn cert_plan(config: ConfigToml) -> CertPlan {
    if config.apps is None {
        CertPlan::Failed(ConfigError::NoApps)
    } else if config.listen_port_tls is None {
        CertPlan::NoTls
    } else if any_acme_app(config.app_entries()) && config.data_dir is None {
        CertPlan::Failed(ConfigError::MissingDataDir)
    } else {
        match cert_run(
            config.app_entries(),
            config.acme_option() is Some,
            cert_registry_path(config),
            acme_dir_url_of(config.acme_option()),
        ) {
            CertRun::Done(m) => CertPlan::Sources(m),
            CertRun::Failed(e) => CertPlan::Failed(e),
        }
    }
}

/// Builds the certificate sources of the TLS applications, by server name;
/// `None` when no TLS port is configured; an error when the configuration is
/// invalid or a required field is missing.
pub fn build_cert_manager(config: &ConfigToml) -> (r: Result<Option<CryptoSourceMap>, ConfigError>)
    ensures
        match cert_plan(*config) {
            CertPlan::Failed(e) => r matches Err(x) && x == e,
            CertPlan::NoTls => r matches Ok(None),
            CertPlan::Sources(m) => r matches Ok(Some(map)) && map@ == m,
        },
{
    let apps = match &config.apps {
        Some(a) => a,
        None => {
            return Err(ConfigError::NoApps);
        },
    };
    if config.listen_port_tls.is_none() {
        return Ok(None);
    }
    let acme_option: Option<AcmeOption> = match &config.experimental {
        Some(e) => match &e.acme {
            Some(a) => Some(a.duplicate()),
            None => None,
        },
        None => None,
    };
    let acme_dir_url: &str = match &acme_option {
        Some(a) => match &a.dir_url {
            Some(u) => u.as_str(),
            None => ACME_DIR_URL,
        },
        None => ACME_DIR_URL,
    };
    let ghost entries = apps.0@;
    let mut any_acme = false;
    for i in 0..apps.0.len()
        invariant
            entries == apps.0@,
            any_acme <==> exists|k: int| 0 <= k < i && is_acme_app((#[trigger] entries[k]).1),
    {
        if let Some(t) = &apps.0[i].1.tls {
            if t.acme == Some(true) {
                assert(is_acme_app(entries[i as int].1));
                any_acme = true;
            }
        }
    }
    assert(any_acme == any_acme_app(entries));
    let registry: String = if any_acme {
        let data_dir = match &config.data_dir {
            Some(d) => d,
            None => {
                return Err(ConfigError::MissingDataDir);
            },
        };
        let sub: &str = match &acme_option {
            Some(a) => match &a.registry_path {
                Some(r) => r.as_str(),
                None => "acme",
            },
            None => "acme",
        };
        resolve_path_against_data_dir(sub, data_dir.as_str())
    } else {
        String::new()
    };
    let ghost acme_configured = acme_option is Some;
    assert(registry@ == cert_registry_path(*config));
    assert(acme_dir_url@ == acme_dir_url_of(config.acme_option()));
    let mut map = CryptoSourceMap::new();
    for i in 0..apps.0.len()
        invariant
            entries == apps.0@,
            entries == config.app_entries(),
            acme_configured == (acme_option is Some),
            cert_plan(*config) == match cert_run(entries, acme_configured, registry@, acme_dir_url@) {
                CertRun::Done(m) => CertPlan::Sources(m),
                CertRun::Failed(e) => CertPlan::Failed(e),
            },
            cert_run(entries.take(i as int), acme_configured, registry@, acme_dir_url@)
                == CertRun::Done(map@),
    {
        proof {
            assert(entries.take(i + 1).drop_last() == entries.take(i as int));
            assert(entries.take(i + 1).last() == entries[i as int]);
        }
        let app = &apps.0[i].1;
        if let Some(tls0) = &app.tls {
            let server_name = match &app.server_name {
                Some(s) => s,
                None => {
                    proof {
                        lemma_cert_run_settles(entries, acme_configured, registry@, acme_dir_url@, i + 1);
                    }
                    return Err(ConfigError::NoServerName);
                },
            };
            let mut tls = tls0.duplicate();
            match build_tls_for_app_acme(
                &mut tls,
                &acme_option,
                server_name.as_str(),
                registry.as_str(),
                acme_dir_url,
            ) {
                Ok(()) => {},
                Err(e) => {
                    proof {
                        lemma_cert_run_settles(entries, acme_configured, registry@, acme_dir_url@, i + 1);
                    }
                    return Err(e);
                },
            }
            let (cert, key) = match (&tls.tls_cert_path, &tls.tls_cert_key_path) {
                (Some(c), Some(k)) => (c.clone(), k.clone()),
                _ => {
                    proof {
                        lemma_cert_run_settles(entries, acme_configured, registry@, acme_dir_url@, i + 1);
                    }
                    return Err(ConfigError::MissingCertificatePath);
                },
            };
            let source = CryptoFileSource {
                tls_cert_path: cert,
                tls_cert_key_path: key,
                client_ca_cert_path: clone_opt_string(&tls.client_ca_cert_path),
            };
            map.insert(server_name.clone(), source);
        }
    }
    proof {
        assert(entries.take(apps.0.len() as int) == entries);
    }
    Ok(Some(map))
}

/// When the walk completes, an application's source stays in force unless
/// a later TLS application names the same server.
proof fn lemma_cert_run_keeps_last(
    apps: Seq<(String, Application)>,
    acme_configured: bool,
    registry: Seq<char>,
    dir_url: Seq<char>,
    i: int,
)
    requires
        0 <= i < apps.len(),
        cert_run(apps, acme_configured, registry, dir_url) is Done,
        forall|j: int|
            i < j < apps.len() && (#[trigger] apps[j]).1.tls is Some ==> opt_view(apps[j].1.server_name)
                != opt_view(apps[i].1.server_name),
    ensures
        app_cert_step(apps[i].1, acme_configured, registry, dir_url) matches AppCertStep::Source(k, v)
            ==> cert_run(apps, acme_configured, registry, dir_url)->Done_0.contains_key(k) && cert_run(
            apps,
            acme_configured,
            registry,
            dir_url,
        )->Done_0[k] == v,
    decreases apps.len(),
{
    let t = apps.drop_last();
    if !(cert_run(t, acme_configured, registry, dir_url) is Done) {
        assert(apps.take(apps.len() - 1) == t);
        lemma_cert_run_settles(apps, acme_configured, registry, dir_url, apps.len() - 1);
    }
    if i < apps.len() - 1 {
        assert forall|j: int|
            i < j < t.len() && (#[trigger] t[j]).1.tls is Some implies opt_view(t[j].1.server_name)
                != opt_view(t[i].1.server_name) by {
            assert(t[j] == apps[j]);
        }
        assert(t[i] == apps[i]);
        lemma_cert_run_keeps_last(t, acme_configured, registry, dir_url, i);
        let last = apps.last().1;
        match app_cert_step(apps[i].1, acme_configured, registry, dir_url) {
            AppCertStep::Source(k, v) => {
                match app_cert_step(last, acme_configured, registry, dir_url) {
                    AppCertStep::Source(k2, v2) => {
                        assert(apps[apps.len() - 1] == apps.last());
                        assert(k2 != k);
                    },
                    _ => {},
                }
            },
            _ => {},
        }
    }
}

/// Certificates obtained by ACME are read from where the ACME manager
/// caches them: when the certificate sources build and ACME is configured,
/// an application asking for ACME (and not overridden by a later TLS
/// application with the same server name) reads certificate and key from
/// `<registry>/<server name>/<cached file name>`, where `<registry>` is the
/// registry path the ACME manager is created with; its server name is also
/// one of the ACME manager's domains.
pub proof fn acme_certs_in_acme_registry(config: ConfigToml, i: int)
    requires
        cert_plan(config) is Sources,
        config.acme_option() is Some,
        0 <= i < config.app_entries().len(),
        is_acme_app(config.app_entries()[i].1),
        forall|j: int|
            i < j < config.app_entries().len() && (#[trigger] config.app_entries()[j]).1.tls is Some
                ==> opt_view(config.app_entries()[j].1.server_name) != opt_view(
                config.app_entries()[i].1.server_name,
            ),
    ensures
        config.app_entries()[i].1.server_name is Some,
        config.data_dir is Some,
        acme_domains(config.app_entries()).contains(config.app_entries()[i].1.server_name->0@),
        ({
            let acme = config.acme_option()->0;
            let name = config.app_entries()[i].1.server_name->0@;
            let p = acme_cert_path(
                resolved_path(registry_subpath(acme), config.data_dir->0@),
                name,
                acme_dir_url_of(config.acme_option()),
            );
            &&& cert_plan(config)->Sources_0.contains_key(name)
            &&& cert_plan(config)->Sources_0[name].cert == p
            &&& cert_plan(config)->Sources_0[name].key == p
        }),
{
    let apps = config.app_entries();
    let reg = cert_registry_path(config);
    let url = acme_dir_url_of(config.acme_option());
    assert(any_acme_app(apps));
    let step = app_cert_step(apps[i].1, true, reg, url);
    if !(step is Source) {
        assert(apps.take(i + 1).drop_last() == apps.take(i));
        assert(apps.take(i + 1).last() == apps[i]);
        if cert_run(apps.take(i), true, reg, url) is Done {
            lemma_cert_run_settles(apps, true, reg, url, i + 1);
        } else {
            lemma_cert_run_settles(apps, true, reg, url, i);
        }
    }
    lemma_cert_run_keeps_last(apps, true, reg, url, i);
    lemma_acme_domains_contains(apps, i);
}

/// The server name of every named application that asks for ACME is among
/// the ACME domains.
proof fn lemma_acme_domains_contains(apps: Seq<(String, Application)>, i: int)
    requires
        0 <= i < apps.len(),
        is_acme_app(apps[i].1),
        apps[i].1.server_name is Some,
    ensures
        acme_domains(apps).contains(apps[i].1.server_name->0@),
    decreases apps.len(),
{
    let t = apps.drop_last();
    if i == apps.len() - 1 {
        assert(acme_domains(apps).last() == apps[i].1.server_name->0@);
    } else {
        assert(t[i] == apps[i]);
        lemma_acme_domains_contains(t, i);
        let d = apps[i].1.server_name->0@;
        let k = choose|k: int| 0 <= k < acme_domains(t).len() && acme_domains(t)[k] == d;
        assert(acme_domains(apps)[k] == d);
    }
}

/// When the certificate sources build, every TLS application not overridden
/// by a later TLS application with the same server name gives the source of
/// its server name.
proof fn lemma_tls_app_has_source(config: ConfigToml, i: int)
    requires
        cert_plan(config) is Sources,
        0 <= i < config.app_entries().len(),
        config.app_entries()[i].1.tls is Some,
        forall|j: int|
            i < j < config.app_entries().len() && (#[trigger] config.app_entries()[j]).1.tls is Some
                ==> opt_view(config.app_entries()[j].1.server_name) != opt_view(
                config.app_entries()[i].1.server_name,
            ),
    ensures
        app_cert_step(
            config.app_entries()[i].1,
            config.acme_option() is Some,
            cert_registry_path(config),
            acme_dir_url_of(config.acme_option()),
        ) is Source,
        config.app_entries()[i].1.server_name is Some,
        cert_plan(config)->Sources_0.contains_key(config.app_entries()[i].1.server_name->0@),
        cert_plan(config)->Sources_0[config.app_entries()[i].1.server_name->0@] == app_cert_step(
            config.app_entries()[i].1,
            config.acme_option() is Some,
            cert_registry_path(config),
            acme_dir_url_of(config.acme_option()),
        )->Source_1,
{
    let apps = config.app_entries();
    let acme = config.acme_option() is Some;
    let reg = cert_registry_path(config);
    let url = acme_dir_url_of(config.acme_option());
    let step = app_cert_step(apps[i].1, acme, reg, url);
    if !(step is Source) {
        assert(apps.take(i + 1).drop_last() == apps.take(i));
        assert(apps.take(i + 1).last() == apps[i]);
        if cert_run(apps.take(i), acme, reg, url) is Done {
            lemma_cert_run_settles(apps, acme, reg, url, i + 1);
        } else {
            lemma_cert_run_settles(apps, acme, reg, url, i);
        }
    }
    lemma_cert_run_keeps_last(apps, acme, reg, url, i);
}

/// Every certificate source carries its application's client CA: when the
/// sources build, a TLS application (asking for ACME or not) that no later
/// TLS application with the same server name overrides gives its server
/// name a source whose client CA path is the one it configures.
pub proof fn cert_source_keeps_client_ca(config: ConfigToml, i: int)
    requires
        cert_plan(config) is Sources,
        0 <= i < config.app_entries().len(),
        config.app_entries()[i].1.tls is Some,
        forall|j: int|
            i < j < config.app_entries().len() && (#[trigger] config.app_entries()[j]).1.tls is Some
                ==> opt_view(config.app_entries()[j].1.server_name) != opt_view(
                config.app_entries()[i].1.server_name,
            ),
    ensures
        config.app_entries()[i].1.server_name is Some,
        cert_plan(config)->Sources_0.contains_key(config.app_entries()[i].1.server_name->0@),
        cert_plan(config)->Sources_0[config.app_entries()[i].1.server_name->0@].client_ca == opt_view(
            config.app_entries()[i].1.tls->0.client_ca_cert_path,
        ),
{
    lemma_tls_app_has_source(config, i);
}

/// A TLS application that does not ask for ACME reads the certificate and
/// key files it names.
pub proof fn cert_source_of_file_app(config: ConfigToml, i: int)
    requires
        cert_plan(config) is Sources,
        0 <= i < config.app_entries().len(),
        config.app_entries()[i].1.tls is Some,
        config.app_entries()[i].1.tls->0.acme != Some(true),
        forall|j: int|
            i < j < config.app_entries().len() && (#[trigger] config.app_entries()[j]).1.tls is Some
                ==> opt_view(config.app_entries()[j].1.server_name) != opt_view(
                config.app_entries()[i].1.server_name,
            ),
    ensures
        ({
            let t = config.app_entries()[i].1.tls->0;
            let name = config.app_entries()[i].1.server_name->0@;
            &&& t.tls_cert_path is Some && t.tls_cert_key_path is Some
            &&& cert_plan(config)->Sources_0[name].cert == t.tls_cert_path->0@
            &&& cert_plan(config)->Sources_0[name].key == t.tls_cert_key_path->0@
        }),
{
    lemma_tls_app_has_source(config, i);
}

/// Without a configured directory URL, ACME certificates are cached under
/// the name derived from Let's Encrypt's production directory URL, the
/// default the ACME manager uses; with one, under the name derived from it.
pub proof fn acme_cache_uses_configured_or_default_directory(config: ConfigToml, i: int)
    requires
        cert_plan(config) is Sources,
        config.acme_option() is Some,
        0 <= i < config.app_entries().len(),
        is_acme_app(config.app_entries()[i].1),
        forall|j: int|
            i < j < config.app_entries().len() && (#[trigger] config.app_entries()[j]).1.tls is Some
                ==> opt_view(config.app_entries()[j].1.server_name) != opt_view(
                config.app_entries()[i].1.server_name,
            ),
    ensures
        ({
            let acme = config.acme_option()->0;
            let name = config.app_entries()[i].1.server_name->0@;
            let url = match acme.dir_url {
                Some(u) => u@,
                None => "https://acme-v02.api.letsencrypt.org/directory"@,
            };
            cert_plan(config)->Sources_0[name].cert == acme_cert_path(
                cert_registry_path(config),
                name,
                url,
            )
        }),
{
    reveal_strlit("https://acme-v02.api.letsencrypt.org/directory");
    assert(ACME_DIR_URL@ == "https://acme-v02.api.letsencrypt.org/directory"@);
    lemma_tls_app_has_source(config, i);
}

/// With no registry path configured, the ACME registry the certificate
/// sources read from is the sub-path `acme` resolved against `data_dir`.
pub proof fn cert_registry_defaults_to_acme(config: ConfigToml)
    requires
        any_acme_app(config.app_entries()),
        config.acme_option() is None || config.acme_option()->0.registry_path is None,
    ensures
        cert_registry_path(config) == resolved_path("acme"@, config.data_dir->0@),
{
}

} // verus!
