//! Backend applications and how an incoming server name finds its
//! application.

use vstd::prelude::*;
use vstd::utf8::encode_utf8;
use crate::config::{
    AppConfig, AppConfigList, ConfigToml, ProxyConfig, ReverseProxyOption, app_config_built, duplicate_routes,
    same_routes, settings_built,
};
use crate::error::{BackendAppField, RpxyError};
use crate::keyed::{latest, lemma_latest_contains, lemma_latest_update, lemma_latest_value};
use crate::text::{ascii_lower, contains_char, str_eq, to_ascii_lowercase};

verus! {

/// A server name (host name or address), held in ASCII lower case.
pub struct ServerName {
    name: String,
}

impl View for ServerName {
    type V = Seq<char>;

    closed spec fn view(&self) -> Seq<char> {
        self.name@
    }
}

/// The server name of `name`: its text in ASCII lower case.
pub fn to_server_name(name: &str) -> (r: ServerName)
    ensures
        r@ == ascii_lower(name@),
{
    ServerName { name: to_ascii_lowercase(name) }
}

impl ServerName {
    /// The text of the server name.
    pub fn as_str(&self) -> (r: &str)
        ensures
            r@ == self@,
    {
        self.name.as_str()
    }

    /// A copy of the server name.
    pub fn duplicate(&self) -> (r: Self)
        ensures
            r@ == self@,
    {
        ServerName { name: self.name.clone() }
    }
}

/// The routes of an application.
pub struct PathManager {
    pub routes: Vec<ReverseProxyOption>,
}

impl PathManager {
    /// The routes of the application `app_config`.
    pub fn from_app_config(app_config: &AppConfig) -> (r: Self)
        ensures
            same_routes(r.routes@, app_config.reverse_proxy@),
    {
        PathManager { routes: duplicate_routes(&app_config.reverse_proxy) }
    }

    /// A copy of these routes.
    pub fn duplicate(&self) -> (r: Self)
        ensures
            same_routes(r.routes@, self.routes@),
    {
        PathManager { routes: duplicate_routes(&self.routes) }
    }
}

/// What routes incoming connections: the application's name, its server
/// name, its routes and its TLS behaviour.
pub struct BackendApp {
    /// Application name, e.g. `app1`.
    pub app_name: String,
    /// Server name, e.g. `example.com`.
    pub server_name: ServerName,
    /// Routes of the reverse proxy.
    pub path_manager: PathManager,
    /// Whether plaintext requests are redirected to HTTPS.
    pub https_redirection: Option<bool>,
    /// Whether mutual TLS is enabled.
    pub mutual_tls: Option<bool>,
}

/// Builder of a [`BackendApp`]: name, server name and routes must be set;
/// the TLS settings default to unset.
pub struct BackendAppBuilder {
    pub app_name: Option<String>,
    pub server_name: Option<ServerName>,
    pub path_manager: Option<PathManager>,
    pub https_redirection: Option<Option<bool>>,
    pub mutual_tls: Option<Option<bool>>,
}

impl BackendAppBuilder {
    /// A builder with no field set.
    pub fn new() -> (r: Self)
        ensures
            r.app_name is None,
            r.server_name is None,
            r.path_manager is None,
            r.https_redirection is None,
            r.mutual_tls is None,
    {
        BackendAppBuilder {
            app_name: None,
            server_name: None,
            path_manager: None,
            https_redirection: None,
            mutual_tls: None,
        }
    }

    /// Sets the application name.
    pub fn app_name(&mut self, app_name: String) -> (r: &mut Self)
        ensures
            r.app_name == Some(app_name),
            r.server_name == old(self).server_name,
            r.path_manager == old(self).path_manager,
            r.https_redirection == old(self).https_redirection,
            r.mutual_tls == old(self).mutual_tls,
            *final(self) == *final(r),
    {
        self.app_name = Some(app_name);
        self
    }

    /// Sets the server name from its text, in ASCII lower case.
    pub fn server_name(&mut self, server_name: &str) -> (r: &mut Self)
        ensures
            r.server_name matches Some(n) && n@ == ascii_lower(server_name@),
            r.app_name == old(self).app_name,
            r.path_manager == old(self).path_manager,
            r.https_redirection == old(self).https_redirection,
            r.mutual_tls == old(self).mutual_tls,
            *final(self) == *final(r),
    {
        self.server_name = Some(to_server_name(server_name));
        self
    }

    /// Sets the routes.
    pub fn path_manager(&mut self, path_manager: PathManager) -> (r: &mut Self)
        ensures
            r.path_manager == Some(path_manager),
            r.app_name == old(self).app_name,
            r.server_name == old(self).server_name,
            r.https_redirection == old(self).https_redirection,
            r.mutual_tls == old(self).mutual_tls,
            *final(self) == *final(r),
    {
        self.path_manager = Some(path_manager);
        self
    }

    /// Sets HTTPS redirection.
    pub fn https_redirection(&mut self, v: Option<bool>) -> (r: &mut Self)
        ensures
            r.https_redirection == Some(v),
            r.app_name == old(self).app_name,
            r.server_name == old(self).server_name,
            r.path_manager == old(self).path_manager,
            r.mutual_tls == old(self).mutual_tls,
            *final(self) == *final(r),
    {
        self.https_redirection = Some(v);
        self
    }

    /// Sets mutual TLS.
    pub fn mutual_tls(&mut self, v: Option<bool>) -> (r: &mut Self)
        ensures
            r.mutual_tls == Some(v),
            r.app_name == old(self).app_name,
            r.server_name == old(self).server_name,
            r.path_manager == old(self).path_manager,
            r.https_redirection == old(self).https_redirection,
            *final(self) == *final(r),
    {
        self.mutual_tls = Some(v);
        self
    }

    /// Builds the application: fails on the first of name, server name and
    /// routes that is not set; unset TLS settings are `None`.
    pub fn build(&self) -> (r: Result<BackendApp, RpxyError>)
        ensures
            self.app_name is None ==> r == Err::<BackendApp, RpxyError>(
                RpxyError::BuildBackendApp(BackendAppField::AppName),
            ),
            self.app_name is Some && self.server_name is None ==> r == Err::<BackendApp, RpxyError>(
                RpxyError::BuildBackendApp(BackendAppField::ServerName),
            ),
            self.app_name is Some && self.server_name is Some && self.path_manager is None ==> r
                == Err::<BackendApp, RpxyError>(
                RpxyError::BuildBackendApp(BackendAppField::PathManager),
            ),
            r is Ok <==> self.app_name is Some && self.server_name is Some && self.path_manager is Some,
            r matches Ok(b) ==> {
                &&& Some(b.app_name) == self.app_name
                &&& b.server_name@ == self.server_name->0@
                &&& same_routes(b.path_manager.routes@, self.path_manager->0.routes@)
                &&& b.https_redirection == match self.https_redirection {
                    Some(v) => v,
                    None => None,
                }
                &&& b.mutual_tls == match self.mutual_tls {
                    Some(v) => v,
                    None => None,
                }
            },
    {
        let app_name = match &self.app_name {
            Some(n) => n.clone(),
            None => {
                return Err(RpxyError::BuildBackendApp(BackendAppField::AppName));
            },
        };
        let server_name = match &self.server_name {
            Some(n) => n.duplicate(),
            None => {
                return Err(RpxyError::BuildBackendApp(BackendAppField::ServerName));
            },
        };
        let path_manager = match &self.path_manager {
            Some(p) => p.duplicate(),
            None => {
                return Err(RpxyError::BuildBackendApp(BackendAppField::PathManager));
            },
        };
        let https_redirection = match self.https_redirection {
            Some(v) => v,
            None => None,
        };
        let mutual_tls = match self.mutual_tls {
            Some(v) => v,
            None => None,
        };
        Ok(BackendApp { app_name, server_name, path_manager, https_redirection, mutual_tls })
    }
}

/// `b` is the backend application built from the settings `c`.
pub open spec fn backend_built(b: BackendApp, c: AppConfig) -> bool {
    &&& b.app_name == c.app_name
    &&& b.server_name@ == ascii_lower(c.server_name@)
    &&& same_routes(b.path_manager.routes@, c.reverse_proxy@)
    &&& b.https_redirection == match c.tls {
        Some(t) => Some(t.https_redirection),
        None => None,
    }
    &&& b.mutual_tls == match c.tls {
        Some(t) => Some(t.mutual_tls),
        None => None,
    }
}

impl BackendApp {
    /// The backend application of the settings `app_config`; TLS settings
    /// are set only for an application with TLS.
    pub fn try_from(app_config: &AppConfig) -> (r: Result<BackendApp, RpxyError>)
        ensures
            r matches Ok(b) && backend_built(b, *app_config),
    {
        let mut backend_builder = BackendAppBuilder::new();
        let path_manager = PathManager::from_app_config(app_config);
        backend_builder.app_name(app_config.app_name.clone()).server_name(
            app_config.server_name.as_str(),
        ).path_manager(path_manager);
        match &app_config.tls {
            None => backend_builder.build(),
            Some(tls) => {
                backend_builder.https_redirection(Some(tls.https_redirection)).mutual_tls(
                    Some(tls.mutual_tls),
                );
                backend_builder.build()
            },
        }
    }
}

/// Whether the wildcard pattern with these bytes is accepted by the
/// `wildcard` crate (`*`, `?` and `\\` escapes, case sensitive).
pub uninterp spec fn wildcard_is_valid(pattern: Seq<u8>) -> bool;

/// Whether `input` matches the wildcard pattern, as the `wildcard` crate
/// decides it.
pub uninterp spec fn wildcard_is_match(pattern: Seq<u8>, input: Seq<u8>) -> bool;

/// `wildcard::Wildcard::new` on `pattern`, then `Wildcard::is_match` on
/// `input`: `None` where the pattern is refused, else whether `input`
/// matches. Both results are named, not stated.
#[verifier::external_body]
fn wildcard_match(pattern: &[u8], input: &[u8]) -> (r: Option<bool>)
    ensures
        r is Some <==> wildcard_is_valid(pattern@),
        r matches Some(b) ==> b == wildcard_is_match(pattern@, input@),
{
    match wildcard::Wildcard::new(pattern) {
        Ok(w) => Some(w.is_match(input)),
        Err(_) => None,
    }
}

/// The application registered under `pattern` serves `name` by wildcard: the
/// pattern holds a `*`, is a valid wildcard, and `name` matches it.
pub open spec fn wildcard_serves(pattern: Seq<char>, name: Seq<char>) -> bool {
    &&& pattern.contains('*')
    &&& wildcard_is_valid(encode_utf8(pattern))
    &&& wildcard_is_match(encode_utf8(pattern), encode_utf8(name))
}

/// Backend applications by server name, and the server name whose
/// application serves plaintext requests for unknown server names.
pub struct BackendAppManager {
    apps: Vec<(ServerName, BackendApp)>,
    default_server_name: Option<ServerName>,
}

/// The registered applications as text keys and applications.
pub open spec fn app_log(apps: Seq<(ServerName, BackendApp)>) -> Seq<(Seq<char>, BackendApp)> {
    apps.map_values(|e: (ServerName, BackendApp)| (e.0@, e.1))
}

/// No two entries have the same key.
pub open spec fn keys_distinct(s: Seq<(Seq<char>, BackendApp)>) -> bool {
    forall|i: int, j: int| 0 <= i < s.len() && 0 <= j < s.len() && i != j ==> #[trigger] s[i].0 != #[trigger] s[j].0
}

impl View for BackendAppManager {
    type V = Map<Seq<char>, BackendApp>;

    closed spec fn view(&self) -> Map<Seq<char>, BackendApp> {
        latest(app_log(self.apps@))
    }
}

impl BackendAppManager {
    /// The server name whose application serves plaintext requests for
    /// unknown server names, as text.
    pub closed spec fn default_name(&self) -> Option<Seq<char>> {
        match self.default_server_name {
            Some(n) => Some(n@),
            None => None,
        }
    }

    /// The server name whose application serves plaintext requests for
    /// unknown server names.
    pub fn default_server_name(&self) -> (r: Option<&ServerName>)
        ensures
            match r {
                Some(n) => self.default_name() == Some(n@),
                None => self.default_name() is None,
            },
    {
        match &self.default_server_name {
            Some(n) => Some(n),
            None => None,
        }
    }

    /// Each server name is registered once.
    #[verifier::type_invariant]
    closed spec fn wf(&self) -> bool {
        keys_distinct(app_log(self.apps@))
    }

    /// With each server name registered once, every registration is the
    /// one in force.
    proof fn lemma_entries_live(&self)
        requires
            self.wf(),
        ensures
            forall|i: int|
                0 <= i < self.apps@.len() ==> self@.contains_key(#[trigger] self.apps@[i].0@)
                    && self@[self.apps@[i].0@] == self.apps@[i].1,
            forall|k: Seq<char>|
                #[trigger] self@.contains_key(k) ==> exists|i: int|
                    0 <= i < self.apps@.len() && (#[trigger] self.apps@[i]).0@ == k,
    {
        let log = app_log(self.apps@);
        assert forall|i: int| 0 <= i < self.apps@.len() implies self@.contains_key(
            #[trigger] self.apps@[i].0@,
        ) && self@[self.apps@[i].0@] == self.apps@[i].1 by {
            assert(log[i].0 == self.apps@[i].0@);
            assert forall|l: int| i < l < log.len() implies (#[trigger] log[l]).0 != log[i].0 by {}
            lemma_latest_value(log, i);
        }
        assert forall|k: Seq<char>| #[trigger] self@.contains_key(k) implies exists|i: int|
            0 <= i < self.apps@.len() && (#[trigger] self.apps@[i]).0@ == k by {
            lemma_latest_contains(log, k);
            let j = choose|j: int| 0 <= j < log.len() && (#[trigger] log[j]).0 == k;
            assert(self.apps@[j].0@ == k);
        }
    }

    /// A manager with no application and no default server name.
    pub fn new() -> (r: Self)
        ensures
            r@ == Map::<Seq<char>, BackendApp>::empty(),
            r.default_name() is None,
    {
        let r = BackendAppManager { apps: Vec::new(), default_server_name: None };
        assert(app_log(r.apps@).len() == 0);
        r
    }

    /// Index of the registration of `name`, if any.
    fn index_of(&self, name: &str) -> (r: Option<usize>)
        ensures
            r matches Some(i) ==> i < self.apps@.len() && self.apps@[i as int].0@ == name@,
            r is None ==> !self@.contains_key(name@),
    {
        proof {
            use_type_invariant(self);
        }
        let ghost log = app_log(self.apps@);
        for i in 0..self.apps.len()
            invariant
                log == app_log(self.apps@),
                forall|l: int| 0 <= l < i ==> (#[trigger] log[l]).0 != name@,
        {
            if str_eq(self.apps[i].0.as_str(), name) {
                return Some(i);
            }
        }
        proof {
            lemma_latest_contains(log, name@);
        }
        None
    }

    /// Registers `app` under `server_name`, replacing an earlier
    /// registration of the same server name.
    pub fn insert(&mut self, server_name: ServerName, app: BackendApp)
        ensures
            final(self)@ == old(self)@.insert(server_name@, app),
            final(self).default_name() == old(self).default_name(),
    {
        proof {
            use_type_invariant(&*self);
        }
        let ghost k = server_name@;
        let ghost old_log = app_log(self.apps@);
        let found = self.index_of(server_name.as_str());
        let mut apps: Vec<(ServerName, BackendApp)> = Vec::new();
        proof {
            assert(app_log(apps@).len() == 0);
        }
        std::mem::swap(&mut apps, &mut self.apps);
        match found {
            Some(i) => {
                proof {
                    let nl = app_log(apps@.update(i as int, (server_name, app)));
                    assert(nl == old_log.update(i as int, (k, app)));
                    assert(old_log[i as int].0 == k);
                    assert forall|a: int, b: int| 0 <= a < nl.len() && 0 <= b < nl.len() && a != b implies #[trigger] nl[a].0 != #[trigger] nl[b].0 by {
                        assert(nl[a].0 == old_log[a].0);
                        assert(nl[b].0 == old_log[b].0);
                    }
                    lemma_latest_update(old_log, i as int, app);
                }
                apps.set(i, (server_name, app));
                self.apps = apps;
            },
            None => {
                proof {
                    let log = app_log(apps@.push((server_name, app)));
                    assert(log.drop_last() == old_log);
                    assert(log.last() == (k, app));
                    lemma_latest_contains(old_log, k);
                    assert forall|a: int, b: int| 0 <= a < log.len() && 0 <= b < log.len() && a != b implies #[trigger] log[a].0 != #[trigger] log[b].0 by {
                        if a == log.len() - 1 {
                            assert(old_log[b].0 == log[b].0);
                        } else if b == log.len() - 1 {
                            assert(old_log[a].0 == log[a].0);
                        } else {
                            assert(old_log[a].0 == log[a].0);
                            assert(old_log[b].0 == log[b].0);
                        }
                    }
                }
                apps.push((server_name, app));
                self.apps = apps;
            },
        }
    }

    /// Finds the application for `server_name`: the application registered
    /// under exactly that name if there is one; otherwise an application
    /// whose server name is a wildcard pattern that `server_name` matches;
    /// otherwise none. An exact registration always wins over wildcards.
    pub fn find_app(&self, server_name: &ServerName) -> (r: Option<&BackendApp>)
        ensures
            self@.contains_key(server_name@) ==> (r matches Some(a) && *a == self@[server_name@]),
            !self@.contains_key(server_name@) ==> match r {
                Some(a) => exists|k: Seq<char>|
                    #[trigger] self@.contains_key(k) && wildcard_serves(k, server_name@) && self@[k] == *a,
                None => forall|k: Seq<char>|
                    #[trigger] self@.contains_key(k) ==> !wildcard_serves(k, server_name@),
            },
    {
        proof {
            use_type_invariant(self);
            self.lemma_entries_live();
        }
        if let Some(i) = self.index_of(server_name.as_str()) {
            return Some(&self.apps[i].1);
        }
        let name_bytes = server_name.as_str().as_bytes();
        for i in 0..self.apps.len()
            invariant
                self.wf(),
                !self@.contains_key(server_name@),
                name_bytes@ == encode_utf8(server_name@),
                forall|l: int| 0 <= l < i ==> !wildcard_serves(#[trigger] self.apps@[l].0@, server_name@),
        {
            let pattern = self.apps[i].0.as_str();
            if contains_char(pattern, '*') {
                if let Some(true) = wildcard_match(pattern.as_bytes(), name_bytes) {
                    proof {
                        self.lemma_entries_live();
                        assert(self@.contains_key(self.apps@[i as int].0@));
                        assert(wildcard_serves(self.apps@[i as int].0@, server_name@));
                    }
                    return Some(&self.apps[i].1);
                }
            }
        }
        proof {
            assert forall|k: Seq<char>| #[trigger] self@.contains_key(k) implies !wildcard_serves(k, server_name@) by {
                let j = choose|j: int| 0 <= j < self.apps@.len() && (#[trigger] self.apps@[j]).0@ == k;
                assert(!wildcard_serves(self.apps@[j].0@, server_name@));
            }
        }
        None
    }
}


impl Default for BackendAppManager {
    /// A manager with no application and no default server name.
    fn default() -> (r: Self)
        ensures
            r@ == Map::<Seq<char>, BackendApp>::empty(),
            r.default_name() is None,
    {
        BackendAppManager::new()
    }
}

/// The server name under which settings register their application.
pub open spec fn registered_name(c: AppConfig) -> Seq<char> {
    ascii_lower(c.server_name@)
}

/// No later settings of the list register under the same server name as
/// the `i`-th.
pub open spec fn is_last_registration(inner: Seq<AppConfig>, i: int) -> bool {
    forall|j: int| i < j < inner.len() ==> registered_name(#[trigger] inner[j]) != registered_name(inner[i])
}

/// `m` holds the applications of `list`: each server name of the list is
/// registered, with the application of the last settings entry naming it;
/// the default server name, if any, is the server name of an application
/// named like the list's default application, and there is one exactly when
/// such an application is registered.
pub open spec fn registered_from(m: BackendAppManager, list: AppConfigList) -> bool {
    let inner = list.inner@;
    &&& forall|k: Seq<char>|
        #[trigger] m@.contains_key(k) <==> exists|i: int|
            0 <= i < inner.len() && registered_name(#[trigger] inner[i]) == k
    &&& forall|i: int|
        0 <= i < inner.len() && is_last_registration(inner, i) ==> backend_built(
            m@[registered_name(#[trigger] inner[i])],
            inner[i],
        )
    &&& match list.default_app {
        None => m.default_name() is None,
        Some(n) => {
            &&& (m.default_name() is Some <==> exists|k: Seq<char>|
                #[trigger] m@.contains_key(k) && m@[k].app_name@ == n@)
            &&& (m.default_name() matches Some(d) ==> exists|k: Seq<char>|
                #[trigger] m@.contains_key(k) && m@[k].app_name@ == n@ && m@[k].server_name@ == d)
        },
    }
}

/// Every application of the configuration is served: once the settings of
/// a configuration are built and registered, the ASCII lower case of each
/// application's server name is registered, and, unless a later application
/// has the same server name up to case, with an application of that name.
pub proof fn configured_apps_are_registered(
    config: ConfigToml,
    proxy: ProxyConfig,
    list: AppConfigList,
    m: BackendAppManager,
    i: int,
)
    requires
        settings_built(config, proxy, list),
        registered_from(m, list),
        0 <= i < config.app_entries().len(),
    ensures
        config.app_entries()[i].1.server_name is Some,
        m@.contains_key(ascii_lower(config.app_entries()[i].1.server_name->0@)),
        (forall|j: int|
            i < j < config.app_entries().len() ==> ascii_lower(
                (#[trigger] config.app_entries()[j]).1.server_name->0@,
            ) != ascii_lower(config.app_entries()[i].1.server_name->0@)) ==> m@[ascii_lower(
            config.app_entries()[i].1.server_name->0@,
        )].app_name == config.app_entries()[i].0,
{
    let inner = list.inner@;
    let apps = config.app_entries();
    assert(app_config_built(inner[i], apps[i].0, apps[i].1));
    assert(registered_name(inner[i]) == ascii_lower(apps[i].1.server_name->0@));
    if forall|j: int| i < j < apps.len() ==> ascii_lower((#[trigger] apps[j]).1.server_name->0@) != ascii_lower(
        apps[i].1.server_name->0@,
    ) {
        assert forall|j: int| i < j < inner.len() implies registered_name(#[trigger] inner[j]) != registered_name(inner[i]) by {
            assert(app_config_built(inner[j], apps[j].0, apps[j].1));
            assert(ascii_lower(apps[j].1.server_name->0@) != ascii_lower(apps[i].1.server_name->0@));
        }
    }
}

impl BackendAppManager {
    /// Registers the application of each settings entry under its server
    /// name; a later entry with the same server name replaces an earlier one.
    fn register_all(inner: &Vec<AppConfig>) -> (m: Self)
        ensures
            m.default_name() is None,
            forall|k: Seq<char>|
                #[trigger] m@.contains_key(k) <==> exists|i: int|
                    0 <= i < inner@.len() && registered_name(#[trigger] inner@[i]) == k,
            forall|i: int|
                0 <= i < inner@.len() && is_last_registration(inner@, i) ==> backend_built(
                    m@[registered_name(#[trigger] inner@[i])],
                    inner@[i],
                ),
    {
        let mut manager = BackendAppManager::new();
        let ghost cfgs = inner@;
        let ghost mut built: Seq<BackendApp> = Seq::empty();
        for i in 0..inner.len()
            invariant
                cfgs == inner@,
                manager.default_name() is None,
                built.len() == i,
                forall|l: int| 0 <= l < i ==> backend_built(#[trigger] built[l], cfgs[l]),
                manager@ == latest(
                    Seq::new(i as nat, |l: int| (registered_name(cfgs[l]), built[l])),
                ),
        {
            let app_config = &inner[i];
            let backend = match BackendApp::try_from(app_config) {
                Ok(b) => b,
                Err(_) => {
                    proof {
                        assert(false);
                    }
                    return manager;
                },
            };
            let ghost b = backend;
            manager.insert(to_server_name(app_config.server_name.as_str()), backend);
            proof {
                let old_built = built;
                built = built.push(b);
                assert(Seq::new(i as nat, |l: int| (registered_name(cfgs[l]), built[l])) =~= Seq::new(
                    i as nat,
                    |l: int| (registered_name(cfgs[l]), old_built[l]),
                ));
                let s1 = Seq::new((i + 1) as nat, |l: int| (registered_name(cfgs[l]), built[l]));
                let s0 = Seq::new(i as nat, |l: int| (registered_name(cfgs[l]), built[l]));
                assert(s1.drop_last() =~= s0);
                assert(s1.last() == (registered_name(cfgs[i as int]), b));
            }
        }
        let ghost log = Seq::new(cfgs.len(), |l: int| (registered_name(cfgs[l]), built[l]));
        proof {
            assert forall|k: Seq<char>| #[trigger] manager@.contains_key(k) <==> exists|i: int|
                0 <= i < cfgs.len() && registered_name(#[trigger] cfgs[i]) == k by {
                lemma_latest_contains(log, k);
                if exists|i: int| 0 <= i < cfgs.len() && registered_name(#[trigger] cfgs[i]) == k {
                    let i = choose|i: int| 0 <= i < cfgs.len() && registered_name(#[trigger] cfgs[i]) == k;
                    assert(log[i].0 == k);
                }
            }
            assert forall|i: int| 0 <= i < cfgs.len() && is_last_registration(cfgs, i) implies backend_built(
                manager@[registered_name(#[trigger] cfgs[i])],
                cfgs[i],
            ) by {
                assert forall|l: int| i < l < log.len() implies (#[trigger] log[l]).0 != log[i].0 by {
                    assert(registered_name(cfgs[l]) != registered_name(cfgs[i]));
                }
                lemma_latest_value(log, i);
            }
        }
        manager
    }

    /// The server name of a registered application named `app_name`, if any.
    fn server_name_of_app(&self, app_name: &String) -> (r: Option<ServerName>)
        ensures
            r is Some <==> exists|k: Seq<char>| #[trigger] self@.contains_key(k) && self@[k].app_name@ == app_name@,
            r matches Some(d) ==> exists|k: Seq<char>|
                #[trigger] self@.contains_key(k) && self@[k].app_name@ == app_name@ && self@[k].server_name@ == d@,
    {
        proof {
            use_type_invariant(self);
            self.lemma_entries_live();
        }
        let mut found: Option<ServerName> = None;
        for i in 0..self.apps.len()
            invariant
                self.wf(),
                found is None ==> forall|l: int| 0 <= l < i ==> (#[trigger] self.apps@[l]).1.app_name@ != app_name@,
                found matches Some(d) ==> exists|l: int| 0 <= l < i
                    && (#[trigger] self.apps@[l]).1.app_name@ == app_name@
                    && self.apps@[l].1.server_name@ == d@,
        {
            if found.is_none() && self.apps[i].1.app_name == *app_name {
                found = Some(self.apps[i].1.server_name.duplicate());
                assert(self.apps@[i as int].1.app_name@ == app_name@);
            }
        }
        proof {
            self.lemma_entries_live();
            if found is None {
                assert forall|k: Seq<char>| #[trigger] self@.contains_key(k) implies self@[k].app_name@
                    != app_name@ by {
                    let j = choose|j: int| 0 <= j < self.apps@.len() && (#[trigger] self.apps@[j]).0@ == k;
                    assert(self.apps@[j].1.app_name@ != app_name@);
                }
            } else {
                let d = found->0;
                let l = choose|l: int| 0 <= l < self.apps@.len()
                    && (#[trigger] self.apps@[l]).1.app_name@ == app_name@
                    && self.apps@[l].1.server_name@ == d@;
                assert(self@.contains_key(self.apps@[l].0@));
            }
        }
        found
    }

    /// Registers the application of each settings entry under its server
    /// name (a later entry with the same server name replaces an earlier
    /// one), then picks as default server name the server name of an
    /// application named like the configured default application, if any.
    pub fn try_from(config_list: &AppConfigList) -> (r: Result<Self, RpxyError>)
        ensures
            r matches Ok(m) && registered_from(m, *config_list),
    {
        let mut manager = BackendAppManager::register_all(&config_list.inner);
        match &config_list.default_app {
            None => {},
            Some(default_app_name) => {
                let found = manager.server_name_of_app(default_app_name);
                proof {
                    use_type_invariant(&manager);
                }
                manager.default_server_name = found;
            },
        }
        Ok(manager)
    }
}

} // verus!
