//! The configuration: its defaults, and how a file and the environment change them.

use vstd::prelude::*;

use crate::error::{Error, ErrorView};
use crate::text::{eq_ignore_ascii_case, joined, same_text};

verus! {

/// The whole configuration.
#[derive(Debug)]
pub struct Config {
    pub server: ServerConfig,
    pub auth: AuthConfig,
    pub daemon: DaemonConfig,
}

/// Where the relay listens.
#[derive(Debug)]
pub struct ServerConfig {
    pub listen: String,
    pub shutdown_grace_secs: u64,
}

/// Whose tokens the relay takes.
#[derive(Debug)]
pub struct AuthConfig {
    pub issuer: String,
    pub audience: String,
    pub allowed_org: String,
    pub jwks_cache_ttl_secs: u64,
    /// Path to the PEM of the Ed25519 public key of local tokens.
    pub local_key_file: Option<String>,
}

/// The program that clients are connected to.
#[derive(Debug)]
pub struct DaemonConfig {
    pub nix_daemon_path: String,
    pub extra_args: Vec<String>,
    pub timeout_secs: u64,
    pub max_connections: u32,
}

/// The mathematical value of a [`Config`].
pub struct ConfigView {
    pub server: ServerConfigView,
    pub auth: AuthConfigView,
    pub daemon: DaemonConfigView,
}

/// The mathematical value of a [`ServerConfig`].
pub struct ServerConfigView {
    pub listen: Seq<char>,
    pub shutdown_grace_secs: u64,
}

/// The mathematical value of an [`AuthConfig`].
pub struct AuthConfigView {
    pub issuer: Seq<char>,
    pub audience: Seq<char>,
    pub allowed_org: Seq<char>,
    pub jwks_cache_ttl_secs: u64,
    pub local_key_file: Option<Seq<char>>,
}

/// The mathematical value of a [`DaemonConfig`].
#[verifier::ext_equal]
pub struct DaemonConfigView {
    pub nix_daemon_path: Seq<char>,
    pub extra_args: Seq<Seq<char>>,
    pub timeout_secs: u64,
    pub max_connections: u32,
}

/// The texts in a list of strings.
pub open spec fn texts(strings: Seq<String>) -> Seq<Seq<char>> {
    strings.map_values(|s: String| s@)
}

impl View for Config {
    type V = ConfigView;

    open spec fn view(&self) -> ConfigView {
        ConfigView { server: self.server@, auth: self.auth@, daemon: self.daemon@ }
    }
}

impl View for ServerConfig {
    type V = ServerConfigView;

    open spec fn view(&self) -> ServerConfigView {
        ServerConfigView {
            listen: self.listen@,
            shutdown_grace_secs: self.shutdown_grace_secs,
        }
    }
}

impl View for AuthConfig {
    type V = AuthConfigView;

    open spec fn view(&self) -> AuthConfigView {
        AuthConfigView {
            issuer: self.issuer@,
            audience: self.audience@,
            allowed_org: self.allowed_org@,
            jwks_cache_ttl_secs: self.jwks_cache_ttl_secs,
            local_key_file: match self.local_key_file {
                Some(path) => Some(path@),
                None => None,
            },
        }
    }
}

impl View for DaemonConfig {
    type V = DaemonConfigView;

    open spec fn view(&self) -> DaemonConfigView {
        DaemonConfigView {
            nix_daemon_path: self.nix_daemon_path@,
            extra_args: texts(self.extra_args@),
            timeout_secs: self.timeout_secs,
            max_connections: self.max_connections,
        }
    }
}

impl ServerConfigView {
    pub open spec fn default_view() -> ServerConfigView {
        ServerConfigView { listen: "0.0.0.0:8080"@, shutdown_grace_secs: 30 }
    }
}

impl AuthConfigView {
    pub open spec fn default_view() -> AuthConfigView {
        AuthConfigView {
            issuer: "https://token.actions.githubusercontent.com"@,
            audience: "api://nix-relay"@,
            allowed_org: Seq::empty(),
            jwks_cache_ttl_secs: 3600,
            local_key_file: None,
        }
    }
}

impl DaemonConfigView {
    pub open spec fn default_view() -> DaemonConfigView {
        DaemonConfigView {
            nix_daemon_path: "nix-daemon"@,
            extra_args: seq!["--stdio"@],
            timeout_secs: 3600,
            max_connections: 32,
        }
    }
}

impl ConfigView {
    pub open spec fn default_view() -> ConfigView {
        ConfigView {
            server: ServerConfigView::default_view(),
            auth: AuthConfigView::default_view(),
            daemon: DaemonConfigView::default_view(),
        }
    }
}

impl Default for ServerConfig {
    fn default() -> (r: Self)
        ensures
            r@ == ServerConfigView::default_view(),
    {
        ServerConfig { listen: "0.0.0.0:8080".to_string(), shutdown_grace_secs: 30 }
    }
}

impl Default for AuthConfig {
    fn default() -> (r: Self)
        ensures
            r@ == AuthConfigView::default_view(),
    {
        AuthConfig {
            issuer: "https://token.actions.githubusercontent.com".to_string(),
            audience: "api://nix-relay".to_string(),
            allowed_org: String::new(),
            jwks_cache_ttl_secs: 3600,
            local_key_file: None,
        }
    }
}

impl Default for DaemonConfig {
    fn default() -> (r: Self)
        ensures
            r@ == DaemonConfigView::default_view(),
    {
        let mut extra_args: Vec<String> = Vec::new();
        extra_args.push("--stdio".to_string());
        assert(texts(extra_args@) =~= seq!["--stdio"@]);
        DaemonConfig {
            nix_daemon_path: "nix-daemon".to_string(),
            extra_args,
            timeout_secs: 3600,
            max_connections: 32,
        }
    }
}

impl Default for Config {
    fn default() -> (r: Self)
        ensures
            r@ == ConfigView::default_view(),
    {
        Config {
            server: ServerConfig::default(),
            auth: AuthConfig::default(),
            daemon: DaemonConfig::default(),
        }
    }
}

/// A copy of the texts in `strings`.
fn copy_texts(strings: &Vec<String>) -> (r: Vec<String>)
    ensures
        texts(r@) == texts(strings@),
{
    let mut copy: Vec<String> = Vec::new();
    let mut i: usize = 0;
    while i < strings.len()
        invariant
            i <= strings@.len(),
            copy@.len() == i,
            forall|j: int| 0 <= j < i ==> (#[trigger] copy@[j])@ == strings@[j]@,
        decreases strings@.len() - i,
    {
        copy.push(strings[i].clone());
        i = i + 1;
    }
    assert(texts(copy@) =~= texts(strings@));
    copy
}

impl Clone for ServerConfig {
    fn clone(&self) -> (r: Self)
        ensures
            r@ == self@,
    {
        ServerConfig {
            listen: self.listen.clone(),
            shutdown_grace_secs: self.shutdown_grace_secs,
        }
    }
}

impl Clone for AuthConfig {
    fn clone(&self) -> (r: Self)
        ensures
            r@ == self@,
    {
        AuthConfig {
            issuer: self.issuer.clone(),
            audience: self.audience.clone(),
            allowed_org: self.allowed_org.clone(),
            jwks_cache_ttl_secs: self.jwks_cache_ttl_secs,
            local_key_file: match &self.local_key_file {
                Some(path) => Some(path.clone()),
                None => None,
            },
        }
    }
}

impl Clone for DaemonConfig {
    fn clone(&self) -> (r: Self)
        ensures
            r@ == self@,
    {
        DaemonConfig {
            nix_daemon_path: self.nix_daemon_path.clone(),
            extra_args: copy_texts(&self.extra_args),
            timeout_secs: self.timeout_secs,
            max_connections: self.max_connections,
        }
    }
}

impl Clone for Config {
    fn clone(&self) -> (r: Self)
        ensures
            r@ == self@,
    {
        Config { server: self.server.clone(), auth: self.auth.clone(), daemon: self.daemon.clone() }
    }
}

impl AuthConfigView {
    /// Tokens of an OpenID Connect issuer are taken.
    pub open spec fn has_oidc(self) -> bool {
        self.allowed_org.len() != 0
    }

    /// Tokens signed with a local key are taken.
    pub open spec fn has_local_key(self) -> bool {
        self.local_key_file is Some
    }

    /// Tokens of some kind are taken.
    pub open spec fn has_any_backend(self) -> bool {
        self.has_oidc() || self.has_local_key()
    }
}

impl AuthConfig {
    /// Whether tokens of an OpenID Connect issuer are taken.
    pub fn has_oidc(&self) -> (r: bool)
        ensures
            r == self@.has_oidc(),
    {
        !self.allowed_org.as_str().is_empty()
    }

    /// Whether tokens signed with a local key are taken.
    pub fn has_local_key(&self) -> (r: bool)
        ensures
            r == self@.has_local_key(),
    {
        self.local_key_file.is_some()
    }

    /// Whether tokens of some kind are taken.
    pub fn has_any_backend(&self) -> (r: bool)
        ensures
            r == self@.has_any_backend(),
    {
        self.has_oidc() || self.has_local_key()
    }
}

/// A value that a file or the environment gives to a key.
#[derive(Debug)]
pub enum Setting {
    Text(String),
    Number(u64),
    List(Vec<String>),
    /// Nothing, given explicitly.
    Null,
    /// A value of no use to any key, with a word for what it is.
    Other(String),
}

/// The mathematical value of a [`Setting`].
pub enum SettingView {
    Text(Seq<char>),
    Number(u64),
    List(Seq<Seq<char>>),
    Null,
    Other(Seq<char>),
}

impl View for Setting {
    type V = SettingView;

    open spec fn view(&self) -> SettingView {
        match self {
            Setting::Text(t) => SettingView::Text(t@),
            Setting::Number(n) => SettingView::Number(*n),
            Setting::List(items) => SettingView::List(texts(items@)),
            Setting::Null => SettingView::Null,
            Setting::Other(what) => SettingView::Other(what@),
        }
    }
}

/// The settings of one source, by key. The last setting of a key counts.
pub open spec fn settings_of(entries: Seq<(String, Setting)>) -> Map<Seq<char>, SettingView>
    decreases entries.len(),
{
    if entries.len() == 0 {
        Map::empty()
    } else {
        settings_of(entries.drop_last()).insert(entries.last().0@, entries.last().1@)
    }
}

/// The settings of a file under those of the environment.
pub open spec fn layered(
    file: Map<Seq<char>, SettingView>,
    env: Map<Seq<char>, SettingView>,
) -> Map<Seq<char>, SettingView> {
    file.union_prefer_right(env)
}

/// The text at `key`, or `default` if nothing is set there. Any other setting is of no use.
pub open spec fn text_at(
    settings: Map<Seq<char>, SettingView>,
    key: Seq<char>,
    default: Seq<char>,
) -> Option<Seq<char>> {
    if !settings.contains_key(key) {
        Some(default)
    } else {
        match settings[key] {
            SettingView::Text(t) => Some(t),
            _ => None,
        }
    }
}

/// The number at `key`, or `default` if nothing is set there. Any other setting is of no use.
pub open spec fn number_at(
    settings: Map<Seq<char>, SettingView>,
    key: Seq<char>,
    default: u64,
) -> Option<u64> {
    if !settings.contains_key(key) {
        Some(default)
    } else {
        match settings[key] {
            SettingView::Number(n) => Some(n),
            _ => None,
        }
    }
}

/// The number at `key` that fits in 32 bits, or `default` if nothing is set there. Any other
/// setting is of no use.
pub open spec fn short_number_at(
    settings: Map<Seq<char>, SettingView>,
    key: Seq<char>,
    default: u32,
) -> Option<u32> {
    if !settings.contains_key(key) {
        Some(default)
    } else {
        match settings[key] {
            SettingView::Number(n) if n <= u32::MAX => Some(n as u32),
            _ => None,
        }
    }
}

/// The text at `key`, if one is set there. Any other setting but nothing is of no use.
pub open spec fn optional_text_at(
    settings: Map<Seq<char>, SettingView>,
    key: Seq<char>,
) -> Option<Option<Seq<char>>> {
    if !settings.contains_key(key) {
        Some(None)
    } else {
        match settings[key] {
            SettingView::Text(t) => Some(Some(t)),
            SettingView::Null => Some(None),
            _ => None,
        }
    }
}

/// The list at `key`, or `default` if nothing is set there. Any other setting is of no use.
pub open spec fn list_at(
    settings: Map<Seq<char>, SettingView>,
    key: Seq<char>,
    default: Seq<Seq<char>>,
) -> Option<Seq<Seq<char>>> {
    if !settings.contains_key(key) {
        Some(default)
    } else {
        match settings[key] {
            SettingView::List(items) => Some(items),
            _ => None,
        }
    }
}

/// The `auth` section that `settings` make of the defaults, unless one of them is of no use.
pub open spec fn auth_from(settings: Map<Seq<char>, SettingView>) -> Option<AuthConfigView> {
    let d = AuthConfigView::default_view();
    let org = text_at(settings, "auth.allowed_org"@, d.allowed_org);
    let audience = text_at(settings, "auth.audience"@, d.audience);
    let issuer = text_at(settings, "auth.issuer"@, d.issuer);
    let ttl = number_at(settings, "auth.jwks_cache_ttl_secs"@, d.jwks_cache_ttl_secs);
    let key_file = optional_text_at(settings, "auth.local_key_file"@);
    if settings.contains_key("auth"@) {
        None
    } else {
        match (org, audience, issuer, ttl, key_file) {
            (Some(allowed_org), Some(audience), Some(issuer), Some(ttl), Some(key_file)) => Some(
                AuthConfigView {
                    issuer,
                    audience,
                    allowed_org,
                    jwks_cache_ttl_secs: ttl,
                    local_key_file: key_file,
                },
            ),
            _ => None,
        }
    }
}

/// The `daemon` section that `settings` make of the defaults, unless one of them is of no use.
pub open spec fn daemon_from(settings: Map<Seq<char>, SettingView>) -> Option<DaemonConfigView> {
    let d = DaemonConfigView::default_view();
    let args = list_at(settings, "daemon.extra_args"@, d.extra_args);
    let connections = short_number_at(settings, "daemon.max_connections"@, d.max_connections);
    let path = text_at(settings, "daemon.nix_daemon_path"@, d.nix_daemon_path);
    let timeout = number_at(settings, "daemon.timeout_secs"@, d.timeout_secs);
    if settings.contains_key("daemon"@) {
        None
    } else {
        match (args, connections, path, timeout) {
            (Some(extra_args), Some(max_connections), Some(path), Some(timeout_secs)) => Some(
                DaemonConfigView {
                    nix_daemon_path: path,
                    extra_args,
                    timeout_secs,
                    max_connections,
                },
            ),
            _ => None,
        }
    }
}

/// The `server` section that `settings` make of the defaults, unless one of them is of no use.
pub open spec fn server_from(settings: Map<Seq<char>, SettingView>) -> Option<ServerConfigView> {
    let d = ServerConfigView::default_view();
    let listen = text_at(settings, "server.listen"@, d.listen);
    let grace = number_at(settings, "server.shutdown_grace_secs"@, d.shutdown_grace_secs);
    if settings.contains_key("server"@) {
        None
    } else {
        match (listen, grace) {
            (Some(listen), Some(grace)) => Some(
                ServerConfigView { listen, shutdown_grace_secs: grace },
            ),
            _ => None,
        }
    }
}

/// The configuration that `settings` make of the defaults, unless one of them is of no use to
/// its key.
pub open spec fn config_from(settings: Map<Seq<char>, SettingView>) -> Option<ConfigView> {
    match (auth_from(settings), daemon_from(settings), server_from(settings)) {
        (Some(auth), Some(daemon), Some(server)) => Some(ConfigView { server, auth, daemon }),
        _ => None,
    }
}

/// The setting of `key` among `entries`.
fn find_setting<'a>(entries: &'a Vec<(String, Setting)>, key: &str) -> (r: Option<&'a Setting>)
    ensures
        match r {
            Some(setting) => settings_of(entries@).contains_key(key@) && settings_of(entries@)[key@]
                == setting@,
            None => !settings_of(entries@).contains_key(key@),
        },
{
    let mut i: usize = entries.len();
    assert(entries@.take(i as int) == entries@);
    while 0 < i
        invariant
            i <= entries@.len(),
            settings_of(entries@.take(i as int)).contains_key(key@) <==> settings_of(
                entries@,
            ).contains_key(key@),
            settings_of(entries@.take(i as int)).contains_key(key@) ==> settings_of(
                entries@.take(i as int),
            )[key@] == settings_of(entries@)[key@],
        decreases i,
    {
        assert(entries@.take(i as int).drop_last() == entries@.take(i - 1));
        i = i - 1;
        if same_text(entries[i].0.as_str(), key) {
            return Some(&entries[i].1);
        }
    }
    None
}

/// The settings of a file and of the environment.
struct Layers<'a> {
    file: &'a Vec<(String, Setting)>,
    env: &'a Vec<(String, Setting)>,
}

impl<'a> Layers<'a> {
    spec fn settings(self) -> Map<Seq<char>, SettingView> {
        layered(settings_of(self.file@), settings_of(self.env@))
    }

    fn find(&self, key: &str) -> (r: Option<&'a Setting>)
        ensures
            match r {
                Some(setting) => self.settings().contains_key(key@) && self.settings()[key@]
                    == setting@,
                None => !self.settings().contains_key(key@),
            },
    {
        match find_setting(self.env, key) {
            Some(setting) => Some(setting),
            None => find_setting(self.file, key),
        }
    }

    fn text(&self, key: &str, default: String) -> (r: Result<String, String>)
        ensures
            match r {
                Ok(t) => text_at(self.settings(), key@, default@) == Some(t@),
                Err(_) => text_at(self.settings(), key@, default@) is None,
            },
    {
        match self.find(key) {
            None => Ok(default),
            Some(Setting::Text(t)) => Ok(t.clone()),
            Some(other) => Err(complaint(other, "a string", key)),
        }
    }

    fn number(&self, key: &str, default: u64) -> (r: Result<u64, String>)
        ensures
            match r {
                Ok(n) => number_at(self.settings(), key@, default) == Some(n),
                Err(_) => number_at(self.settings(), key@, default) is None,
            },
    {
        match self.find(key) {
            None => Ok(default),
            Some(Setting::Number(n)) => Ok(*n),
            Some(other) => Err(complaint(other, "u64", key)),
        }
    }

    fn short_number(&self, key: &str, default: u32) -> (r: Result<u32, String>)
        ensures
            match r {
                Ok(n) => short_number_at(self.settings(), key@, default) == Some(n),
                Err(_) => short_number_at(self.settings(), key@, default) is None,
            },
    {
        match self.find(key) {
            None => Ok(default),
            Some(setting) => {
                if let Setting::Number(n) = setting {
                    if *n <= u32::MAX as u64 {
                        return Ok(*n as u32);
                    }
                }
                Err(complaint(setting, "u32", key))
            },
        }
    }

    fn optional_text(&self, key: &str) -> (r: Result<Option<String>, String>)
        ensures
            match r {
                Ok(t) => optional_text_at(self.settings(), key@) == Some(crate::jwt::opt_text(t)),
                Err(_) => optional_text_at(self.settings(), key@) is None,
            },
    {
        match self.find(key) {
            None => Ok(None),
            Some(Setting::Text(t)) => Ok(Some(t.clone())),
            Some(Setting::Null) => Ok(None),
            Some(other) => Err(complaint(other, "a string", key)),
        }
    }

    fn list(&self, key: &str, default: Vec<String>) -> (r: Result<Vec<String>, String>)
        ensures
            match r {
                Ok(items) => list_at(self.settings(), key@, texts(default@)) == Some(texts(items@)),
                Err(_) => list_at(self.settings(), key@, texts(default@)) is None,
            },
    {
        match self.find(key) {
            None => Ok(default),
            Some(Setting::List(items)) => Ok(copy_texts(items)),
            Some(other) => Err(complaint(other, "a sequence", key)),
        }
    }

    fn table(&self, key: &str) -> (r: Result<(), String>)
        ensures
            r is Err == self.settings().contains_key(key@),
    {
        match self.find(key) {
            None => Ok(()),
            Some(setting) => Err(complaint(setting, "a table", key)),
        }
    }

    fn auth(&self) -> (r: Result<AuthConfig, String>)
        ensures
            match r {
                Ok(c) => auth_from(self.settings()) == Some(c@),
                Err(_) => auth_from(self.settings()) is None,
            },
    {
        let d = AuthConfig::default();
        self.table("auth")?;
        let allowed_org = self.text("auth.allowed_org", d.allowed_org)?;
        let audience = self.text("auth.audience", d.audience)?;
        let issuer = self.text("auth.issuer", d.issuer)?;
        let jwks_cache_ttl_secs: u64 = self.number(
            "auth.jwks_cache_ttl_secs",
            d.jwks_cache_ttl_secs,
        )?;
        let local_key_file = self.optional_text("auth.local_key_file")?;
        Ok(AuthConfig { issuer, audience, allowed_org, jwks_cache_ttl_secs, local_key_file })
    }

    fn daemon(&self) -> (r: Result<DaemonConfig, String>)
        ensures
            match r {
                Ok(c) => daemon_from(self.settings()) == Some(c@),
                Err(_) => daemon_from(self.settings()) is None,
            },
    {
        let d = DaemonConfig::default();
        self.table("daemon")?;
        let extra_args = self.list("daemon.extra_args", d.extra_args)?;
        let max_connections: u32 = self.short_number("daemon.max_connections", d.max_connections)?;
        let nix_daemon_path = self.text("daemon.nix_daemon_path", d.nix_daemon_path)?;
        let timeout_secs: u64 = self.number("daemon.timeout_secs", d.timeout_secs)?;
        Ok(DaemonConfig { nix_daemon_path, extra_args, timeout_secs, max_connections })
    }

    fn server(&self) -> (r: Result<ServerConfig, String>)
        ensures
            match r {
                Ok(c) => server_from(self.settings()) == Some(c@),
                Err(_) => server_from(self.settings()) is None,
            },
    {
        let d = ServerConfig::default();
        self.table("server")?;
        let listen = self.text("server.listen", d.listen)?;
        let shutdown_grace_secs: u64 = self.number(
            "server.shutdown_grace_secs",
            d.shutdown_grace_secs,
        )?;
        Ok(ServerConfig { listen, shutdown_grace_secs })
    }

    fn config(&self) -> (r: Result<Config, String>)
        ensures
            match r {
                Ok(c) => config_from(self.settings()) == Some(c@),
                Err(_) => config_from(self.settings()) is None,
            },
    {
        let auth = self.auth()?;
        let daemon = self.daemon()?;
        let server = self.server()?;
        Ok(Config { server, auth, daemon })
    }
}

/// What is said of a setting that its key has no use for.
fn complaint(setting: &Setting, wanted: &str, key: &str) -> String {
    let kind: &str = match setting {
        Setting::Text(_) => "string",
        Setting::Number(_) => "unsigned int",
        Setting::List(_) => "sequence",
        Setting::Null => "unit",
        Setting::Other(what) => what.as_str(),
    };
    joined("invalid type: found ", kind).concat(", expected ").concat(wanted).concat(
        " for key ",
    ).concat(key)
}

impl Config {
    /// The configuration: the defaults, changed by the settings of a file, and these by the
    /// settings of the environment.
    ///
    /// `file` is what reading the file came to. The words for a setting that its key has no use
    /// for are left open, behind the `building config: ` that every failure starts with.
    pub fn load(
        file: Result<Vec<(String, Setting)>, String>,
        env: &Vec<(String, Setting)>,
    ) -> (r: Result<Config, Error>)
        ensures
            match file {
                Err(e) => r matches Err(err) && err@ == ErrorView::Config(
                    "building config: "@ + e@,
                ),
                Ok(entries) => match config_from(
                    layered(settings_of(entries@), settings_of(env@)),
                ) {
                    Some(config) => r matches Ok(c) && c@ == config,
                    None => r matches Err(err) && err@ matches ErrorView::Config(text)
                        && "building config: "@.is_prefix_of(text),
                },
            },
    {
        let entries = match file {
            Ok(entries) => entries,
            Err(e) => return Err(Error::Config(joined("building config: ", e.as_str()))),
        };
        let layers = Layers { file: &entries, env };
        match layers.config() {
            Ok(config) => Ok(config),
            Err(e) => {
                let text = joined("building config: ", e.as_str());
                assert(text@.subrange(0, "building config: "@.len() as int)
                    == "building config: "@);
                Err(Error::Config(text))
            },
        }
    }
}

/// The key that an environment variable sets. The case of its name does not matter.
pub open spec fn variable_key(name: Seq<char>) -> Option<Seq<char>> {
    if crate::text::same_ignoring_case(name, "NIX_RELAY_LISTEN"@) {
        Some("server.listen"@)
    } else if crate::text::same_ignoring_case(name, "NIX_RELAY_SHUTDOWN_GRACE_SECS"@) {
        Some("server.shutdown_grace_secs"@)
    } else if crate::text::same_ignoring_case(name, "NIX_RELAY_ISSUER"@) {
        Some("auth.issuer"@)
    } else if crate::text::same_ignoring_case(name, "NIX_RELAY_AUDIENCE"@) {
        Some("auth.audience"@)
    } else if crate::text::same_ignoring_case(name, "NIX_RELAY_ALLOWED_ORG"@) {
        Some("auth.allowed_org"@)
    } else if crate::text::same_ignoring_case(name, "NIX_RELAY_JWKS_CACHE_TTL_SECS"@) {
        Some("auth.jwks_cache_ttl_secs"@)
    } else if crate::text::same_ignoring_case(name, "NIX_RELAY_DAEMON_PATH"@) {
        Some("daemon.nix_daemon_path"@)
    } else if crate::text::same_ignoring_case(name, "NIX_RELAY_TIMEOUT_SECS"@) {
        Some("daemon.timeout_secs"@)
    } else if crate::text::same_ignoring_case(name, "NIX_RELAY_MAX_CONNECTIONS"@) {
        Some("daemon.max_connections"@)
    } else if crate::text::same_ignoring_case(name, "NIX_RELAY_AUTH"@) {
        Some("auth"@)
    } else if crate::text::same_ignoring_case(name, "NIX_RELAY_DAEMON"@) {
        Some("daemon"@)
    } else if crate::text::same_ignoring_case(name, "NIX_RELAY_SERVER"@) {
        Some("server"@)
    } else {
        None
    }
}

/// The key that the environment variable `name` sets, if it sets one.
///
/// The variables of the three sections set a table of keys at once.
pub fn env_key(name: &str) -> (r: Option<String>)
    ensures
        match r {
            Some(key) => variable_key(name@) == Some(key@),
            None => variable_key(name@) is None,
        },
{
    if eq_ignore_ascii_case(name, "NIX_RELAY_LISTEN") {
        Some("server.listen".to_string())
    } else if eq_ignore_ascii_case(name, "NIX_RELAY_SHUTDOWN_GRACE_SECS") {
        Some("server.shutdown_grace_secs".to_string())
    } else if eq_ignore_ascii_case(name, "NIX_RELAY_ISSUER") {
        Some("auth.issuer".to_string())
    } else if eq_ignore_ascii_case(name, "NIX_RELAY_AUDIENCE") {
        Some("auth.audience".to_string())
    } else if eq_ignore_ascii_case(name, "NIX_RELAY_ALLOWED_ORG") {
        Some("auth.allowed_org".to_string())
    } else if eq_ignore_ascii_case(name, "NIX_RELAY_JWKS_CACHE_TTL_SECS") {
        Some("auth.jwks_cache_ttl_secs".to_string())
    } else if eq_ignore_ascii_case(name, "NIX_RELAY_DAEMON_PATH") {
        Some("daemon.nix_daemon_path".to_string())
    } else if eq_ignore_ascii_case(name, "NIX_RELAY_TIMEOUT_SECS") {
        Some("daemon.timeout_secs".to_string())
    } else if eq_ignore_ascii_case(name, "NIX_RELAY_MAX_CONNECTIONS") {
        Some("daemon.max_connections".to_string())
    } else if eq_ignore_ascii_case(name, "NIX_RELAY_AUTH") {
        Some("auth".to_string())
    } else if eq_ignore_ascii_case(name, "NIX_RELAY_DAEMON") {
        Some("daemon".to_string())
    } else if eq_ignore_ascii_case(name, "NIX_RELAY_SERVER") {
        Some("server".to_string())
    } else {
        None
    }
}

/// The keys that the configuration knows: its values, and its three tables.
pub open spec fn known_key(key: Seq<char>) -> bool {
    ||| key == "auth"@
    ||| key == "auth.allowed_org"@
    ||| key == "auth.audience"@
    ||| key == "auth.issuer"@
    ||| key == "auth.jwks_cache_ttl_secs"@
    ||| key == "auth.local_key_file"@
    ||| key == "daemon"@
    ||| key == "daemon.extra_args"@
    ||| key == "daemon.max_connections"@
    ||| key == "daemon.nix_daemon_path"@
    ||| key == "daemon.timeout_secs"@
    ||| key == "server"@
    ||| key == "server.listen"@
    ||| key == "server.shutdown_grace_secs"@
}

/// The environment overrides the file: two files that differ only at keys which the
/// environment sets make the same configuration.
pub proof fn law_environment_overrides_file(
    file: Map<Seq<char>, SettingView>,
    other_file: Map<Seq<char>, SettingView>,
    env: Map<Seq<char>, SettingView>,
)
    requires
        forall|key: Seq<char>|
            #![trigger file.contains_key(key)]
            #![trigger other_file.contains_key(key)]
            !env.contains_key(key) ==> file.contains_key(key) == other_file.contains_key(key) && (
            file.contains_key(key) ==> file[key] == other_file[key]),
    ensures
        config_from(layered(file, env)) == config_from(layered(other_file, env)),
{
    assert(layered(file, env) =~= layered(other_file, env));
}

/// Defaults apply to every value that is not set.
pub proof fn law_defaults_apply_where_unset(settings: Map<Seq<char>, SettingView>)
    ensures
        config_from(Map::empty()) == Some(ConfigView::default_view()),
        config_from(settings) matches Some(c) ==> {
            let d = ConfigView::default_view();
            &&& !settings.contains_key("auth.allowed_org"@) ==> c.auth.allowed_org
                == d.auth.allowed_org
            &&& !settings.contains_key("auth.audience"@) ==> c.auth.audience == d.auth.audience
            &&& !settings.contains_key("auth.issuer"@) ==> c.auth.issuer == d.auth.issuer
            &&& !settings.contains_key("auth.jwks_cache_ttl_secs"@) ==> c.auth.jwks_cache_ttl_secs
                == d.auth.jwks_cache_ttl_secs
            &&& !settings.contains_key("auth.local_key_file"@) ==> c.auth.local_key_file
                == d.auth.local_key_file
            &&& !settings.contains_key("daemon.extra_args"@) ==> c.daemon.extra_args
                == d.daemon.extra_args
            &&& !settings.contains_key("daemon.max_connections"@) ==> c.daemon.max_connections
                == d.daemon.max_connections
            &&& !settings.contains_key("daemon.nix_daemon_path"@) ==> c.daemon.nix_daemon_path
                == d.daemon.nix_daemon_path
            &&& !settings.contains_key("daemon.timeout_secs"@) ==> c.daemon.timeout_secs
                == d.daemon.timeout_secs
            &&& !settings.contains_key("server.listen"@) ==> c.server.listen == d.server.listen
            &&& !settings.contains_key("server.shutdown_grace_secs"@)
                ==> c.server.shutdown_grace_secs == d.server.shutdown_grace_secs
        },
{
}

/// A key that the configuration does not know changes nothing.
pub proof fn law_other_keys_are_ignored(
    settings: Map<Seq<char>, SettingView>,
    key: Seq<char>,
    value: SettingView,
)
    requires
        !known_key(key),
    ensures
        config_from(settings.insert(key, value)) == config_from(settings),
{
}

/// Every variable of the environment that counts sets a key that the configuration knows.
pub proof fn law_variables_set_known_keys(name: Seq<char>)
    ensures
        variable_key(name) matches Some(key) ==> known_key(key),
{
}

/// Every value that is set counts as it is set: the configuration has it, unchanged, in the
/// field of its key.
pub proof fn law_set_values_count_as_they_are_set(settings: Map<Seq<char>, SettingView>)
    ensures
        config_from(settings) matches Some(c) ==> {
            &&& settings.contains_key("auth.allowed_org"@) ==> settings["auth.allowed_org"@]
                == SettingView::Text(c.auth.allowed_org)
            &&& settings.contains_key("auth.audience"@) ==> settings["auth.audience"@]
                == SettingView::Text(c.auth.audience)
            &&& settings.contains_key("auth.issuer"@) ==> settings["auth.issuer"@]
                == SettingView::Text(c.auth.issuer)
            &&& settings.contains_key("daemon.nix_daemon_path"@) ==> settings["daemon.nix_daemon_path"@]
                == SettingView::Text(c.daemon.nix_daemon_path)
            &&& settings.contains_key("server.listen"@) ==> settings["server.listen"@]
                == SettingView::Text(c.server.listen)
            &&& settings.contains_key("auth.jwks_cache_ttl_secs"@) ==> settings["auth.jwks_cache_ttl_secs"@]
                == SettingView::Number(c.auth.jwks_cache_ttl_secs)
            &&& settings.contains_key("daemon.timeout_secs"@) ==> settings["daemon.timeout_secs"@]
                == SettingView::Number(c.daemon.timeout_secs)
            &&& settings.contains_key("server.shutdown_grace_secs"@) ==> settings["server.shutdown_grace_secs"@]
                == SettingView::Number(c.server.shutdown_grace_secs)
            &&& settings.contains_key("daemon.extra_args"@) ==> settings["daemon.extra_args"@]
                == SettingView::List(c.daemon.extra_args)
            &&& settings.contains_key("daemon.max_connections"@) ==> (settings["daemon.max_connections"@]
                matches SettingView::Number(n) && n == c.daemon.max_connections)
            &&& settings.contains_key("auth.local_key_file"@) ==> match c.auth.local_key_file {
                Some(path) => settings["auth.local_key_file"@] == SettingView::Text(path),
                None => settings["auth.local_key_file"@] == SettingView::Null,
            }
        },
{
}

/// The settings are refused exactly if a key is set to what it has no use for: a text or a
/// number of seconds to anything else, the arguments to anything but a list of texts, the
/// connections to anything but a number of 32 bits, the key file to anything but a text or
/// nothing, or one of the three tables to anything at all.
pub proof fn law_settings_of_their_types_are_taken(settings: Map<Seq<char>, SettingView>)
    ensures
        config_from(settings) is Some <==> {
            &&& settings.contains_key("auth.allowed_org"@) ==> settings["auth.allowed_org"@] is Text
            &&& settings.contains_key("auth.audience"@) ==> settings["auth.audience"@] is Text
            &&& settings.contains_key("auth.issuer"@) ==> settings["auth.issuer"@] is Text
            &&& settings.contains_key("daemon.nix_daemon_path"@) ==> settings["daemon.nix_daemon_path"@] is Text
            &&& settings.contains_key("server.listen"@) ==> settings["server.listen"@] is Text
            &&& settings.contains_key("auth.jwks_cache_ttl_secs"@) ==> settings["auth.jwks_cache_ttl_secs"@] is Number
            &&& settings.contains_key("daemon.timeout_secs"@) ==> settings["daemon.timeout_secs"@] is Number
            &&& settings.contains_key("server.shutdown_grace_secs"@) ==> settings["server.shutdown_grace_secs"@] is Number
            &&& settings.contains_key("daemon.extra_args"@) ==> settings["daemon.extra_args"@] is List
            &&& settings.contains_key("daemon.max_connections"@) ==> (settings["daemon.max_connections"@]
                matches SettingView::Number(n) && n <= u32::MAX)
            &&& settings.contains_key("auth.local_key_file"@) ==> settings["auth.local_key_file"@] is Text
                || settings["auth.local_key_file"@] is Null
            &&& !settings.contains_key("auth"@)
            &&& !settings.contains_key("daemon"@)
            &&& !settings.contains_key("server"@)
        },
{
}

/// A key is set if an entry sets it, and the last entry that does so counts.
pub proof fn law_last_entry_counts(entries: Seq<(String, Setting)>, i: int)
    requires
        0 <= i < entries.len(),
        forall|j: int| i < j < entries.len() ==> (#[trigger] entries[j]).0@ != entries[i].0@,
    ensures
        settings_of(entries).contains_key(entries[i].0@),
        settings_of(entries)[entries[i].0@] == entries[i].1@,
    decreases entries.len(),
{
    if i < entries.len() - 1 {
        let rest = entries.drop_last();
        assert(rest[i] == entries[i]);
        assert(entries[entries.len() - 1].0@ != entries[i].0@);
        law_last_entry_counts(rest, i);
    }
}

/// A key that no entry sets is not set.
pub proof fn law_keys_without_an_entry_are_unset(entries: Seq<(String, Setting)>, key: Seq<char>)
    requires
        forall|i: int| 0 <= i < entries.len() ==> (#[trigger] entries[i]).0@ != key,
    ensures
        !settings_of(entries).contains_key(key),
    decreases entries.len(),
{
    if entries.len() > 0 {
        assert(entries[entries.len() - 1].0@ != key);
        assert forall|i: int| 0 <= i < entries.drop_last().len() implies (
        #[trigger] entries.drop_last()[i]).0@ != key by {
            assert(entries.drop_last()[i] == entries[i]);
        }
        law_keys_without_an_entry_are_unset(entries.drop_last(), key);
    }
}

/// A key has the setting of the environment, or else that of the file, or else none.
pub proof fn law_environment_comes_before_file(
    file: Map<Seq<char>, SettingView>,
    env: Map<Seq<char>, SettingView>,
    key: Seq<char>,
)
    ensures
        env.contains_key(key) ==> layered(file, env).contains_key(key) && layered(file, env)[key]
            == env[key],
        !env.contains_key(key) && file.contains_key(key) ==> layered(file, env).contains_key(key)
            && layered(file, env)[key] == file[key],
        !env.contains_key(key) && !file.contains_key(key) ==> !layered(file, env).contains_key(key),
{
}

/// A setting is what it holds.
pub proof fn law_settings_are_what_they_hold(text: String, n: u64, items: Vec<String>)
    ensures
        Setting::Text(text)@ == SettingView::Text(text@),
        Setting::Number(n)@ == SettingView::Number(n),
        Setting::Null@ == SettingView::Null,
        Setting::List(items)@ matches SettingView::List(view) && view.len() == items@.len()
            && forall|i: int| 0 <= i < items@.len() ==> #[trigger] view[i] == items@[i]@,
        Setting::Other(text)@ == SettingView::Other(text@),
{
}

/// The value of a configuration shows every field of it.
pub proof fn law_configurations_show_every_field(c: Config)
    ensures
        c@.server.listen == c.server.listen@,
        c@.server.shutdown_grace_secs == c.server.shutdown_grace_secs,
        c@.auth.issuer == c.auth.issuer@,
        c@.auth.audience == c.auth.audience@,
        c@.auth.allowed_org == c.auth.allowed_org@,
        c@.auth.jwks_cache_ttl_secs == c.auth.jwks_cache_ttl_secs,
        match c.auth.local_key_file {
            Some(path) => c@.auth.local_key_file == Some(path@),
            None => c@.auth.local_key_file is None,
        },
        c@.daemon.nix_daemon_path == c.daemon.nix_daemon_path@,
        c@.daemon.extra_args.len() == c.daemon.extra_args@.len(),
        forall|i: int|
            0 <= i < c.daemon.extra_args@.len() ==> #[trigger] c@.daemon.extra_args[i]
                == c.daemon.extra_args@[i]@,
        c@.daemon.timeout_secs == c.daemon.timeout_secs,
        c@.daemon.max_connections == c.daemon.max_connections,
        c.server@ == c@.server,
        c.auth@ == c@.auth,
        c.daemon@ == c@.daemon,
{
}

/// Without any setting the relay listens on port 8080 of every address, takes tokens of GitHub
/// Actions for itself but of no organization, has no local key, and connects up to 32 clients
/// to `nix-daemon --stdio` for up to an hour each.
pub proof fn law_defaults()
    ensures
        config_from(Map::empty()) matches Some(c) && {
            &&& c.server.listen == "0.0.0.0:8080"@
            &&& c.server.shutdown_grace_secs == 30
            &&& c.auth.issuer == "https://token.actions.githubusercontent.com"@
            &&& c.auth.audience == "api://nix-relay"@
            &&& c.auth.allowed_org.len() == 0
            &&& c.auth.jwks_cache_ttl_secs == 3600
            &&& c.auth.local_key_file is None
            &&& c.daemon.nix_daemon_path == "nix-daemon"@
            &&& c.daemon.extra_args == seq!["--stdio"@]
            &&& c.daemon.timeout_secs == 3600
            &&& c.daemon.max_connections == 32
        },
{
}

/// Tokens of the issuer are taken if an organization is set, local tokens if a key file is, and
/// neither depends on the other.
pub proof fn law_kinds_of_tokens_are_independent(auth: AuthConfigView)
    ensures
        auth.has_oidc() <==> auth.allowed_org.len() > 0,
        auth.has_local_key() <==> auth.local_key_file is Some,
        auth.has_any_backend() <==> auth.allowed_org.len() > 0 || auth.local_key_file is Some,
{
}

/// The variables for the values, in any case, set their keys.
pub proof fn law_variables_set_their_keys(name: Seq<char>)
    ensures
        crate::text::same_ignoring_case(name, "NIX_RELAY_LISTEN"@) ==> variable_key(name) == Some(
            "server.listen"@,
        ),
        crate::text::same_ignoring_case(name, "NIX_RELAY_SHUTDOWN_GRACE_SECS"@) ==> variable_key(name) == Some(
            "server.shutdown_grace_secs"@,
        ),
        crate::text::same_ignoring_case(name, "NIX_RELAY_ISSUER"@) ==> variable_key(name) == Some(
            "auth.issuer"@,
        ),
        crate::text::same_ignoring_case(name, "NIX_RELAY_AUDIENCE"@) ==> variable_key(name) == Some(
            "auth.audience"@,
        ),
        crate::text::same_ignoring_case(name, "NIX_RELAY_ALLOWED_ORG"@) ==> variable_key(name) == Some(
            "auth.allowed_org"@,
        ),
        crate::text::same_ignoring_case(name, "NIX_RELAY_JWKS_CACHE_TTL_SECS"@) ==> variable_key(name) == Some(
            "auth.jwks_cache_ttl_secs"@,
        ),
        crate::text::same_ignoring_case(name, "NIX_RELAY_DAEMON_PATH"@) ==> variable_key(name) == Some(
            "daemon.nix_daemon_path"@,
        ),
        crate::text::same_ignoring_case(name, "NIX_RELAY_TIMEOUT_SECS"@) ==> variable_key(name) == Some(
            "daemon.timeout_secs"@,
        ),
        crate::text::same_ignoring_case(name, "NIX_RELAY_MAX_CONNECTIONS"@) ==> variable_key(name) == Some(
            "daemon.max_connections"@,
        ),
{
    reveal_strlit("NIX_RELAY_LISTEN");
    reveal_strlit("NIX_RELAY_SHUTDOWN_GRACE_SECS");
    reveal_strlit("NIX_RELAY_ISSUER");
    reveal_strlit("NIX_RELAY_AUDIENCE");
    reveal_strlit("NIX_RELAY_ALLOWED_ORG");
    reveal_strlit("NIX_RELAY_JWKS_CACHE_TTL_SECS");
    reveal_strlit("NIX_RELAY_DAEMON_PATH");
    reveal_strlit("NIX_RELAY_TIMEOUT_SECS");
    reveal_strlit("NIX_RELAY_MAX_CONNECTIONS");
    reveal_strlit("NIX_RELAY_AUTH");
    reveal_strlit("NIX_RELAY_DAEMON");
    reveal_strlit("NIX_RELAY_SERVER");
    assert(crate::text::lowered("NIX_RELAY_LISTEN"@).len() == 16);
    assert(crate::text::lowered("NIX_RELAY_LISTEN"@)[10] == 'l');
    assert(crate::text::lowered("NIX_RELAY_SHUTDOWN_GRACE_SECS"@).len() == 29);
    assert(crate::text::lowered("NIX_RELAY_SHUTDOWN_GRACE_SECS"@)[10] == 's');
    assert(crate::text::lowered("NIX_RELAY_ISSUER"@).len() == 16);
    assert(crate::text::lowered("NIX_RELAY_ISSUER"@)[10] == 'i');
    assert(crate::text::lowered("NIX_RELAY_AUDIENCE"@).len() == 18);
    assert(crate::text::lowered("NIX_RELAY_AUDIENCE"@)[10] == 'a');
    assert(crate::text::lowered("NIX_RELAY_ALLOWED_ORG"@).len() == 21);
    assert(crate::text::lowered("NIX_RELAY_ALLOWED_ORG"@)[10] == 'a');
    assert(crate::text::lowered("NIX_RELAY_JWKS_CACHE_TTL_SECS"@).len() == 29);
    assert(crate::text::lowered("NIX_RELAY_JWKS_CACHE_TTL_SECS"@)[10] == 'j');
    assert(crate::text::lowered("NIX_RELAY_DAEMON_PATH"@).len() == 21);
    assert(crate::text::lowered("NIX_RELAY_DAEMON_PATH"@)[10] == 'd');
    assert(crate::text::lowered("NIX_RELAY_TIMEOUT_SECS"@).len() == 22);
    assert(crate::text::lowered("NIX_RELAY_TIMEOUT_SECS"@)[10] == 't');
    assert(crate::text::lowered("NIX_RELAY_MAX_CONNECTIONS"@).len() == 25);
    assert(crate::text::lowered("NIX_RELAY_MAX_CONNECTIONS"@)[10] == 'm');
    assert(crate::text::lowered("NIX_RELAY_AUTH"@).len() == 14);
    assert(crate::text::lowered("NIX_RELAY_AUTH"@)[10] == 'a');
    assert(crate::text::lowered("NIX_RELAY_DAEMON"@).len() == 16);
    assert(crate::text::lowered("NIX_RELAY_DAEMON"@)[10] == 'd');
    assert(crate::text::lowered("NIX_RELAY_SERVER"@).len() == 16);
    assert(crate::text::lowered("NIX_RELAY_SERVER"@)[10] == 's');
}

/// Two variables that set the same key are one, up to case, and none sets the key file or the
/// arguments.
pub proof fn law_one_variable_sets_a_key(name: Seq<char>, other: Seq<char>)
    ensures
        variable_key(name) is Some && variable_key(name) == variable_key(other)
            ==> crate::text::same_ignoring_case(name, other),
        variable_key(name) != Some("auth.local_key_file"@),
        variable_key(name) != Some("daemon.extra_args"@),
{
    reveal_strlit("server.listen");
    reveal_strlit("server.shutdown_grace_secs");
    reveal_strlit("auth.issuer");
    reveal_strlit("auth.audience");
    reveal_strlit("auth.allowed_org");
    reveal_strlit("auth.jwks_cache_ttl_secs");
    reveal_strlit("daemon.nix_daemon_path");
    reveal_strlit("daemon.timeout_secs");
    reveal_strlit("daemon.max_connections");
    reveal_strlit("auth");
    reveal_strlit("daemon");
    reveal_strlit("server");
    reveal_strlit("auth.local_key_file");
    reveal_strlit("daemon.extra_args");
    assert("server.listen"@.len() == 13);
    assert("server.shutdown_grace_secs"@.len() == 26);
    assert("auth.issuer"@.len() == 11);
    assert("auth.audience"@.len() == 13);
    assert("auth.allowed_org"@.len() == 16);
    assert("auth.jwks_cache_ttl_secs"@.len() == 24);
    assert("daemon.nix_daemon_path"@.len() == 22);
    assert("daemon.timeout_secs"@.len() == 19);
    assert("daemon.max_connections"@.len() == 22);
    assert("auth"@.len() == 4);
    assert("daemon"@.len() == 6);
    assert("server"@.len() == 6);
    assert("auth.local_key_file"@.len() == 19);
    assert("daemon.extra_args"@.len() == 17);
    assert("auth.local_key_file"@[0] != "daemon.timeout_secs"@[0]);
    assert("server.listen"@[0] != "auth.audience"@[0]);
    assert("daemon"@[0] != "server"@[0]);
    assert("daemon.nix_daemon_path"@[7] != "daemon.max_connections"@[7]);
}

} // verus!
