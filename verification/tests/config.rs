use figment2::providers::{Format, Toml};
use figment2::Figment;
use nix_relay::config::{env_key, AuthConfig, Config, DaemonConfig, ServerConfig, Setting};
use nix_relay::serve::{serve_plan, without_command, ArgsProblem, Fallback};

fn entry(key: &str, setting: Setting) -> (String, Setting) {
    (key.to_string(), setting)
}

fn text(s: &str) -> Setting {
    Setting::Text(s.to_string())
}

fn texts_in(toml: &str, keys: &[&str]) -> Vec<(String, Setting)> {
    let figment = Figment::from(Toml::string(toml));
    let mut entries = Vec::new();
    for key in keys {
        if let Ok(value) = figment.extract_inner::<String>(key) {
            entries.push(entry(key, Setting::Text(value)));
        }
    }
    entries
}

fn numbers_in(toml: &str, keys: &[&str]) -> Vec<(String, Setting)> {
    let figment = Figment::from(Toml::string(toml));
    let mut entries = Vec::new();
    for key in keys {
        if let Ok(value) = figment.extract_inner::<u64>(key) {
            entries.push(entry(key, Setting::Number(value)));
        }
    }
    entries
}

fn toml_settings(toml: &str) -> Vec<(String, Setting)> {
    let mut entries = texts_in(
        toml,
        &[
            "server.listen",
            "auth.issuer",
            "auth.audience",
            "auth.allowed_org",
            "auth.local_key_file",
            "daemon.nix_daemon_path",
        ],
    );
    entries.extend(numbers_in(
        toml,
        &[
            "server.shutdown_grace_secs",
            "auth.jwks_cache_ttl_secs",
            "daemon.timeout_secs",
            "daemon.max_connections",
        ],
    ));
    entries
}

fn refusal(file: Vec<(String, Setting)>) -> String {
    Config::load(Ok(file), &vec![]).unwrap_err().message()
}

#[test]
fn test_defaults() {
    let config = Config::load(Ok(vec![]), &vec![]).unwrap();
    assert_eq!(config.server.listen, "0.0.0.0:8080");
    assert_eq!(
        config.auth.issuer,
        "https://token.actions.githubusercontent.com"
    );
    assert_eq!(config.daemon.max_connections, 32);
}

#[test]
fn test_parse_toml() {
    let file = toml_settings(
        r#"
[server]
listen = "127.0.0.1:9090"

[auth]
allowed_org = "testorg"

[daemon]
max_connections = 8
"#,
    );
    let config = Config::load(Ok(file), &vec![]).unwrap();
    assert_eq!(config.server.listen, "127.0.0.1:9090");
    assert_eq!(config.auth.allowed_org, "testorg");
    assert_eq!(config.daemon.max_connections, 8);
    // Defaults still apply for unset values
    assert_eq!(config.daemon.timeout_secs, 3600);
    assert!(config.auth.local_key_file.is_none());
}

#[test]
fn test_parse_toml_with_local_key() {
    let file = toml_settings(
        r#"
[auth]
local_key_file = "/var/lib/nix-relay/public.pem"
"#,
    );
    let config = Config::load(Ok(file), &vec![]).unwrap();
    assert_eq!(
        config.auth.local_key_file.as_deref(),
        Some("/var/lib/nix-relay/public.pem")
    );
    assert!(config.auth.has_local_key());
    assert!(!config.auth.has_oidc());
    assert!(config.auth.has_any_backend());
}

#[test]
fn defaults_are_complete() {
    let config = Config::default();
    assert_eq!(config.server.shutdown_grace_secs, 30);
    assert_eq!(config.auth.audience, "api://nix-relay");
    assert_eq!(config.auth.allowed_org, "");
    assert_eq!(config.auth.jwks_cache_ttl_secs, 3600);
    assert_eq!(config.daemon.nix_daemon_path, "nix-daemon");
    assert_eq!(config.daemon.extra_args, vec!["--stdio".to_string()]);
    assert_eq!(config.daemon.timeout_secs, 3600);
    assert!(!config.auth.has_any_backend());
    assert_eq!(ServerConfig::default().listen, "0.0.0.0:8080");
    assert_eq!(AuthConfig::default().local_key_file, None);
    assert_eq!(DaemonConfig::default().max_connections, 32);
    let copy = config.clone();
    assert_eq!(copy.daemon.extra_args, config.daemon.extra_args);
    assert_eq!(copy.server.listen, config.server.listen);
}

#[test]
fn the_environment_overrides_the_file() {
    let file = vec![
        entry("server.listen", text("file:1")),
        entry("daemon.timeout_secs", Setting::Number(5)),
        entry("daemon.max_connections", text("many")),
        entry("daemon.extra_args", Setting::List(vec!["a".to_string(), "b".to_string()])),
    ];
    let env = vec![
        entry("server.listen", text("env:1")),
        entry("server.listen", text("env:2")),
        entry("daemon.max_connections", Setting::Number(7)),
    ];
    let config = Config::load(Ok(file), &env).unwrap();
    assert_eq!(config.server.listen, "env:2");
    assert_eq!(config.daemon.timeout_secs, 5);
    assert_eq!(config.daemon.max_connections, 7);
    assert_eq!(config.daemon.extra_args, vec!["a".to_string(), "b".to_string()]);
}

#[test]
fn every_value_can_be_set() {
    let file = vec![
        entry("server.listen", text("l")),
        entry("server.shutdown_grace_secs", Setting::Number(1)),
        entry("auth.issuer", text("i")),
        entry("auth.audience", text("a")),
        entry("auth.allowed_org", text("o")),
        entry("auth.jwks_cache_ttl_secs", Setting::Number(2)),
        entry("auth.local_key_file", text("k")),
        entry("daemon.nix_daemon_path", text("p")),
        entry("daemon.extra_args", Setting::List(vec![])),
        entry("daemon.timeout_secs", Setting::Number(3)),
        entry("daemon.max_connections", Setting::Number(4294967295)),
        entry("unheard.of", text("ignored")),
        entry("listen", text("ignored")),
    ];
    let config = Config::load(Ok(file), &vec![]).unwrap();
    assert_eq!(config.server.listen, "l");
    assert_eq!(config.server.shutdown_grace_secs, 1);
    assert_eq!(config.auth.issuer, "i");
    assert_eq!(config.auth.audience, "a");
    assert_eq!(config.auth.allowed_org, "o");
    assert_eq!(config.auth.jwks_cache_ttl_secs, 2);
    assert_eq!(config.auth.local_key_file.as_deref(), Some("k"));
    assert_eq!(config.daemon.nix_daemon_path, "p");
    assert!(config.daemon.extra_args.is_empty());
    assert_eq!(config.daemon.timeout_secs, 3);
    assert_eq!(config.daemon.max_connections, u32::MAX);
    let null = vec![entry("auth.local_key_file", Setting::Null)];
    assert_eq!(Config::load(Ok(null), &vec![]).unwrap().auth.local_key_file, None);
}

#[test]
fn settings_of_the_wrong_type_are_refused() {
    assert_eq!(
        refusal(vec![
            entry("server.listen", Setting::Number(5)),
            entry("auth.issuer", Setting::List(vec![])),
        ]),
        "config error: building config: invalid type: found sequence, expected a string for key auth.issuer"
    );
    assert_eq!(
        refusal(vec![entry("daemon.timeout_secs", text("5"))]),
        "config error: building config: invalid type: found string, expected u64 for key daemon.timeout_secs"
    );
    assert_eq!(
        refusal(vec![entry("daemon.max_connections", Setting::Number(4294967296))]),
        "config error: building config: invalid type: found unsigned int, expected u32 for key daemon.max_connections"
    );
    assert_eq!(
        refusal(vec![entry("daemon.extra_args", Setting::Null)]),
        "config error: building config: invalid type: found unit, expected a sequence for key daemon.extra_args"
    );
    assert_eq!(
        refusal(vec![entry("server", Setting::Other("bool true".to_string()))]),
        "config error: building config: invalid type: found bool true, expected a table for key server"
    );
    let unread = Config::load(Err("no such table".to_string()), &vec![]).unwrap_err();
    assert_eq!(unread.message(), "config error: building config: no such table");
}

#[test]
fn variables_set_their_keys() {
    let table = vec![
        ("NIX_RELAY_LISTEN", "server.listen"),
        ("NIX_RELAY_SHUTDOWN_GRACE_SECS", "server.shutdown_grace_secs"),
        ("NIX_RELAY_ISSUER", "auth.issuer"),
        ("NIX_RELAY_AUDIENCE", "auth.audience"),
        ("NIX_RELAY_ALLOWED_ORG", "auth.allowed_org"),
        ("NIX_RELAY_JWKS_CACHE_TTL_SECS", "auth.jwks_cache_ttl_secs"),
        ("NIX_RELAY_DAEMON_PATH", "daemon.nix_daemon_path"),
        ("NIX_RELAY_TIMEOUT_SECS", "daemon.timeout_secs"),
        ("NIX_RELAY_MAX_CONNECTIONS", "daemon.max_connections"),
        ("NIX_RELAY_SERVER", "server"),
        ("NIX_RELAY_AUTH", "auth"),
        ("NIX_RELAY_DAEMON", "daemon"),
        ("nix_relay_listen", "server.listen"),
    ];
    for (name, key) in table {
        assert_eq!(env_key(name).as_deref(), Some(key));
    }
    for name in ["NIX_RELAY_CONFIG", "NIX_RELAY_", "LISTEN", "NIX_RELAY_LISTENS", ""] {
        assert_eq!(env_key(name), None);
    }
}

#[test]
fn servers_need_a_kind_of_token() {
    let mut config = Config::default();
    assert_eq!(
        serve_plan(&config).unwrap_err(),
        "no auth backend configured: set auth.allowed_org (OIDC) and/or auth.local_key_file (local JWT)"
    );
    config.auth.allowed_org = "org".to_string();
    let plan = serve_plan(&config).unwrap();
    assert_eq!(plan.oidc.unwrap().allowed_org, "org");
    assert_eq!(plan.local_key_file, None);
    assert_eq!(plan.listen, "0.0.0.0:8080");
    assert_eq!(plan.slots, 32);
    assert_eq!(plan.grace_secs, 30);
    assert_eq!(plan.daemon.nix_daemon_path, "nix-daemon");
    config.auth.allowed_org = String::new();
    config.auth.local_key_file = Some("key".to_string());
    let plan = serve_plan(&config).unwrap();
    assert!(plan.oidc.is_none());
    assert_eq!(plan.local_key_file.as_deref(), Some("key"));
}

#[test]
fn a_lone_argument_is_a_configuration_file() {
    let args = |list: &[&str]| -> Vec<String> { list.iter().map(|s| s.to_string()).collect() };
    let lone = without_command(&args(&["nix-relay", "config.toml"]), ArgsProblem::UnknownCommand);
    assert!(matches!(lone, Fallback::Serve(Some(path)) if path == "config.toml"));
    let none = without_command(&args(&["nix-relay"]), ArgsProblem::MissingCommand);
    assert!(matches!(none, Fallback::Serve(None)));
    let two = without_command(&args(&["nix-relay", "a", "b"]), ArgsProblem::UnknownCommand);
    assert!(matches!(two, Fallback::Exit));
    let help = without_command(&args(&["nix-relay", "--help"]), ArgsProblem::Other);
    assert!(matches!(help, Fallback::Exit));
}
