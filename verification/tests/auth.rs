use base64::engine::general_purpose::URL_SAFE_NO_PAD;
use base64::Engine;
use jsonwebtoken::{Algorithm, EncodingKey, Header};
use nix_relay::auth::{
    AuthInfo, AuthValidator, Fetched, GitHubClaims, KeyLookup, RefreshEvent, RefreshStep, TokenStep,
};
use nix_relay::config::AuthConfig;
use nix_relay::error::Error;
use nix_relay::jwt::ClaimValue;
use nix_relay::keys::{keep_keys, Jwk, JwkSet, KeyTable, OidcDiscovery, RsaKey};
use nix_relay::relay::{
    admit_with, relay_admit, relay_handler, relay_resume, RelayState, RelayStep,
};
use nix_relay::service::{decide, AuthService, AuthStep};
use nix_relay::session::{Frame, RelaySession, SessionAction, SessionEvent};
use rsa::pkcs1::EncodeRsaPrivateKey;
use rsa::traits::PublicKeyParts;
use rsa::{BigUint, RsaPrivateKey};
use serde_json::Value;
use std::sync::Arc;
use tokio::sync::Semaphore;

const SECOND: u64 = 1_000_000_000;
const NOW: u64 = 1_000 * SECOND;

const RSA_N: &str = "wJ-_09Az";
const RSA_E: &str = "AQAB";

/// An issuer, with the signing key of the two largest primes below 2^1024.
struct Issuer {
    signing_key: EncodingKey,
    n: String,
    e: String,
}

impl Issuer {
    fn new() -> Self {
        let below = |k: u32| (BigUint::from(1u32) << 1024) - BigUint::from(k);
        let key =
            RsaPrivateKey::from_p_q(below(105), below(179), BigUint::from(65537u32)).unwrap();
        Issuer {
            signing_key: EncodingKey::from_rsa_der(key.to_pkcs1_der().unwrap().as_bytes()),
            n: URL_SAFE_NO_PAD.encode(key.n().to_bytes_be()),
            e: URL_SAFE_NO_PAD.encode(key.e().to_bytes_be()),
        }
    }

    fn sign(&self, kid: Option<&str>, claims: &serde_json::Map<String, Value>) -> String {
        let mut header = Header::new(Algorithm::RS256);
        header.kid = kid.map(|kid| kid.to_string());
        jsonwebtoken::encode(&header, claims, &self.signing_key).unwrap()
    }

    fn one_key(&self, kid: &str) -> KeyTable {
        let key = RsaKey { n: self.n.clone(), e: self.e.clone() };
        KeyTable::new().insert(kid.to_string(), key)
    }

    fn jwks(&self, kid: &str) -> JwkSet {
        JwkSet { keys: vec![jwk(kid, "RSA", &self.n, &self.e)] }
    }

    fn validator(&self) -> AuthValidator {
        AuthValidator::new_with_keys(config(), self.one_key("test-kid-1"), NOW)
    }

    fn step_for(&self, claims: &serde_json::Map<String, Value>) -> TokenStep {
        self.validator().validate_token(&self.sign(Some("test-kid-1"), claims), NOW)
    }
}

fn one_key(kid: &str) -> KeyTable {
    let key = RsaKey { n: RSA_N.to_string(), e: RSA_E.to_string() };
    KeyTable::new().insert(kid.to_string(), key)
}

fn config() -> AuthConfig {
    AuthConfig {
        issuer: "https://token.actions.githubusercontent.com".to_string(),
        audience: "api://nix-relay".to_string(),
        allowed_org: "myorg".to_string(),
        jwks_cache_ttl_secs: 3600,
        local_key_file: None,
    }
}

fn in_an_hour() -> u64 {
    jsonwebtoken::get_current_timestamp() + 3600
}

fn text(s: &str) -> Value {
    Value::String(s.to_string())
}

fn claims(entries: Vec<(&str, Value)>) -> serde_json::Map<String, Value> {
    entries
        .into_iter()
        .map(|(name, value)| (name.to_string(), value))
        .collect()
}

fn good_claims() -> serde_json::Map<String, Value> {
    claims(vec![
        ("iss", text("https://token.actions.githubusercontent.com")),
        ("aud", text("api://nix-relay")),
        ("exp", Value::from(in_an_hour())),
        ("repository_owner", text("myorg")),
        ("repository", text("myorg/myrepo")),
    ])
}

fn validator() -> AuthValidator {
    AuthValidator::new_with_keys(config(), one_key("test-kid-1"), NOW)
}

fn rejection(step: TokenStep) -> String {
    match step {
        TokenStep::Rejected(e) => e.message(),
        other => panic!("expected a rejection, got {other:?}"),
    }
}

fn jwk(kid: &str, kty: &str, n: &str, e: &str) -> Jwk {
    Jwk {
        kid: kid.to_string(),
        kty: kty.to_string(),
        n: n.to_string(),
        e: e.to_string(),
    }
}

#[test]
fn test_validate_valid_token() {
    let issuer = Issuer::new();
    let config = AuthConfig {
        issuer: "https://token.actions.githubusercontent.com".to_string(),
        audience: "api://nix-relay".to_string(),
        allowed_org: "myorg".to_string(),
        jwks_cache_ttl_secs: 3600,
        local_key_file: None,
    };
    let kid = "test-kid-1";
    let keys = issuer.one_key(kid);
    let validator = AuthValidator::new_with_keys(config, keys, NOW);
    let token = issuer.sign(
        Some(kid),
        &claims(vec![
            ("iss", text("https://token.actions.githubusercontent.com")),
            ("aud", text("api://nix-relay")),
            ("exp", Value::from(jsonwebtoken::get_current_timestamp() + 3600)),
            ("repository_owner", text("myorg")),
            ("repository", text("myorg/myrepo")),
        ]),
    );
    match validator.validate_token(&token, NOW) {
        TokenStep::Accepted(claims) => {
            assert_eq!(claims.repository_owner.as_deref(), Some("myorg"));
            assert_eq!(claims.repository.as_deref(), Some("myorg/myrepo"));
        }
        other => panic!("expected the token to be taken, got {other:?}"),
    }
}

#[test]
fn test_validate_wrong_org() {
    let issuer = Issuer::new();
    let config = AuthConfig {
        issuer: "https://token.actions.githubusercontent.com".to_string(),
        audience: "api://nix-relay".to_string(),
        allowed_org: "myorg".to_string(),
        jwks_cache_ttl_secs: 3600,
        local_key_file: None,
    };
    let kid = "test-kid-1";
    let keys = issuer.one_key(kid);
    let validator = AuthValidator::new_with_keys(config, keys, NOW);
    let token = issuer.sign(
        Some(kid),
        &claims(vec![
            ("iss", text("https://token.actions.githubusercontent.com")),
            ("aud", text("api://nix-relay")),
            ("exp", Value::from(jsonwebtoken::get_current_timestamp() + 3600)),
            ("repository_owner", text("evilorg")),
        ]),
    );
    let err = rejection(validator.validate_token(&token, NOW));
    assert!(err.contains("evilorg"), "error: {err}");
    assert_eq!(
        err,
        "unauthorized: repository_owner 'evilorg' not in allowed org 'myorg'"
    );
}

#[test]
fn organization_is_compared_without_case() {
    let issuer = Issuer::new();
    let mut claims = good_claims();
    claims.insert("repository_owner".to_string(), text("MyOrg"));
    assert!(matches!(issuer.step_for(&claims), TokenStep::Accepted(_)));
    claims.remove("repository_owner");
    assert_eq!(
        rejection(issuer.step_for(&claims)),
        "unauthorized: repository_owner '' not in allowed org 'myorg'"
    );
    let mut open = config();
    open.allowed_org = String::new();
    let validator = AuthValidator::new_with_keys(open, issuer.one_key("k"), NOW);
    let step = validator.validate_token(&issuer.sign(Some("k"), &claims), NOW);
    assert!(matches!(step, TokenStep::Accepted(_)));
}

#[test]
fn tokens_of_others_are_refused() {
    let issuer = Issuer::new();
    let mut claims = good_claims();
    claims.insert("iss".to_string(), text("https://elsewhere"));
    assert_eq!(rejection(issuer.step_for(&claims)), "JWT validation failed: InvalidIssuer");
    let mut claims = good_claims();
    claims.insert("aud".to_string(), text("api://other"));
    assert_eq!(rejection(issuer.step_for(&claims)), "JWT validation failed: InvalidAudience");
    let mut claims = good_claims();
    claims.insert("exp".to_string(), Value::from(1u64));
    assert_eq!(rejection(issuer.step_for(&claims)), "JWT validation failed: ExpiredSignature");
    let mut claims = good_claims();
    claims.remove("exp");
    assert_eq!(
        rejection(issuer.step_for(&claims)),
        "JWT validation failed: Missing required claim: exp"
    );
    let mut claims = good_claims();
    claims.insert("exp".to_string(), text("soon"));
    assert_eq!(
        rejection(issuer.step_for(&claims)),
        "JWT validation failed: Missing required claim: exp"
    );
}

#[test]
fn lists_of_audiences_must_hold_the_audience() {
    let issuer = Issuer::new();
    let mut claims = good_claims();
    claims.insert(
        "aud".to_string(),
        Value::Array(vec![text("api://other"), text("api://nix-relay")]),
    );
    assert!(matches!(issuer.step_for(&claims), TokenStep::Accepted(_)));
    claims.insert("aud".to_string(), Value::Array(vec![text("api://other")]));
    assert_eq!(rejection(issuer.step_for(&claims)), "JWT validation failed: InvalidAudience");
    claims.insert("aud".to_string(), Value::Array(vec![]));
    assert_eq!(rejection(issuer.step_for(&claims)), "JWT validation failed: InvalidAudience");
    claims.insert(
        "aud".to_string(),
        Value::Array(vec![text("api://nix-relay"), Value::from(5u64)]),
    );
    assert_eq!(rejection(issuer.step_for(&claims)), "JWT validation failed: InvalidAudience");
}

#[test]
fn tokens_must_name_their_issuer_and_audience() {
    let issuer = Issuer::new();
    let others = vec![
        None,
        Some(Value::Null),
        Some(Value::Bool(true)),
        Some(Value::from(42u64)),
        Some(Value::Object(serde_json::Map::new())),
        Some(Value::Array(vec![])),
        Some(Value::Array(vec![Value::from(42u64)])),
    ];
    for other in others {
        for (name, message) in [
            ("iss", "JWT validation failed: InvalidIssuer"),
            ("aud", "JWT validation failed: InvalidAudience"),
        ] {
            let mut claims = good_claims();
            claims.remove(name);
            if let Some(value) = &other {
                claims.insert(name.to_string(), value.clone());
            }
            assert_eq!(rejection(issuer.step_for(&claims)), message, "{name} {other:?}");
            // Whatever the owner is.
            claims.insert("repository_owner".to_string(), text("evilorg"));
            assert_eq!(rejection(issuer.step_for(&claims)), message, "{name} {other:?}");
        }
    }
    let mut claims = good_claims();
    let listed = vec![
        text("https://elsewhere"),
        text("https://token.actions.githubusercontent.com"),
    ];
    claims.insert("iss".to_string(), Value::Array(listed));
    assert!(matches!(issuer.step_for(&claims), TokenStep::Accepted(_)));
    let token = issuer.sign(Some("test-kid-1"), &self::claims(vec![("exp", Value::from(in_an_hour()))]));
    let e = issuer.validator().resume_token(&token, "test-kid-1", Ok(())).unwrap_err();
    assert_eq!(e.into_response(), (403, "JWT validation failed: InvalidIssuer".to_string()));
}

#[test]
fn claims_of_the_wrong_type_are_refused() {
    let issuer = Issuer::new();
    let mut claims = good_claims();
    claims.insert("repository_owner".to_string(), Value::from(5u64));
    assert_eq!(
        rejection(issuer.step_for(&claims)),
        "JWT validation failed: JSON error: invalid type for claim repository_owner, expected a string"
    );
    let mut claims = good_claims();
    claims.insert("repository".to_string(), Value::Bool(true));
    assert_eq!(
        rejection(issuer.step_for(&claims)),
        "JWT validation failed: JSON error: invalid type for claim repository, expected a string"
    );
    let mut claims = good_claims();
    claims.insert("repository".to_string(), Value::Null);
    match issuer.step_for(&claims) {
        TokenStep::Accepted(claims) => assert_eq!(claims.repository, None),
        other => panic!("expected the token to be taken, got {other:?}"),
    }
}

#[test]
fn tokens_that_never_expire_are_taken() {
    let issuer = Issuer::new();
    let mut claims = good_claims();
    claims.insert("exp".to_string(), Value::from(u64::MAX));
    assert!(matches!(issuer.step_for(&claims), TokenStep::Accepted(_)));
}

#[test]
fn forged_tokens_are_refused() {
    let issuer = Issuer::new();
    let token = issuer.sign(Some("test-kid-1"), &good_claims());
    let mut parts: Vec<&str> = token.split('.').collect();
    let other = issuer.sign(Some("test-kid-1"), &claims(vec![("exp", Value::from(5u64))]));
    let other_signature: Vec<&str> = other.split('.').collect();
    parts[2] = other_signature[2];
    let forged = parts.join(".");
    assert_eq!(
        rejection(issuer.validator().validate_token(&forged, NOW)),
        "JWT validation failed: InvalidSignature"
    );
}

#[test]
fn tokens_must_name_their_key() {
    let issuer = Issuer::new();
    let step = issuer.validator().validate_token(&issuer.sign(None, &good_claims()), NOW);
    assert_eq!(rejection(step), "JWKS error: token missing kid header");
    let step = issuer.validator().validate_token("no token", NOW);
    assert_eq!(rejection(step), "JWT validation failed: InvalidToken");
}

#[test]
fn decoded_claims_decide() {
    let audiences = vec![Some("other".to_string()), Some("api://nix-relay".to_string())];
    let entries = vec![
        (
            "iss".to_string(),
            ClaimValue::Text("https://token.actions.githubusercontent.com".to_string()),
        ),
        ("aud".to_string(), ClaimValue::List(audiences)),
        ("repository_owner".to_string(), ClaimValue::Text("MYORG".to_string())),
        ("repository".to_string(), ClaimValue::Null),
    ];
    let claims: GitHubClaims = validator().accept_claims(Ok(entries)).unwrap();
    assert_eq!(claims.repository_owner.as_deref(), Some("MYORG"));
    assert_eq!(claims.repository, None);
    let e = validator().accept_claims(Ok(vec![])).unwrap_err();
    assert_eq!(e.into_response(), (403, "JWT validation failed: InvalidIssuer".to_string()));
    let e = validator().accept_claims(Err("why".to_string())).unwrap_err();
    assert_eq!(e.into_response(), (403, "JWT validation failed: why".to_string()));
}

#[test]
fn unknown_keys_are_fetched_once_a_minute() {
    let issuer = Issuer::new();
    let mut v = issuer.validator();
    assert!(matches!(v.get_key("test-kid-1", NOW), KeyLookup::Found(_)));
    // Preloaded keys count as two minutes old.
    assert!(matches!(v.get_key("other", NOW), KeyLookup::Refresh));
    let step = v.validate_token(&issuer.sign(Some("other"), &good_claims()), NOW);
    assert!(matches!(step, TokenStep::NeedsKeys { kid } if kid == "other"));

    let jwks = issuer.jwks("third");
    let done = v.refresh_jwks(RefreshEvent::Keys(Fetched::Body(jwks)), NOW);
    assert!(matches!(done, RefreshStep::Done));
    // The fetched keys replace the others.
    assert_eq!(
        v.get_key_after_refresh("test-kid-1").unwrap_err().message(),
        "JWKS error: unknown kid after refresh: test-kid-1"
    );
    assert_eq!(v.get_key_after_refresh("third").unwrap().n, issuer.n);
    match v.get_key("other", NOW + 60 * SECOND - 1) {
        KeyLookup::Unknown(e) => assert_eq!(e.message(), "JWKS error: unknown kid: other"),
        other => panic!("expected no fetch, got {other:?}"),
    }
    assert!(matches!(v.get_key("other", NOW + 60 * SECOND), KeyLookup::Refresh));
    assert!(matches!(v.get_key("other", NOW - 1), KeyLookup::Unknown(_)));
}

#[test]
fn keys_are_fetched_in_two_requests() {
    let mut config = config();
    config.issuer = "https://issuer.example//".to_string();
    let mut v = AuthValidator::new(config);
    assert!(matches!(v.get_key("kid", NOW), KeyLookup::Refresh));
    match v.refresh_jwks(RefreshEvent::Start, NOW) {
        RefreshStep::FetchDiscovery(url) => {
            assert_eq!(url, "https://issuer.example/.well-known/openid-configuration");
        }
        other => panic!("got {other:?}"),
    }
    let discovery = OidcDiscovery { jwks_uri: "https://issuer.example/keys".to_string() };
    match v.refresh_jwks(RefreshEvent::Discovery(Fetched::Body(discovery)), NOW) {
        RefreshStep::FetchKeys(url) => assert_eq!(url, "https://issuer.example/keys"),
        other => panic!("got {other:?}"),
    }
    let jwks = JwkSet { keys: vec![jwk("kid", "RSA", RSA_N, RSA_E)] };
    assert!(matches!(
        v.refresh_jwks(RefreshEvent::Keys(Fetched::Body(jwks)), NOW),
        RefreshStep::Done
    ));
    assert!(matches!(v.get_key("kid", NOW), KeyLookup::Found(_)));
}

#[test]
fn failed_fetches_keep_the_keys() {
    let mut v = validator();
    let failures = vec![
        (
            RefreshEvent::Discovery(Fetched::Transport("down".to_string())),
            "OIDC discovery failed: down",
        ),
        (
            RefreshEvent::Discovery(Fetched::Status("404".to_string())),
            "JWKS error: discovery fetch failed: 404",
        ),
        (
            RefreshEvent::Keys(Fetched::Transport("down".to_string())),
            "OIDC discovery failed: down",
        ),
        (
            RefreshEvent::Keys(Fetched::Status("500".to_string())),
            "JWKS error: JWKS fetch failed: 500",
        ),
    ];
    for (event, message) in failures {
        match v.refresh_jwks(event, NOW + SECOND) {
            RefreshStep::Failed(e) => {
                assert_eq!(e.message(), message);
                assert_eq!(e.status(), 500);
            }
            other => panic!("got {other:?}"),
        }
        assert!(matches!(v.get_key("test-kid-1", NOW), KeyLookup::Found(_)));
        assert!(matches!(v.get_key("other", NOW), KeyLookup::Refresh));
    }
}

#[test]
fn only_readable_rsa_keys_are_kept() {
    let jwks = JwkSet {
        keys: vec![
            jwk("a", "RSA", RSA_N, RSA_E),
            jwk("b", "EC", RSA_N, RSA_E),
            jwk("c", "RSA", "not base64!", RSA_E),
            jwk("d", "RSA", "AQAB", RSA_E),
            jwk("d", "RSA", RSA_N, RSA_E),
            jwk("d", "RSA", RSA_N, "="),
        ],
    };
    let table = keep_keys(&jwks);
    assert_eq!(table.len(), 2);
    assert_eq!(table.get("a").unwrap().n, RSA_N);
    assert!(table.get("b").is_none());
    assert!(table.get("c").is_none());
    assert_eq!(table.get("d").unwrap().n, RSA_N);
    assert_eq!(table.get("d").unwrap().e, RSA_E);
    let readable = |n: &str| keep_keys(&JwkSet { keys: vec![jwk("a", "RSA", n, "AQAB")] }).len() == 1;
    for n in ["", "AQ", "AAE", "AAAA", "AAAAAA", "-_-_", "Zz09"] {
        assert!(readable(n), "{n}");
    }
    for n in ["A", "AR", "AAB", "AAAAA", "AQ==", "AA+A", "AA/A", "AAA A", "\u{e9}AAA"] {
        assert!(!readable(n), "{n}");
    }
    let passed_over = KeyTable::new().with_jwk(&jwk("a", "RSA", "n", "e"), false);
    assert_eq!(passed_over.len(), 0);
}

#[test]
fn tokens_are_resumed_after_a_fetch() {
    let issuer = Issuer::new();
    let v = issuer.validator();
    let token = issuer.sign(Some("test-kid-1"), &good_claims());
    let claims = v.resume_token(&token, "test-kid-1", Ok(())).unwrap();
    assert_eq!(claims.repository.as_deref(), Some("myorg/myrepo"));
    let e = v.resume_token(&token, "other", Ok(())).unwrap_err();
    assert_eq!(e.message(), "JWKS error: unknown kid after refresh: other");
    let failed = Err(Error::OidcDiscovery("down".to_string()));
    let e = v.resume_token(&token, "test-kid-1", failed).unwrap_err();
    assert_eq!(e.message(), "OIDC discovery failed: down");
}

#[test]
fn service_takes_tokens_of_jobs() {
    let issuer = Issuer::new();
    let service = AuthService::new_with_oidc_keys(config(), issuer.one_key("k"), NOW);
    match service.validate_token(&issuer.sign(Some("k"), &good_claims()), NOW) {
        AuthStep::Accepted(info) => assert_eq!(info.client_identity, "myorg/myrepo"),
        other => panic!("got {other:?}"),
    }
    let mut nameless = good_claims();
    nameless.remove("repository");
    match service.validate_token(&issuer.sign(Some("k"), &nameless), NOW) {
        AuthStep::Accepted(info) => assert_eq!(info.client_identity, "unknown"),
        other => panic!("got {other:?}"),
    }
    let token = issuer.sign(Some("new"), &good_claims());
    let mut service = service;
    assert!(matches!(service.validate_token(&token, NOW), AuthStep::NeedsKeys { kid } if kid == "new"));
    let jwks = issuer.jwks("new");
    assert!(matches!(
        service.refresh_jwks(RefreshEvent::Keys(Fetched::Body(jwks)), NOW),
        Some(RefreshStep::Done)
    ));
    let info = service.resume_token(&token, "new", Ok(())).unwrap();
    assert_eq!(info.client_identity, "myorg/myrepo");
}

#[test]
fn service_without_validators_takes_nothing() {
    let issuer = Issuer::new();
    let mut service = AuthService::new(None, None).unwrap();
    let token = issuer.sign(Some("k"), &good_claims());
    let message = "unauthorized: no auth backend accepted the token";
    match service.validate_token(&token, NOW) {
        AuthStep::Rejected(e) => assert_eq!(e.message(), message),
        other => panic!("got {other:?}"),
    }
    assert_eq!(service.resume_token(&token, "k", Ok(())).unwrap_err().message(), message);
    assert!(service.refresh_jwks(RefreshEvent::Start, NOW).is_none());
}

#[test]
fn local_validator_comes_first() {
    let taken = || Some(Ok(AuthInfo { client_identity: "me".to_string() }));
    let refused = || Some(Err(Error::JwtValidation("no".to_string())));
    let job = || {
        Some(TokenStep::Accepted(GitHubClaims {
            repository_owner: None,
            repository: Some("o/r".to_string()),
        }))
    };
    assert!(matches!(decide(taken(), job()), AuthStep::Accepted(i) if i.client_identity == "me"));
    assert!(matches!(decide(refused(), job()), AuthStep::Accepted(i) if i.client_identity == "o/r"));
    assert!(matches!(decide(None, job()), AuthStep::Accepted(i) if i.client_identity == "o/r"));
    assert!(matches!(
        decide(refused(), None),
        AuthStep::Rejected(Error::Unauthorized(_))
    ));
}

#[test]
fn test_relay_echo_with_cat_daemon() {
    let issuer = Issuer::new();
    let auth_config = AuthConfig {
        issuer: "https://token.actions.githubusercontent.com".to_string(),
        audience: "api://nix-relay".to_string(),
        allowed_org: "testorg".to_string(),
        jwks_cache_ttl_secs: 3600,
        local_key_file: None,
    };
    let kid = "integration-test-kid";
    let state = RelayState {
        auth: AuthService::new_with_oidc_keys(auth_config, issuer.one_key(kid), NOW),
        daemon_config: nix_relay::config::DaemonConfig {
            nix_daemon_path: "cat".to_string(),
            extra_args: vec![],
            timeout_secs: 10,
            max_connections: 4,
        },
        connection_semaphore: Arc::new(Semaphore::new(4)),
    };
    let token = issuer.sign(
        Some(kid),
        &claims(vec![
            ("iss", text("https://token.actions.githubusercontent.com")),
            ("aud", text("api://nix-relay")),
            ("exp", Value::from(jsonwebtoken::get_current_timestamp() + 3600)),
            ("repository_owner", text("testorg")),
            ("repository", text("testorg/testrepo")),
        ]),
    );
    let header = format!("Bearer {token}");
    let client = match relay_handler(&state, Some(header.as_bytes()), NOW) {
        RelayStep::TakeSlot { client } => client,
        other => panic!("expected a session, got {other:?}"),
    };
    assert_eq!(client, "testorg/testrepo");
    let (plan, _permit) = relay_admit(&state, client).unwrap();
    assert_eq!(plan.client, "testorg/testrepo");
    assert_eq!(plan.protocol, "binary");
    assert_eq!(plan.daemon.nix_daemon_path, "cat");
    assert!(plan.daemon.extra_args.is_empty());
    assert_eq!(plan.daemon.timeout_secs, 10);

    let test_data = b"hello nix-relay!";
    let mut session = RelaySession::new();
    let frame = Frame::Binary(test_data.to_vec());
    let daemon_input = match session.on_event(SessionEvent::ClientFrame(frame)) {
        SessionAction::WriteDaemon(data) => data,
        other => panic!("expected a write, got {other:?}"),
    };
    match session.on_event(SessionEvent::DaemonOutput(daemon_input)) {
        SessionAction::SendClient(data) => {
            assert_eq!(data.as_slice(), test_data, "echoed data should match");
        }
        other => panic!("expected binary message, got: {other:?}"),
    }
}

#[test]
fn test_relay_rejects_no_auth() {
    let auth_config = AuthConfig {
        issuer: "https://token.actions.githubusercontent.com".to_string(),
        audience: "api://nix-relay".to_string(),
        allowed_org: "testorg".to_string(),
        jwks_cache_ttl_secs: 3600,
        local_key_file: None,
    };
    let state = RelayState {
        auth: AuthService::new_with_oidc_keys(auth_config, one_key("kid"), NOW),
        daemon_config: nix_relay::config::DaemonConfig {
            nix_daemon_path: "cat".to_string(),
            extra_args: vec![],
            timeout_secs: 10,
            max_connections: 4,
        },
        connection_semaphore: Arc::new(Semaphore::new(4)),
    };
    match relay_handler(&state, None, NOW) {
        RelayStep::Reject(e) => {
            assert_eq!(
                e.into_response(),
                (401, "missing Authorization header".to_string())
            );
        }
        other => panic!("expected connection to be rejected, got {other:?}"),
    }
}

#[test]
fn requests_wait_for_fetched_keys() {
    let issuer = Issuer::new();
    let mut state = RelayState {
        auth: AuthService::new_with_oidc_keys(config(), issuer.one_key("old"), NOW),
        daemon_config: nix_relay::config::DaemonConfig::default(),
        connection_semaphore: Arc::new(Semaphore::new(4)),
    };
    let header = format!("Bearer {}", issuer.sign(Some("new"), &good_claims()));
    let (token, kid) = match relay_handler(&state, Some(header.as_bytes()), NOW) {
        RelayStep::FetchKeys { token, kid } => (token, kid),
        other => panic!("got {other:?}"),
    };
    assert_eq!(kid, "new");
    let failed = Err(Error::Jwks("JWKS fetch failed: 500".to_string()));
    let e = relay_resume(&state, &token, &kid, failed).unwrap_err();
    assert_eq!(
        e.into_response(),
        (500, "JWKS error: JWKS fetch failed: 500".to_string())
    );
    let jwks = issuer.jwks("new");
    let _ = state.auth.refresh_jwks(RefreshEvent::Keys(Fetched::Body(jwks)), NOW);
    assert_eq!(relay_resume(&state, &token, &kid, Ok(())).unwrap(), "myorg/myrepo");
    assert_eq!(relay_resume(&state, &token, "gone", Ok(())).unwrap_err().status(), 500);
}

#[test]
fn connections_wait_for_a_slot() {
    let state = RelayState {
        auth: AuthService::new(None, None).unwrap(),
        daemon_config: nix_relay::config::DaemonConfig::default(),
        connection_semaphore: Arc::new(Semaphore::new(1)),
    };
    let (plan, permit) = relay_admit(&state, "a".to_string()).unwrap();
    assert_eq!(plan.client, "a");
    assert_eq!(plan.daemon.extra_args, vec!["--stdio".to_string()]);
    let e = relay_admit(&state, "b".to_string()).unwrap_err();
    assert_eq!(e.into_response(), (503, "too many connections".to_string()));
    drop(permit);
    let (_, permit) = relay_admit(&state, "b".to_string()).unwrap();
    let (plan, _permit) = admit_with(&state, "c".to_string(), Some(permit)).unwrap();
    assert_eq!(plan.client, "c");
    assert!(matches!(
        admit_with(&state, "d".to_string(), None),
        Err(Error::TooManyConnections)
    ));
}

#[test]
fn free_slots_and_sessions_add_up() {
    let state = RelayState {
        auth: AuthService::new(None, None).unwrap(),
        daemon_config: nix_relay::config::DaemonConfig::default(),
        connection_semaphore: Arc::new(Semaphore::new(3)),
    };
    let free = || state.connection_semaphore.available_permits();
    let mut sessions = Vec::new();
    for round in 0..5 {
        if let Ok(session) = relay_admit(&state, "a".to_string()) {
            sessions.push(session);
        }
        assert_eq!(sessions.len(), (round + 1).min(3));
        assert_eq!(free() + sessions.len(), 3);
    }
    while sessions.pop().is_some() {
        assert_eq!(free() + sessions.len(), 3);
    }
    assert_eq!(free(), 3);
}
