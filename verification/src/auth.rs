//! Who may connect: the tokens of an OpenID Connect issuer, and tokens signed with a local key.
//!
//! Times are clock readings in nanoseconds. The clock may start anywhere but does not stop.

use vstd::prelude::*;

use crate::config::{AuthConfig, AuthConfigView};
use crate::error::{Error, ErrorView};
use crate::jwt::{
    check_claim, decode_rs256, find_claim, read_kid, ClaimValue, ClaimView, ClaimsView,
};
use crate::keys::{keep_keys, JwkSet, JwkView, KeyTable, OidcDiscovery, RsaKey, RsaKeyView};
use crate::text::{eq_ignore_ascii_case, joined, trim_end_matches};

pub use crate::local::LocalValidator;
pub use crate::service::AuthService;

verus! {

/// How long the issuer's keys are not asked for again, in nanoseconds.
pub const REFRESH_PAUSE: u64 = 60_000_000_000;

/// How long ago keys that were not fetched count as fetched, in nanoseconds.
pub const PRELOADED_AGE: u64 = 120_000_000_000;

/// Who a token belongs to.
#[derive(Debug)]
pub struct AuthInfo {
    pub client_identity: String,
}

/// What the token of a GitHub Actions job says of the job.
#[derive(Debug)]
pub struct GitHubClaims {
    pub repository_owner: Option<String>,
    pub repository: Option<String>,
}

/// The mathematical value of [`GitHubClaims`].
pub struct GitHubClaimsView {
    pub repository_owner: Option<Seq<char>>,
    pub repository: Option<Seq<char>>,
}

impl Clone for AuthInfo {
    fn clone(&self) -> (r: Self)
        ensures
            r@ == self@,
    {
        AuthInfo { client_identity: self.client_identity.clone() }
    }
}

impl View for AuthInfo {
    type V = Seq<char>;

    open spec fn view(&self) -> Seq<char> {
        self.client_identity@
    }
}

impl View for GitHubClaims {
    type V = GitHubClaimsView;

    open spec fn view(&self) -> GitHubClaimsView {
        GitHubClaimsView {
            repository_owner: crate::jwt::opt_text(self.repository_owner),
            repository: crate::jwt::opt_text(self.repository),
        }
    }
}

/// The identity or the failure in a result.
pub open spec fn info_result(r: Result<AuthInfo, Error>) -> Result<Seq<char>, ErrorView> {
    match r {
        Ok(info) => Ok(info@),
        Err(e) => Err(e@),
    }
}

/// The claims or the failure in a result.
pub open spec fn claims_result(r: Result<GitHubClaims, Error>) -> Result<
    GitHubClaimsView,
    ErrorView,
> {
    match r {
        Ok(claims) => Ok(claims@),
        Err(e) => Err(e@),
    }
}

/// What the claim `name` says, if it is a text. A claim that is null says nothing.
pub open spec fn text_claim(claims: ClaimsView, name: Seq<char>) -> Result<
    Option<Seq<char>>,
    Seq<char>,
> {
    if !claims.contains_key(name) {
        Ok(None)
    } else {
        match claims[name] {
            ClaimView::Null => Ok(None),
            ClaimView::Text(t) => Ok(Some(t)),
            _ => Err("JSON error: invalid type for claim "@ + name + ", expected a string"@),
        }
    }
}

pub(crate) fn read_text_claim(entries: &Vec<(String, ClaimValue)>, name: &str) -> (r: Result<
    Option<String>,
    String,
>)
    ensures
        match r {
            Ok(text) => text_claim(crate::jwt::claims_of(entries@), name@) == Ok::<
                Option<Seq<char>>,
                Seq<char>,
            >(crate::jwt::opt_text(text)),
            Err(e) => text_claim(crate::jwt::claims_of(entries@), name@) == Err::<
                Option<Seq<char>>,
                Seq<char>,
            >(e@),
        },
{
    match find_claim(entries, name) {
        None => Ok(None),
        Some(ClaimValue::Null) => Ok(None),
        Some(ClaimValue::Text(t)) => Ok(Some(t.clone())),
        Some(_) => Err(
            joined("JSON error: invalid type for claim ", name).concat(", expected a string"),
        ),
    }
}

/// What is said of an owner that is not the allowed organization.
pub open spec fn wrong_org(owner: Seq<char>, allowed_org: Seq<char>) -> Seq<char> {
    "repository_owner '"@ + owner + "' not in allowed org '"@ + allowed_org + "'"@
}

/// What the issuer's validator makes of a verified token: the claims of a job of the allowed
/// organization, in a token that names the issuer and the audience. With no organization set,
/// every owner will do.
pub open spec fn job_accepted(
    config: AuthConfigView,
    decoded: Result<ClaimsView, Seq<char>>,
) -> Result<GitHubClaimsView, ErrorView> {
    match decoded {
        Err(e) => Err(ErrorView::JwtValidation(e)),
        Ok(claims) => match (
            text_claim(claims, "repository_owner"@),
            text_claim(claims, "repository"@),
        ) {
            (Err(e), _) => Err(ErrorView::JwtValidation(e)),
            (Ok(_), Err(e)) => Err(ErrorView::JwtValidation(e)),
            (Ok(repository_owner), Ok(repository)) => if !crate::jwt::claim_names(
                claims,
                "iss"@,
                config.issuer,
            ) {
                Err(ErrorView::JwtValidation("InvalidIssuer"@))
            } else if !crate::jwt::claim_names(claims, "aud"@, config.audience) {
                Err(ErrorView::JwtValidation("InvalidAudience"@))
            } else {
                let owner = match repository_owner {
                    Some(owner) => owner,
                    None => Seq::empty(),
                };
                if config.allowed_org.len() != 0 && !crate::text::same_ignoring_case(
                    owner,
                    config.allowed_org,
                ) {
                    Err(ErrorView::Unauthorized(wrong_org(owner, config.allowed_org)))
                } else {
                    Ok(GitHubClaimsView { repository_owner, repository })
                }
            },
        },
    }
}

/// What a request to the issuer came to.
#[derive(Debug)]
pub enum Fetched<T> {
    /// It was answered.
    Body(T),
    /// It could not be made, or its reply not be read.
    Transport(String),
    /// It was answered with a status that reports an error.
    Status(String),
}

/// What happens while the issuer's keys are fetched.
#[derive(Debug)]
pub enum RefreshEvent {
    /// The fetching starts.
    Start,
    /// The request for the discovery document is done.
    Discovery(Fetched<OidcDiscovery>),
    /// The request for the keys is done.
    Keys(Fetched<JwkSet>),
}

/// What to do next while the issuer's keys are fetched.
#[derive(Debug)]
pub enum RefreshStep {
    /// Request the discovery document at this address.
    FetchDiscovery(String),
    /// Request the keys at this address.
    FetchKeys(String),
    /// Nothing: the keys are there.
    Done,
    /// Nothing: there are no keys to be had.
    Failed(Error),
}

/// The mathematical value of a [`RefreshStep`].
pub enum RefreshStepView {
    FetchDiscovery(Seq<char>),
    FetchKeys(Seq<char>),
    Done,
    Failed(ErrorView),
}

impl View for RefreshStep {
    type V = RefreshStepView;

    open spec fn view(&self) -> RefreshStepView {
        match self {
            RefreshStep::FetchDiscovery(url) => RefreshStepView::FetchDiscovery(url@),
            RefreshStep::FetchKeys(url) => RefreshStepView::FetchKeys(url@),
            RefreshStep::Done => RefreshStepView::Done,
            RefreshStep::Failed(e) => RefreshStepView::Failed(e@),
        }
    }
}

/// Where a key for a token is to come from.
#[derive(Debug)]
pub enum KeyLookup {
    /// The key is known.
    Found(RsaKey),
    /// There is no such key.
    Unknown(Error),
    /// The issuer may have published it since its keys were fetched.
    Refresh,
}

/// The mathematical value of a [`KeyLookup`].
pub enum KeyLookupView {
    Found(RsaKeyView),
    Unknown(ErrorView),
    Refresh,
}

impl View for KeyLookup {
    type V = KeyLookupView;

    open spec fn view(&self) -> KeyLookupView {
        match self {
            KeyLookup::Found(key) => KeyLookupView::Found(key@),
            KeyLookup::Unknown(e) => KeyLookupView::Unknown(e@),
            KeyLookup::Refresh => KeyLookupView::Refresh,
        }
    }
}

/// What becomes of a token of the issuer.
#[derive(Debug)]
pub enum TokenStep {
    /// It is taken.
    Accepted(GitHubClaims),
    /// It is refused.
    Rejected(Error),
    /// Its key is to be looked for among freshly fetched keys.
    NeedsKeys { kid: String },
}

/// The mathematical value of a [`TokenStep`].
pub enum TokenStepView {
    Accepted(GitHubClaimsView),
    Rejected(ErrorView),
    NeedsKeys(Seq<char>),
}

impl View for TokenStep {
    type V = TokenStepView;

    open spec fn view(&self) -> TokenStepView {
        match self {
            TokenStep::Accepted(claims) => TokenStepView::Accepted(claims@),
            TokenStep::Rejected(e) => TokenStepView::Rejected(e@),
            TokenStep::NeedsKeys { kid } => TokenStepView::NeedsKeys(kid@),
        }
    }
}

struct JwksCache {
    keys: KeyTable,
    last_refresh: u64,
}

/// The keys of the issuer, and when they were fetched.
pub struct CacheView {
    pub keys: Map<Seq<char>, RsaKeyView>,
    pub last_refresh: u64,
}

/// Checks the tokens of an OpenID Connect issuer.
pub struct AuthValidator {
    config: AuthConfig,
    cache: Option<JwksCache>,
}

/// The mathematical value of an [`AuthValidator`].
pub struct ValidatorView {
    pub config: AuthConfigView,
    pub cache: Option<CacheView>,
}

impl View for AuthValidator {
    type V = ValidatorView;

    closed spec fn view(&self) -> ValidatorView {
        ValidatorView {
            config: self.config@,
            cache: match self.cache {
                Some(cache) => Some(
                    CacheView { keys: cache.keys@, last_refresh: cache.last_refresh },
                ),
                None => None,
            },
        }
    }
}

impl ValidatorView {
    /// Whether the key for `kid` is known.
    pub open spec fn knows(self, kid: Seq<char>) -> bool {
        self.cache matches Some(cache) && cache.keys.contains_key(kid)
    }

    /// The key for `kid`.
    pub open spec fn key(self, kid: Seq<char>) -> RsaKeyView
        recommends
            self.knows(kid),
    {
        self.cache->0.keys[kid]
    }

    /// Whether the keys were fetched less than a minute before `now`.
    pub open spec fn is_fresh(self, now: u64) -> bool {
        self.cache matches Some(cache) && now - cache.last_refresh < REFRESH_PAUSE
    }

    /// Where the issuer publishes where its keys are.
    pub open spec fn discovery_url(self) -> Seq<char> {
        crate::text::without_trailing(self.config.issuer, '/')
            + "/.well-known/openid-configuration"@
    }

    /// Where the key for `kid` is to come from.
    pub open spec fn lookup(self, kid: Seq<char>, now: u64) -> KeyLookupView {
        if self.knows(kid) {
            KeyLookupView::Found(self.key(kid))
        } else if self.is_fresh(now) {
            KeyLookupView::Unknown(ErrorView::Jwks("unknown kid: "@ + kid))
        } else {
            KeyLookupView::Refresh
        }
    }

    /// The key for `kid` among freshly fetched keys.
    pub open spec fn lookup_after_refresh(self, kid: Seq<char>) -> Result<RsaKeyView, ErrorView> {
        if self.knows(kid) {
            Ok(self.key(kid))
        } else {
            Err(ErrorView::Jwks("unknown kid after refresh: "@ + kid))
        }
    }

    /// The validator with the keys that it keeps of `jwks`, fetched at `now`.
    pub open spec fn refreshed(self, jwks: Seq<JwkView>, now: u64) -> ValidatorView {
        ValidatorView {
            config: self.config,
            cache: Some(
                CacheView { keys: crate::keys::kept_keys(jwks), last_refresh: now },
            ),
        }
    }

    /// What to do next while keys are fetched, and what becomes of the validator.
    pub open spec fn refresh_step(self, event: RefreshEvent, now: u64) -> (
        RefreshStepView,
        ValidatorView,
    ) {
        match event {
            RefreshEvent::Start => (RefreshStepView::FetchDiscovery(self.discovery_url()), self),
            RefreshEvent::Discovery(Fetched::Body(discovery)) => (
                RefreshStepView::FetchKeys(discovery.jwks_uri@),
                self,
            ),
            RefreshEvent::Keys(Fetched::Body(jwks)) => (
                RefreshStepView::Done,
                self.refreshed(jwks@, now),
            ),
            RefreshEvent::Discovery(Fetched::Transport(e)) | RefreshEvent::Keys(
                Fetched::Transport(e),
            ) => (RefreshStepView::Failed(ErrorView::OidcDiscovery(e@)), self),
            RefreshEvent::Discovery(Fetched::Status(e)) => (
                RefreshStepView::Failed(ErrorView::Jwks("discovery fetch failed: "@ + e@)),
                self,
            ),
            RefreshEvent::Keys(Fetched::Status(e)) => (
                RefreshStepView::Failed(ErrorView::Jwks("JWKS fetch failed: "@ + e@)),
                self,
            ),
        }
    }

    /// Whether verifying `token` with `key` can come to `got`.
    pub open spec fn key_reads(
        self,
        token: Seq<char>,
        key: RsaKeyView,
        got: Result<ClaimsView, Seq<char>>,
    ) -> bool {
        crate::jwt::decode_allows(
            crate::jwt::rs256_claims(token, key.n, key.e),
            self.config.issuer,
            Some(self.config.audience),
            got,
        )
    }

    /// Whether verifying `token` can come to `got`, if its key is known.
    pub open spec fn reads(self, token: Seq<char>, got: Result<ClaimsView, Seq<char>>) -> bool {
        crate::jwt::token_kid(token) matches Ok(Some(kid)) ==> (self.knows(kid) ==> self.key_reads(
            token,
            self.key(kid),
            got,
        ))
    }

    /// What becomes of `token` at `now`, where verifying it with a key that is known comes to
    /// `got`.
    pub open spec fn step(
        self,
        token: Seq<char>,
        now: u64,
        got: Result<ClaimsView, Seq<char>>,
    ) -> TokenStepView {
        match kid_required(crate::jwt::token_kid(token)) {
            Err(e) => TokenStepView::Rejected(e),
            Ok(kid) => match self.lookup(kid, now) {
                KeyLookupView::Found(_) => match job_accepted(self.config, got) {
                    Ok(claims) => TokenStepView::Accepted(claims),
                    Err(e) => TokenStepView::Rejected(e),
                },
                KeyLookupView::Unknown(e) => TokenStepView::Rejected(e),
                KeyLookupView::Refresh => TokenStepView::NeedsKeys(kid),
            },
        }
    }

    /// What becomes of a token with the key identifier `kid` once keys have been fetched,
    /// where verifying it with that key comes to `got`.
    pub open spec fn step_after_refresh(
        self,
        kid: Seq<char>,
        got: Result<ClaimsView, Seq<char>>,
    ) -> Result<GitHubClaimsView, ErrorView> {
        match self.lookup_after_refresh(kid) {
            Err(e) => Err(e),
            Ok(_) => job_accepted(self.config, got),
        }
    }
}

/// The key identifier of a token, which every token of the issuer must have.
pub open spec fn kid_required(header: Result<Option<Seq<char>>, Seq<char>>) -> Result<
    Seq<char>,
    ErrorView,
> {
    match header {
        Err(e) => Err(ErrorView::JwtValidation(e)),
        Ok(None) => Err(ErrorView::Jwks("token missing kid header"@)),
        Ok(Some(kid)) => Ok(kid),
    }
}

/// The key identifier of a token, where reading its header came to `header`.
pub fn require_kid(header: Result<Option<String>, String>) -> (r: Result<String, Error>)
    ensures
        match header {
            Err(e) => r matches Err(err) && err@ == ErrorView::JwtValidation(e@),
            Ok(None) => r matches Err(err) && err@ == ErrorView::Jwks(
                "token missing kid header"@,
            ),
            Ok(Some(kid)) => r matches Ok(k) && k@ == kid@,
        },
{
    match header {
        Err(e) => Err(Error::JwtValidation(e)),
        Ok(None) => Err(Error::Jwks("token missing kid header".to_string())),
        Ok(Some(kid)) => Ok(kid),
    }
}

impl AuthValidator {
    /// A validator that has no keys yet.
    pub fn new(config: AuthConfig) -> (r: Self)
        ensures
            r@ == (ValidatorView { config: config@, cache: None }),
    {
        AuthValidator { config, cache: None }
    }

    /// A validator with keys that count as fetched two minutes before `now`.
    pub fn new_with_keys(config: AuthConfig, keys: KeyTable, now: u64) -> (r: Self)
        requires
            PRELOADED_AGE <= now,
        ensures
            r@.config == config@,
            r@.cache == Some(
                CacheView { keys: keys@, last_refresh: (now - PRELOADED_AGE) as u64 },
            ),
    {
        AuthValidator {
            config,
            cache: Some(JwksCache { keys, last_refresh: now - PRELOADED_AGE }),
        }
    }

    /// Where the issuer publishes where its keys are.
    pub fn discovery_url(&self) -> (r: String)
        ensures
            r@ == self@.discovery_url(),
    {
        joined(
            trim_end_matches(self.config.issuer.as_str(), '/'),
            "/.well-known/openid-configuration",
        )
    }

    /// Fetches the issuer's keys, step by step: takes in what happened and says what to do
    /// next. Fetched keys replace all keys that there were.
    pub fn refresh_jwks(&mut self, event: RefreshEvent, now: u64) -> (r: RefreshStep)
        ensures
            (r@, final(self)@) == old(self)@.refresh_step(event, now),
    {
        match event {
            RefreshEvent::Start => RefreshStep::FetchDiscovery(self.discovery_url()),
            RefreshEvent::Discovery(Fetched::Body(discovery)) => RefreshStep::FetchKeys(
                discovery.jwks_uri,
            ),
            RefreshEvent::Keys(Fetched::Body(jwks)) => {
                self.cache = Some(JwksCache { keys: keep_keys(&jwks), last_refresh: now });
                RefreshStep::Done
            },
            RefreshEvent::Discovery(Fetched::Transport(e)) => RefreshStep::Failed(
                Error::OidcDiscovery(e),
            ),
            RefreshEvent::Keys(Fetched::Transport(e)) => RefreshStep::Failed(
                Error::OidcDiscovery(e),
            ),
            RefreshEvent::Discovery(Fetched::Status(e)) => RefreshStep::Failed(
                Error::Jwks(joined("discovery fetch failed: ", e.as_str())),
            ),
            RefreshEvent::Keys(Fetched::Status(e)) => RefreshStep::Failed(
                Error::Jwks(joined("JWKS fetch failed: ", e.as_str())),
            ),
        }
    }

    fn known_key(&self, kid: &str) -> (r: Option<RsaKey>)
        ensures
            match r {
                Some(key) => self@.knows(kid@) && self@.key(kid@) == key@,
                None => !self@.knows(kid@),
            },
    {
        match &self.cache {
            Some(cache) => cache.keys.get(kid),
            None => None,
        }
    }

    /// Where the key for `kid` is to come from: an unknown key is looked for at the issuer,
    /// unless its keys were fetched less than a minute ago.
    pub fn get_key(&self, kid: &str, now: u64) -> (r: KeyLookup)
        ensures
            r@ == self@.lookup(kid@, now),
    {
        if let Some(key) = self.known_key(kid) {
            return KeyLookup::Found(key);
        }
        if let Some(cache) = &self.cache {
            if now < cache.last_refresh || now - cache.last_refresh < REFRESH_PAUSE {
                return KeyLookup::Unknown(Error::Jwks(joined("unknown kid: ", kid)));
            }
        }
        KeyLookup::Refresh
    }

    /// The key for `kid` among freshly fetched keys.
    pub fn get_key_after_refresh(&self, kid: &str) -> (r: Result<RsaKey, Error>)
        ensures
            match r {
                Ok(key) => self@.lookup_after_refresh(kid@) == Ok::<RsaKeyView, ErrorView>(key@),
                Err(e) => self@.lookup_after_refresh(kid@) == Err::<RsaKeyView, ErrorView>(e@),
            },
    {
        match self.known_key(kid) {
            Some(key) => Ok(key),
            None => Err(Error::Jwks(joined("unknown kid after refresh: ", kid))),
        }
    }

    /// What is made of a token, where verifying it came to `decoded`.
    pub fn accept_claims(&self, decoded: Result<Vec<(String, ClaimValue)>, String>) -> (r: Result<
        GitHubClaims,
        Error,
    >)
        ensures
            claims_result(r) == job_accepted(self@.config, crate::jwt::decoded_view(decoded)),
    {
        let claims = match decoded {
            Ok(claims) => claims,
            Err(e) => return Err(Error::JwtValidation(e)),
        };
        let repository_owner = match read_text_claim(&claims, "repository_owner") {
            Ok(owner) => owner,
            Err(e) => return Err(Error::JwtValidation(e)),
        };
        let repository = match read_text_claim(&claims, "repository") {
            Ok(repository) => repository,
            Err(e) => return Err(Error::JwtValidation(e)),
        };
        if !check_claim(&claims, "iss", self.config.issuer.as_str()) {
            return Err(Error::JwtValidation("InvalidIssuer".to_string()));
        }
        if !check_claim(&claims, "aud", self.config.audience.as_str()) {
            return Err(Error::JwtValidation("InvalidAudience".to_string()));
        }
        if self.config.has_oidc() {
            let empty: String = String::new();
            let owner: &str = match &repository_owner {
                Some(owner) => owner.as_str(),
                None => empty.as_str(),
            };
            let allowed_org: &str = self.config.allowed_org.as_str();
            if !eq_ignore_ascii_case(owner, allowed_org) {
                let message = joined("repository_owner '", owner).concat(
                    "' not in allowed org '",
                ).concat(allowed_org).concat("'");
                return Err(Error::Unauthorized(message));
            }
        }
        Ok(GitHubClaims { repository_owner, repository })
    }

    fn check_with_key(&self, token: &str, key: &RsaKey) -> (r: Result<GitHubClaims, Error>)
        ensures
            exists|got: Result<ClaimsView, Seq<char>>| #[trigger]
                self@.key_reads(token@, key@, got) && claims_result(r) == job_accepted(
                    self@.config,
                    got,
                ),
    {
        let decoded = decode_rs256(
            token,
            key.n.as_str(),
            key.e.as_str(),
            self.config.issuer.as_str(),
            self.config.audience.as_str(),
        );
        assert(self@.key_reads(token@, key@, crate::jwt::decoded_view(decoded)));
        self.accept_claims(decoded)
    }

    /// What becomes of `token` at `now`.
    pub fn validate_token(&self, token: &str, now: u64) -> (r: TokenStep)
        ensures
            exists|got: Result<ClaimsView, Seq<char>>| #[trigger]
                self@.reads(token@, got) && r@ == self@.step(token@, now, got),
    {
        let kid = match require_kid(read_kid(token)) {
            Ok(kid) => kid,
            Err(e) => {
                let ghost got = Ok::<ClaimsView, Seq<char>>(Map::empty());
                assert(self@.reads(token@, got));
                return TokenStep::Rejected(e);
            },
        };
        match self.get_key(kid.as_str(), now) {
            KeyLookup::Found(key) => {
                let checked = self.check_with_key(token, &key);
                proof {
                    let got = choose|got: Result<ClaimsView, Seq<char>>| #[trigger]
                        self@.key_reads(token@, key@, got) && claims_result(checked)
                            == job_accepted(self@.config, got);
                    assert(self@.reads(token@, got));
                }
                match checked {
                    Ok(claims) => TokenStep::Accepted(claims),
                    Err(e) => TokenStep::Rejected(e),
                }
            },
            KeyLookup::Unknown(e) => {
                let ghost got = Ok::<ClaimsView, Seq<char>>(Map::empty());
                assert(self@.reads(token@, got));
                TokenStep::Rejected(e)
            },
            KeyLookup::Refresh => {
                let ghost got = Ok::<ClaimsView, Seq<char>>(Map::empty());
                assert(self@.reads(token@, got));
                TokenStep::NeedsKeys { kid }
            },
        }
    }

    /// What becomes of `token`, with the key identifier `kid`, once fetching keys for it came
    /// to `refreshed`.
    pub fn resume_token(&self, token: &str, kid: &str, refreshed: Result<(), Error>) -> (r: Result<
        GitHubClaims,
        Error,
    >)
        ensures
            match refreshed {
                Err(e) => r matches Err(err) && err@ == e@,
                Ok(_) => exists|got: Result<ClaimsView, Seq<char>>| #[trigger]
                    self@.resumes(token@, kid@, got) && claims_result(r)
                        == self@.step_after_refresh(kid@, got),
            },
    {
        match refreshed {
            Err(e) => Err(e),
            Ok(_) => match self.get_key_after_refresh(kid) {
                Err(e) => {
                    let ghost got = Ok::<ClaimsView, Seq<char>>(Map::empty());
                    assert(self@.resumes(token@, kid@, got));
                    Err(e)
                },
                Ok(key) => {
                    let checked = self.check_with_key(token, &key);
                    proof {
                        let got = choose|got: Result<ClaimsView, Seq<char>>| #[trigger]
                            self@.key_reads(token@, key@, got) && claims_result(checked)
                                == job_accepted(self@.config, got);
                        assert(self@.resumes(token@, kid@, got));
                    }
                    checked
                },
            },
        }
    }
}

impl ValidatorView {
    /// Whether verifying `token` with the key for `kid` can come to `got`, if it is known.
    pub open spec fn resumes(
        self,
        token: Seq<char>,
        kid: Seq<char>,
        got: Result<ClaimsView, Seq<char>>,
    ) -> bool {
        self.knows(kid) ==> self.key_reads(token, self.key(kid), got)
    }
}

/// A known key is never fetched again.
pub proof fn law_known_keys_are_not_fetched(v: ValidatorView, kid: Seq<char>, now: u64)
    requires
        v.knows(kid),
    ensures
        v.lookup(kid, now) == KeyLookupView::Found(v.key(kid)),
{
}

/// After keys were fetched, an unknown key is refused for a minute without asking the issuer,
/// and then looked for again.
pub proof fn law_issuer_is_asked_once_a_minute(
    v: ValidatorView,
    jwks: Seq<JwkView>,
    fetched: u64,
    kid: Seq<char>,
    now: u64,
)
    requires
        !v.refreshed(jwks, fetched).knows(kid),
    ensures
        v.refreshed(jwks, fetched).lookup(kid, now) == if now < fetched + REFRESH_PAUSE {
            KeyLookupView::Unknown(ErrorView::Jwks("unknown kid: "@ + kid))
        } else {
            KeyLookupView::Refresh
        },
{
}

/// Fetched keys replace all keys that there were: what was known before does not matter.
pub proof fn law_fetched_keys_replace_known_keys(
    v: ValidatorView,
    other: ValidatorView,
    jwks: Seq<JwkView>,
    now: u64,
)
    requires
        v.config == other.config,
    ensures
        v.refreshed(jwks, now) == other.refreshed(jwks, now),
{
}

/// A fetch that fails, or that is not done yet, leaves the validator as it was.
pub proof fn law_keys_change_only_when_fetched(v: ValidatorView, event: RefreshEvent, now: u64)
    requires
        v.refresh_step(event, now).0 !is Done,
    ensures
        v.refresh_step(event, now).1 == v,
{
}

/// With an organization set, of the tokens that name the issuer and the audience only those of
/// its repositories are taken, whatever the case of its name. Without one, the owner does not
/// matter.
pub proof fn law_only_the_allowed_organization_is_taken(config: AuthConfigView, claims: ClaimsView)
    requires
        text_claim(claims, "repository_owner"@) is Ok,
        text_claim(claims, "repository"@) is Ok,
        crate::jwt::claim_names(claims, "iss"@, config.issuer),
        crate::jwt::claim_names(claims, "aud"@, config.audience),
    ensures
        job_accepted(config, Ok(claims)) is Ok <==> {
            ||| config.allowed_org.len() == 0
            ||| {
                &&& claims.contains_key("repository_owner"@)
                &&& claims["repository_owner"@] matches ClaimView::Text(owner)
                &&& crate::text::same_ignoring_case(owner, config.allowed_org)
            }
        },
{
    if !claims.contains_key("repository_owner"@) || claims["repository_owner"@] is Null {
        assert(crate::text::lowered(Seq::<char>::empty()).len() == 0);
        assert(crate::text::lowered(config.allowed_org).len() == config.allowed_org.len());
    }
}

/// Every token of the issuer that is taken is signed with a known key of the issuer, names the
/// configured issuer and the configured audience, and says when it expires.
pub proof fn law_taken_tokens_are_verified(
    v: ValidatorView,
    token: Seq<char>,
    now: u64,
    got: Result<ClaimsView, Seq<char>>,
)
    requires
        v.reads(token, got),
        v.step(token, now, got) is Accepted,
    ensures
        crate::jwt::token_kid(token) matches Ok(Some(kid)) && v.knows(kid)
            && crate::jwt::rs256_claims(token, v.key(kid).n, v.key(kid).e) == got,
        got matches Ok(claims) && crate::jwt::claim_names(claims, "iss"@, v.config.issuer)
            && crate::jwt::claim_names(claims, "aud"@, v.config.audience) && claims.contains_key(
            "exp"@,
        ) && claims["exp"@] is Number,
{
}

/// A token that does not name the configured issuer and the configured audience is refused,
/// whatever else it says.
pub proof fn law_tokens_of_others_are_refused(
    v: ValidatorView,
    token: Seq<char>,
    now: u64,
    got: Result<ClaimsView, Seq<char>>,
    kid: Seq<char>,
    claims: ClaimsView,
)
    requires
        v.reads(token, got),
        crate::jwt::token_kid(token) == Ok::<Option<Seq<char>>, Seq<char>>(Some(kid)),
        v.knows(kid),
        crate::jwt::rs256_claims(token, v.key(kid).n, v.key(kid).e) == Ok::<
            ClaimsView,
            Seq<char>,
        >(claims),
        !crate::jwt::claim_names(claims, "iss"@, v.config.issuer) || !crate::jwt::claim_names(
            claims,
            "aud"@,
            v.config.audience,
        ),
    ensures
        v.step(token, now, got) matches TokenStepView::Rejected(ErrorView::JwtValidation(_)),
{
}

/// A token that is signed with a known key, names the configured issuer and audience and
/// belongs to the allowed organization is taken, unless it has expired.
pub proof fn law_good_tokens_are_taken(
    v: ValidatorView,
    token: Seq<char>,
    now: u64,
    got: Result<ClaimsView, Seq<char>>,
    kid: Seq<char>,
    claims: ClaimsView,
    exp: u64,
)
    requires
        v.reads(token, got),
        crate::jwt::token_kid(token) == Ok::<Option<Seq<char>>, Seq<char>>(Some(kid)),
        v.knows(kid),
        crate::jwt::rs256_claims(token, v.key(kid).n, v.key(kid).e) == Ok::<
            ClaimsView,
            Seq<char>,
        >(claims),
        claims.contains_key("exp"@),
        claims["exp"@] == ClaimView::Number(Some(exp)),
        job_accepted(v.config, Ok(claims)) is Ok,
    ensures
        ({
            ||| v.step(token, now, got) == TokenStepView::Accepted(
                job_accepted(v.config, Ok(claims))->Ok_0,
            )
            ||| exp < u64::MAX - 60 && v.step(token, now, got) == TokenStepView::Rejected(
                ErrorView::JwtValidation("ExpiredSignature"@),
            )
        }),
{
}

/// A claim says its text, and nothing if it is absent or null. A claim that is anything else is
/// refused, and named.
pub proof fn law_claims_say_their_text(claims: ClaimsView, name: Seq<char>)
    ensures
        !claims.contains_key(name) || claims[name] is Null ==> text_claim(claims, name) == Ok::<
            Option<Seq<char>>,
            Seq<char>,
        >(None),
        claims.contains_key(name) ==> (claims[name] matches ClaimView::Text(text) ==> text_claim(
            claims,
            name,
        ) == Ok::<Option<Seq<char>>, Seq<char>>(Some(text))),
        claims.contains_key(name) && !(claims[name] is Null) && !(claims[name] is Text)
            ==> text_claim(claims, name) == Err::<Option<Seq<char>>, Seq<char>>(
            "JSON error: invalid type for claim "@ + name + ", expected a string"@,
        ),
{
}

/// A verified token is taken for `job` exactly if it names the configured issuer and audience,
/// says of its owner and its repository what `job` says, and, with an organization set, its
/// owner is that organization up to case.
pub proof fn law_jobs_are_taken_by_their_claims(
    config: AuthConfigView,
    claims: ClaimsView,
    job: GitHubClaimsView,
)
    ensures
        job_accepted(config, Ok(claims)) == Ok::<GitHubClaimsView, ErrorView>(job) <==> {
            &&& claims.contains_key("iss"@) && crate::jwt::names(claims["iss"@], config.issuer)
            &&& claims.contains_key("aud"@) && crate::jwt::names(claims["aud"@], config.audience)
            &&& match job.repository_owner {
                Some(owner) => claims.contains_key("repository_owner"@)
                    && claims["repository_owner"@] == ClaimView::Text(owner),
                None => !claims.contains_key("repository_owner"@)
                    || claims["repository_owner"@] is Null,
            }
            &&& match job.repository {
                Some(repository) => claims.contains_key("repository"@) && claims["repository"@]
                    == ClaimView::Text(repository),
                None => !claims.contains_key("repository"@) || claims["repository"@] is Null,
            }
            &&& config.allowed_org.len() > 0 ==> (job.repository_owner matches Some(owner)
                && crate::text::same_ignoring_case(owner, config.allowed_org))
        },
{
    assert(crate::text::lowered(Seq::<char>::empty()).len() == 0);
    assert(crate::text::lowered(config.allowed_org).len() == config.allowed_org.len());
}

/// A token that could not be verified, or whose owner or repository is no text, is refused for
/// that reason.
pub proof fn law_unreadable_tokens_are_refused(
    config: AuthConfigView,
    e: Seq<char>,
    claims: ClaimsView,
)
    ensures
        job_accepted(config, Err(e)) == Err::<GitHubClaimsView, ErrorView>(
            ErrorView::JwtValidation(e),
        ),
        text_claim(claims, "repository_owner"@) matches Err(wrong) ==> job_accepted(
            config,
            Ok(claims),
        ) == Err::<GitHubClaimsView, ErrorView>(ErrorView::JwtValidation(wrong)),
        text_claim(claims, "repository_owner"@) is Ok ==> (text_claim(claims, "repository"@)
            matches Err(wrong) ==> job_accepted(config, Ok(claims)) == Err::<
            GitHubClaimsView,
            ErrorView,
        >(ErrorView::JwtValidation(wrong))),
{
}

/// A readable token that does not name the issuer or the audience is refused for that. One that
/// does, but is of another organization or of none, is refused with its owner and the allowed
/// organization in the message.
pub proof fn law_refusals_say_why(
    config: AuthConfigView,
    claims: ClaimsView,
    owner: Option<Seq<char>>,
    repository: Option<Seq<char>>,
)
    requires
        text_claim(claims, "repository_owner"@) == Ok::<Option<Seq<char>>, Seq<char>>(owner),
        text_claim(claims, "repository"@) == Ok::<Option<Seq<char>>, Seq<char>>(repository),
    ensures
        !crate::jwt::claim_names(claims, "iss"@, config.issuer) ==> job_accepted(config, Ok(claims))
            == Err::<GitHubClaimsView, ErrorView>(ErrorView::JwtValidation("InvalidIssuer"@)),
        crate::jwt::claim_names(claims, "iss"@, config.issuer) && !crate::jwt::claim_names(
            claims,
            "aud"@,
            config.audience,
        ) ==> job_accepted(config, Ok(claims)) == Err::<GitHubClaimsView, ErrorView>(
            ErrorView::JwtValidation("InvalidAudience"@),
        ),
        crate::jwt::claim_names(claims, "iss"@, config.issuer) && crate::jwt::claim_names(
            claims,
            "aud"@,
            config.audience,
        ) && config.allowed_org.len() > 0 ==> match owner {
            None => job_accepted(config, Ok(claims)) == Err::<GitHubClaimsView, ErrorView>(
                ErrorView::Unauthorized(
                    "repository_owner '"@ + Seq::empty() + "' not in allowed org '"@
                        + config.allowed_org + "'"@,
                ),
            ),
            Some(owner) => !crate::text::same_ignoring_case(owner, config.allowed_org)
                ==> job_accepted(config, Ok(claims)) == Err::<GitHubClaimsView, ErrorView>(
                ErrorView::Unauthorized(
                    "repository_owner '"@ + owner + "' not in allowed org '"@
                        + config.allowed_org + "'"@,
                ),
            ),
        },
{
    assert(crate::text::lowered(Seq::<char>::empty()).len() == 0);
    assert(crate::text::lowered(config.allowed_org).len() == config.allowed_org.len());
}

/// The key of a token comes from the keys that are known, if it is among them. If not, the
/// issuer is asked for it, unless its keys were fetched less than 60 seconds ago.
pub proof fn law_keys_come_from_the_cache_or_the_issuer(
    v: ValidatorView,
    kid: Seq<char>,
    now: u64,
)
    ensures
        match v.cache {
            None => v.lookup(kid, now) == KeyLookupView::Refresh,
            Some(cache) => if cache.keys.contains_key(kid) {
                v.lookup(kid, now) == KeyLookupView::Found(cache.keys[kid])
            } else if now < cache.last_refresh + 60_000_000_000 {
                v.lookup(kid, now) == KeyLookupView::Unknown(
                    ErrorView::Jwks("unknown kid: "@ + kid),
                )
            } else {
                v.lookup(kid, now) == KeyLookupView::Refresh
            },
        },
        match v.cache {
            Some(cache) if cache.keys.contains_key(kid) => v.lookup_after_refresh(kid) == Ok::<
                RsaKeyView,
                ErrorView,
            >(cache.keys[kid]),
            _ => v.lookup_after_refresh(kid) == Err::<RsaKeyView, ErrorView>(
                ErrorView::Jwks("unknown kid after refresh: "@ + kid),
            ),
        },
{
}

/// The discovery document stands below the issuer, however many slashes end its address: one
/// slash parts the two.
pub proof fn law_discovery_is_below_the_issuer(
    v: ValidatorView,
    issuer: Seq<char>,
    slashes: Seq<char>,
)
    requires
        v.config.issuer == issuer + slashes,
        issuer.len() > 0 ==> issuer.last() != '/',
        forall|i: int| 0 <= i < slashes.len() ==> #[trigger] slashes[i] == '/',
    ensures
        v.discovery_url() == issuer + "/.well-known/openid-configuration"@,
{
    crate::text::law_trailing_copies_are_cut(issuer, '/', slashes);
}

/// Keys are fetched in two requests: for the discovery document, and then for the keys at the
/// address that stands in it. The keys that come back are kept, in place of all others, and
/// count as fetched at that time.
pub proof fn law_keys_are_fetched_by_discovery(
    v: ValidatorView,
    discovery: OidcDiscovery,
    jwks: JwkSet,
    now: u64,
)
    ensures
        v.refresh_step(RefreshEvent::Start, now) == (
            RefreshStepView::FetchDiscovery(v.discovery_url()),
            v,
        ),
        v.refresh_step(RefreshEvent::Discovery(Fetched::Body(discovery)), now) == (
            RefreshStepView::FetchKeys(discovery.jwks_uri@),
            v,
        ),
        ({
            let (step, after) = v.refresh_step(RefreshEvent::Keys(Fetched::Body(jwks)), now);
            &&& step == RefreshStepView::Done
            &&& after.config == v.config
            &&& after.cache matches Some(cache) && cache.last_refresh == now && cache.keys
                == crate::keys::kept_keys(jwks@)
        }),
{
}

/// A request that fails ends the fetching with its error, and leaves the validator as it was.
pub proof fn law_failed_requests_end_the_fetching(v: ValidatorView, e: String, now: u64)
    ensures
        v.refresh_step(RefreshEvent::Discovery(Fetched::Transport(e)), now) == (
            RefreshStepView::Failed(ErrorView::OidcDiscovery(e@)),
            v,
        ),
        v.refresh_step(RefreshEvent::Keys(Fetched::Transport(e)), now) == (
            RefreshStepView::Failed(ErrorView::OidcDiscovery(e@)),
            v,
        ),
        v.refresh_step(RefreshEvent::Discovery(Fetched::Status(e)), now) == (
            RefreshStepView::Failed(ErrorView::Jwks("discovery fetch failed: "@ + e@)),
            v,
        ),
        v.refresh_step(RefreshEvent::Keys(Fetched::Status(e)), now) == (
            RefreshStepView::Failed(ErrorView::Jwks("JWKS fetch failed: "@ + e@)),
            v,
        ),
{
}

/// A token without a readable header or without a key identifier is refused, and one whose key
/// is not known is refused or waits for the issuer's keys, before anything in it is read.
pub proof fn law_tokens_are_read_with_a_known_key_alone(
    v: ValidatorView,
    token: Seq<char>,
    now: u64,
    got: Result<ClaimsView, Seq<char>>,
)
    ensures
        match crate::jwt::token_kid(token) {
            Err(e) => v.step(token, now, got) == TokenStepView::Rejected(
                ErrorView::JwtValidation(e),
            ),
            Ok(None) => v.step(token, now, got) == TokenStepView::Rejected(
                ErrorView::Jwks("token missing kid header"@),
            ),
            Ok(Some(kid)) => match v.cache {
                Some(cache) if cache.keys.contains_key(kid) => true,
                Some(cache) if now < cache.last_refresh + 60_000_000_000 => v.step(token, now, got)
                    == TokenStepView::Rejected(ErrorView::Jwks("unknown kid: "@ + kid)),
                _ => v.step(token, now, got) == TokenStepView::NeedsKeys(kid),
            },
        },
{
}

/// A token is verified with the known key for its identifier, against the configured issuer
/// and audience, whether or not keys were fetched for it.
pub proof fn law_tokens_are_verified_with_their_key(
    v: ValidatorView,
    token: Seq<char>,
    kid: Seq<char>,
    got: Result<ClaimsView, Seq<char>>,
    cache: CacheView,
)
    requires
        v.cache == Some(cache),
        cache.keys.contains_key(kid),
    ensures
        v.resumes(token, kid, got) <==> crate::jwt::decode_allows(
            crate::jwt::rs256_claims(token, cache.keys[kid].n, cache.keys[kid].e),
            v.config.issuer,
            Some(v.config.audience),
            got,
        ),
        crate::jwt::token_kid(token) == Ok::<Option<Seq<char>>, Seq<char>>(Some(kid)) ==> (v.reads(
            token,
            got,
        ) <==> v.resumes(token, kid, got)),
{
}

/// A token is judged by the same rules once keys were fetched for it: what is said of it then
/// is what is said of a token whose key was known from the start.
pub proof fn law_fetched_keys_do_not_change_the_rules(
    v: ValidatorView,
    token: Seq<char>,
    now: u64,
    kid: Seq<char>,
    got: Result<ClaimsView, Seq<char>>,
    cache: CacheView,
)
    requires
        crate::jwt::token_kid(token) == Ok::<Option<Seq<char>>, Seq<char>>(Some(kid)),
        v.cache == Some(cache),
        cache.keys.contains_key(kid),
    ensures
        v.step(token, now, got) == match v.step_after_refresh(kid, got) {
            Ok(job) => TokenStepView::Accepted(job),
            Err(e) => TokenStepView::Rejected(e),
        },
        v.step_after_refresh(kid, got) == job_accepted(v.config, got),
{
}

/// Whether a token is taken once keys were fetched rests on its own claims: it is verified with
/// the fetched key for its identifier, names the configured issuer and audience, is taken for
/// the owner and the repository that stand in it, and, with an organization set, its owner is
/// that organization up to case.
pub proof fn law_resumed_tokens_are_judged_by_their_claims(
    v: ValidatorView,
    token: Seq<char>,
    kid: Seq<char>,
    got: Result<ClaimsView, Seq<char>>,
    job: GitHubClaimsView,
)
    requires
        v.resumes(token, kid, got),
        v.step_after_refresh(kid, got) == Ok::<GitHubClaimsView, ErrorView>(job),
    ensures
        v.cache matches Some(cache) && cache.keys.contains_key(kid) && crate::jwt::rs256_claims(
            token,
            cache.keys[kid].n,
            cache.keys[kid].e,
        ) == got,
        got matches Ok(claims) && {
            &&& claims.contains_key("iss"@) && crate::jwt::names(claims["iss"@], v.config.issuer)
            &&& claims.contains_key("aud"@) && crate::jwt::names(claims["aud"@], v.config.audience)
            &&& claims.contains_key("exp"@) && claims["exp"@] is Number
            &&& job.repository_owner matches Some(owner) ==> claims.contains_key(
                "repository_owner"@,
            ) && claims["repository_owner"@] == ClaimView::Text(owner)
            &&& job.repository matches Some(repository) ==> claims.contains_key("repository"@)
                && claims["repository"@] == ClaimView::Text(repository)
        },
        v.config.allowed_org.len() > 0 ==> (job.repository_owner matches Some(owner)
            && crate::text::same_ignoring_case(owner, v.config.allowed_org)),
{
    law_jobs_are_taken_by_their_claims(v.config, got->Ok_0, job);
}

/// Without the key among the fetched ones, no token is taken.
pub proof fn law_tokens_without_a_fetched_key_are_refused(
    v: ValidatorView,
    kid: Seq<char>,
    got: Result<ClaimsView, Seq<char>>,
)
    requires
        v.cache matches Some(cache) ==> !cache.keys.contains_key(kid),
    ensures
        v.step_after_refresh(kid, got) == Err::<GitHubClaimsView, ErrorView>(
            ErrorView::Jwks("unknown kid after refresh: "@ + kid),
        ),
{
}

/// The steps, and what they come to, are what they hold.
pub proof fn law_steps_are_what_they_hold(
    text: String,
    error: Error,
    key: RsaKey,
    job: GitHubClaims,
    info: AuthInfo,
)
    ensures
        RefreshStep::FetchDiscovery(text)@ == RefreshStepView::FetchDiscovery(text@),
        RefreshStep::FetchKeys(text)@ == RefreshStepView::FetchKeys(text@),
        RefreshStep::Done@ == RefreshStepView::Done,
        RefreshStep::Failed(error)@ == RefreshStepView::Failed(error@),
        KeyLookup::Found(key)@ == KeyLookupView::Found(key@),
        KeyLookup::Unknown(error)@ == KeyLookupView::Unknown(error@),
        KeyLookup::Refresh@ == KeyLookupView::Refresh,
        TokenStep::Accepted(job)@ == TokenStepView::Accepted(job@),
        TokenStep::Rejected(error)@ == TokenStepView::Rejected(error@),
        (TokenStep::NeedsKeys { kid: text })@ == TokenStepView::NeedsKeys(text@),
        info@ == info.client_identity@,
        info_result(Ok(info)) == Ok::<Seq<char>, ErrorView>(info.client_identity@),
        info_result(Err(error)) == Err::<Seq<char>, ErrorView>(error@),
        claims_result(Ok(job)) == Ok::<GitHubClaimsView, ErrorView>(job@),
        claims_result(Err(error)) == Err::<GitHubClaimsView, ErrorView>(error@),
        match job.repository_owner {
            Some(owner) => job@.repository_owner == Some(owner@),
            None => job@.repository_owner is None,
        },
        match job.repository {
            Some(repository) => job@.repository == Some(repository@),
            None => job@.repository is None,
        },
{
}

/// Keys that were not fetched count as 120 seconds old, so that the issuer may be asked for
/// more at once.
pub proof fn law_preloaded_keys_are_stale(v: ValidatorView, kid: Seq<char>, now: u64)
    requires
        PRELOADED_AGE <= now,
        v.cache matches Some(cache) && cache.last_refresh == now - PRELOADED_AGE
            && !cache.keys.contains_key(kid),
    ensures
        PRELOADED_AGE == 120_000_000_000,
        v.lookup(kid, now) == KeyLookupView::Refresh,
{
}

} // verus!
