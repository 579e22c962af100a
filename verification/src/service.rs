//! The two kinds of tokens behind one door.

use vstd::prelude::*;

use crate::auth::{
    AuthInfo, AuthValidator, GitHubClaims, GitHubClaimsView, RefreshEvent, RefreshStep, TokenStep,
    TokenStepView, ValidatorView,
};
use crate::config::AuthConfig;
use crate::error::{Error, ErrorView};
use crate::jwt::{ClaimView, ClaimsView};
use crate::keys::KeyTable;
use crate::local::LocalValidator;

verus! {

/// What becomes of a token.
#[derive(Debug)]
pub enum AuthStep {
    /// It is taken.
    Accepted(AuthInfo),
    /// It is refused.
    Rejected(Error),
    /// Its key is to be looked for among freshly fetched keys of the issuer.
    NeedsKeys { kid: String },
}

/// The mathematical value of an [`AuthStep`].
pub enum AuthStepView {
    Accepted(Seq<char>),
    Rejected(ErrorView),
    NeedsKeys(Seq<char>),
}

impl View for AuthStep {
    type V = AuthStepView;

    open spec fn view(&self) -> AuthStepView {
        match self {
            AuthStep::Accepted(info) => AuthStepView::Accepted(info@),
            AuthStep::Rejected(e) => AuthStepView::Rejected(e@),
            AuthStep::NeedsKeys { kid } => AuthStepView::NeedsKeys(kid@),
        }
    }
}

/// Who a job is: its repository, if its token says.
pub open spec fn job_identity(claims: GitHubClaimsView) -> Seq<char> {
    match claims.repository {
        Some(repository) => repository,
        None => "unknown"@,
    }
}

/// The failure of a token that nobody takes.
pub open spec fn not_accepted() -> ErrorView {
    ErrorView::Unauthorized("no auth backend accepted the token"@)
}

/// What becomes of a token of which the validators that there are say `local` and `oidc`. The
/// validator of local tokens comes first; where it refuses, the issuer's decides.
pub open spec fn decision(
    local: Option<Result<Seq<char>, ErrorView>>,
    oidc: Option<TokenStepView>,
) -> AuthStepView {
    match local {
        Some(Ok(identity)) => AuthStepView::Accepted(identity),
        _ => match oidc {
            None => AuthStepView::Rejected(not_accepted()),
            Some(TokenStepView::Accepted(claims)) => AuthStepView::Accepted(job_identity(claims)),
            Some(TokenStepView::Rejected(e)) => AuthStepView::Rejected(e),
            Some(TokenStepView::NeedsKeys(kid)) => AuthStepView::NeedsKeys(kid),
        },
    }
}

/// What a validator says, if there is one.
pub open spec fn opt_info(local: Option<Result<AuthInfo, Error>>) -> Option<
    Result<Seq<char>, ErrorView>,
> {
    match local {
        Some(r) => Some(crate::auth::info_result(r)),
        None => None,
    }
}

/// What a validator says, if there is one.
pub open spec fn opt_step(oidc: Option<TokenStep>) -> Option<TokenStepView> {
    match oidc {
        Some(step) => Some(step@),
        None => None,
    }
}

fn identity_of(claims: GitHubClaims) -> (r: AuthInfo)
    ensures
        r@ == job_identity(claims@),
{
    match claims.repository {
        Some(repository) => AuthInfo { client_identity: repository },
        None => AuthInfo { client_identity: "unknown".to_string() },
    }
}

/// What becomes of a token of which the validators that there are say `local` and `oidc`.
pub fn decide(local: Option<Result<AuthInfo, Error>>, oidc: Option<TokenStep>) -> (r: AuthStep)
    ensures
        r@ == decision(opt_info(local), opt_step(oidc)),
{
    if let Some(Ok(info)) = local {
        return AuthStep::Accepted(info);
    }
    match oidc {
        None => AuthStep::Rejected(
            Error::Unauthorized("no auth backend accepted the token".to_string()),
        ),
        Some(TokenStep::Accepted(claims)) => AuthStep::Accepted(identity_of(claims)),
        Some(TokenStep::Rejected(e)) => AuthStep::Rejected(e),
        Some(TokenStep::NeedsKeys { kid }) => AuthStep::NeedsKeys { kid },
    }
}

/// Checks tokens of both kinds.
pub struct AuthService {
    oidc: Option<AuthValidator>,
    local: Option<LocalValidator>,
}

/// The mathematical value of an [`AuthService`]: the issuer's validator, and the public key of
/// local tokens.
pub struct ServiceView {
    pub oidc: Option<ValidatorView>,
    pub local: Option<Seq<char>>,
}

impl View for AuthService {
    type V = ServiceView;

    closed spec fn view(&self) -> ServiceView {
        ServiceView {
            oidc: match self.oidc {
                Some(oidc) => Some(oidc@),
                None => None,
            },
            local: match self.local {
                Some(local) => Some(local@),
                None => None,
            },
        }
    }
}

impl ServiceView {
    /// Whether `token` names the relay as its issuer under the local key.
    pub open spec fn verifies_local(self, token: Seq<char>) -> bool {
        &&& self.local matches Some(pem)
        &&& crate::jwt::eddsa_claims(token, pem) matches Ok(claims)
        &&& crate::jwt::claim_names(claims, "iss"@, crate::local::local_issuer())
    }

    /// Whether `token` names the issuer and the audience under a known key for `kid`.
    pub open spec fn verifies_job(self, token: Seq<char>, kid: Seq<char>) -> bool {
        &&& self.oidc matches Some(v)
        &&& v.knows(kid)
        &&& crate::jwt::rs256_claims(token, v.key(kid).n, v.key(kid).e) matches Ok(claims)
        &&& crate::jwt::claim_names(claims, "iss"@, v.config.issuer)
        &&& crate::jwt::claim_names(claims, "aud"@, v.config.audience)
    }

    /// Whether `token` is verified, with the local key or with the known key that it names.
    pub open spec fn verifies(self, token: Seq<char>) -> bool {
        ||| self.verifies_local(token)
        ||| crate::jwt::token_kid(token) matches Ok(Some(kid)) && self.verifies_job(token, kid)
    }

    /// Whether the validator of local tokens, if there is one, can say `local` of `token`.
    pub open spec fn local_says(
        self,
        token: Seq<char>,
        local: Option<Result<Seq<char>, ErrorView>>,
    ) -> bool {
        match self.local {
            None => local is None,
            Some(pem) => exists|got: Result<ClaimsView, Seq<char>>| #[trigger]
                crate::local::local_reads(pem, token, got) && local == Some(
                    crate::local::local_accepted(got),
                ),
        }
    }

    /// Whether the issuer's validator, if there is one, can say `oidc` of `token` at `now`.
    pub open spec fn oidc_says(
        self,
        token: Seq<char>,
        now: u64,
        oidc: Option<TokenStepView>,
    ) -> bool {
        match self.oidc {
            None => oidc is None,
            Some(v) => exists|got: Result<ClaimsView, Seq<char>>| #[trigger]
                v.reads(token, got) && oidc == Some(v.step(token, now, got)),
        }
    }

    /// Whether `step` can become of `token` at `now`: it is the decision on what the
    /// validators can say.
    pub open spec fn can_step(self, token: Seq<char>, now: u64, step: AuthStepView) -> bool {
        exists|local: Option<Result<Seq<char>, ErrorView>>, oidc: Option<TokenStepView>|
            #[trigger] self.local_says(token, local) && #[trigger] self.oidc_says(token, now, oidc)
                && step == decision(local, oidc)
    }

    /// Whether `result` can become of `token`, with the key identifier `kid`, once keys have
    /// been fetched.
    pub open spec fn can_resume(
        self,
        token: Seq<char>,
        kid: Seq<char>,
        result: Result<Seq<char>, ErrorView>,
    ) -> bool {
        match self.oidc {
            None => result == Err::<Seq<char>, ErrorView>(not_accepted()),
            Some(v) => exists|got: Result<ClaimsView, Seq<char>>| #[trigger]
                v.resumes(token, kid, got) && result == match v.step_after_refresh(kid, got) {
                    Ok(claims) => Ok::<Seq<char>, ErrorView>(job_identity(claims)),
                    Err(e) => Err::<Seq<char>, ErrorView>(e),
                },
        }
    }
}

impl AuthService {
    /// A service with the issuer's validator `oidc` and with the key of local tokens in
    /// `local_key_pem`, as far as they are given.
    pub fn new(oidc: Option<AuthValidator>, local_key_pem: Option<String>) -> (r: Result<
        Self,
        Error,
    >)
        ensures
            match local_key_pem {
                None => r matches Ok(service) && service@ == (ServiceView {
                    oidc: opt_validator(oidc),
                    local: None,
                }),
                Some(pem) => match crate::jwt::ed_public_key(pem@) {
                    Ok(_) => r matches Ok(service) && service@ == (ServiceView {
                        oidc: opt_validator(oidc),
                        local: Some(pem@),
                    }),
                    Err(e) => r matches Err(err) && err@ == ErrorView::Config(
                        "invalid Ed25519 public key: "@ + e,
                    ),
                },
            },
    {
        let local: Option<LocalValidator> = match local_key_pem {
            Some(pem) => match LocalValidator::new(pem.as_str()) {
                Ok(local) => Some(local),
                Err(e) => return Err(e),
            },
            None => None,
        };
        Ok(AuthService { oidc, local })
    }

    /// A service for the issuer's tokens alone, with keys that count as fetched two minutes
    /// before `now`.
    pub fn new_with_oidc_keys(config: AuthConfig, keys: KeyTable, now: u64) -> (r: Self)
        requires
            crate::auth::PRELOADED_AGE <= now,
        ensures
            r@.local is None,
            r@.oidc matches Some(v) && v.config == config@ && v.cache == Some(
                crate::auth::CacheView {
                    keys: keys@,
                    last_refresh: (now - crate::auth::PRELOADED_AGE) as u64,
                },
            ),
    {
        AuthService { oidc: Some(AuthValidator::new_with_keys(config, keys, now)), local: None }
    }

    /// A service for local tokens alone.
    pub fn new_local_only(public_key_pem: &str) -> (r: Result<Self, Error>)
        ensures
            match crate::jwt::ed_public_key(public_key_pem@) {
                Ok(_) => r matches Ok(service) && service@ == (ServiceView {
                    oidc: None,
                    local: Some(public_key_pem@),
                }),
                Err(e) => r matches Err(err) && err@ == ErrorView::Config(
                    "invalid Ed25519 public key: "@ + e,
                ),
            },
    {
        match LocalValidator::new(public_key_pem) {
            Ok(local) => Ok(AuthService { oidc: None, local: Some(local) }),
            Err(e) => Err(e),
        }
    }

    /// Fetches the issuer's keys, step by step, as [`AuthValidator::refresh_jwks`] does. There
    /// is no step where there is no issuer.
    pub fn refresh_jwks(&mut self, event: RefreshEvent, now: u64) -> (r: Option<RefreshStep>)
        ensures
            final(self)@.local == old(self)@.local,
            match old(self)@.oidc {
                Some(v) => r matches Some(step) && final(self)@.oidc matches Some(w) && (step@, w)
                    == v.refresh_step(event, now),
                None => r is None && final(self)@.oidc is None,
            },
    {
        match &mut self.oidc {
            Some(oidc) => Some(oidc.refresh_jwks(event, now)),
            None => None,
        }
    }

    /// What becomes of `token` at `now`.
    pub fn validate_token(&self, token: &str, now: u64) -> (r: AuthStep)
        ensures
            self@.can_step(token@, now, r@),
    {
        let local: Option<Result<AuthInfo, Error>> = match &self.local {
            Some(validator) => {
                let said = validator.validate_token(token);
                proof {
                    let got = choose|got: Result<ClaimsView, Seq<char>>| #[trigger]
                        crate::local::local_reads(validator@, token@, got)
                            && crate::auth::info_result(said) == crate::local::local_accepted(got);
                    assert(crate::local::local_reads(self@.local->0, token@, got));
                }
                Some(said)
            },
            None => None,
        };
        assert(self@.local_says(token@, opt_info(local)));
        if let Some(Ok(info)) = local {
            proof {
                let oidc = match self@.oidc {
                    None => None,
                    Some(v) => Some(v.step(token@, now, any_reading(v, token@))),
                };
                if self@.oidc is Some {
                    lemma_some_reading(self@.oidc->0, token@);
                }
                assert(self@.oidc_says(token@, now, oidc));
            }
            return AuthStep::Accepted(info);
        }
        let oidc: Option<TokenStep> = match &self.oidc {
            Some(validator) => Some(validator.validate_token(token, now)),
            None => None,
        };
        assert(self@.oidc_says(token@, now, opt_step(oidc)));
        decide(local, oidc)
    }

    /// What becomes of `token`, with the key identifier `kid`, once fetching keys for it came
    /// to `refreshed`.
    pub fn resume_token(&self, token: &str, kid: &str, refreshed: Result<(), Error>) -> (r: Result<
        AuthInfo,
        Error,
    >)
        ensures
            match refreshed {
                Err(e) => r matches Err(err) && err@ == match self@.oidc {
                    Some(_) => e@,
                    None => not_accepted(),
                },
                Ok(_) => self@.can_resume(token@, kid@, crate::auth::info_result(r)),
            },
    {
        match &self.oidc {
            None => Err(Error::Unauthorized("no auth backend accepted the token".to_string())),
            Some(validator) => match validator.resume_token(token, kid, refreshed) {
                Ok(claims) => Ok(identity_of(claims)),
                Err(e) => Err(e),
            },
        }
    }
}

/// The value of a validator, if there is one.
pub open spec fn opt_validator(oidc: Option<AuthValidator>) -> Option<ValidatorView> {
    match oidc {
        Some(v) => Some(v@),
        None => None,
    }
}

/// Something that verifying `token` can come to.
spec fn any_reading(v: ValidatorView, token: Seq<char>) -> Result<ClaimsView, Seq<char>> {
    choose|got: Result<ClaimsView, Seq<char>>| v.reads(token, got)
}

/// Verifying a token always comes to something.
proof fn lemma_some_reading(v: ValidatorView, token: Seq<char>)
    ensures
        v.reads(token, any_reading(v, token)),
{
    let none = Ok::<ClaimsView, Seq<char>>(Map::empty());
    match crate::jwt::token_kid(token) {
        Ok(Some(kid)) if v.knows(kid) => {
            let key = v.key(kid);
            match crate::jwt::rs256_claims(token, key.n, key.e) {
                Err(e) => {
                    assert(v.reads(token, Err::<ClaimsView, Seq<char>>(e)));
                },
                Ok(claims) => {
                    assert(v.reads(
                        token,
                        crate::jwt::unexpired_verdict(
                            claims,
                            v.config.issuer,
                            Some(v.config.audience),
                        ),
                    ) || v.reads(
                        token,
                        Err::<ClaimsView, Seq<char>>("Missing required claim: exp"@),
                    ));
                },
            }
        },
        _ => {
            assert(v.reads(token, none));
        },
    }
}

/// A token that the local validator takes is taken, whatever the issuer's would say.
pub proof fn law_local_validator_comes_first(identity: Seq<char>, oidc: Option<TokenStepView>)
    ensures
        decision(Some(Ok(identity)), oidc) == AuthStepView::Accepted(identity),
{
}

/// Where the local validator refuses, it has no say: the issuer's validator decides alone.
pub proof fn law_local_refusal_has_no_say(e: ErrorView, oidc: Option<TokenStepView>)
    ensures
        decision(Some(Err(e)), oidc) == decision(None, oidc),
{
}

/// Without a validator no token is taken.
pub proof fn law_no_validator_takes_no_token(
    service: ServiceView,
    token: Seq<char>,
    now: u64,
    step: AuthStepView,
)
    requires
        service.oidc is None,
        service.local is None,
        service.can_step(token, now, step),
    ensures
        step == AuthStepView::Rejected(not_accepted()),
{
}

/// Every token that is taken was verified: it names the relay as its issuer under the local
/// key, or the issuer and the audience under a known key of the issuer.
pub proof fn law_taken_tokens_were_verified(
    service: ServiceView,
    token: Seq<char>,
    now: u64,
    step: AuthStepView,
)
    requires
        service.can_step(token, now, step),
        step is Accepted,
    ensures
        service.verifies(token),
{
    let (local, oidc) = choose|
        local: Option<Result<Seq<char>, ErrorView>>,
        oidc: Option<TokenStepView>,
    |
        #[trigger] service.local_says(token, local) && #[trigger] service.oidc_says(
            token,
            now,
            oidc,
        ) && step == decision(local, oidc);
    if local matches Some(Ok(_)) {
        let pem = service.local->0;
        let got = choose|got: Result<ClaimsView, Seq<char>>| #[trigger]
            crate::local::local_reads(pem, token, got) && local == Some(
                crate::local::local_accepted(got),
            );
        crate::local::law_taken_local_tokens_are_verified(pem, token, got);
    } else {
        let v = service.oidc->0;
        let got = choose|got: Result<ClaimsView, Seq<char>>| #[trigger]
            v.reads(token, got) && oidc == Some(v.step(token, now, got));
        crate::auth::law_taken_tokens_are_verified(v, token, now, got);
    }
}

/// Every token that is taken once keys have been fetched names the issuer and the audience
/// under a key among them.
pub proof fn law_resumed_tokens_were_verified(
    service: ServiceView,
    token: Seq<char>,
    kid: Seq<char>,
    result: Result<Seq<char>, ErrorView>,
)
    requires
        service.can_resume(token, kid, result),
        result is Ok,
    ensures
        service.verifies_job(token, kid),
{
}

/// Where no local validator takes a token, what becomes of it is what the issuer's validator
/// says: a job it takes is known by its repository, or as `unknown` without one, and its
/// refusals and requests for keys are passed on.
pub proof fn law_issuer_decides_on_other_tokens(
    local: Option<Result<Seq<char>, ErrorView>>,
    job: GitHubClaimsView,
    e: ErrorView,
    kid: Seq<char>,
)
    requires
        !(local matches Some(Ok(_))),
    ensures
        match job.repository {
            Some(repository) => decision(local, Some(TokenStepView::Accepted(job)))
                == AuthStepView::Accepted(repository),
            None => decision(local, Some(TokenStepView::Accepted(job))) == AuthStepView::Accepted(
                "unknown"@,
            ),
        },
        decision(local, Some(TokenStepView::Rejected(e))) == AuthStepView::Rejected(e),
        decision(local, Some(TokenStepView::NeedsKeys(kid))) == AuthStepView::NeedsKeys(kid),
        decision(local, None) == AuthStepView::Rejected(
            ErrorView::Unauthorized("no auth backend accepted the token"@),
        ),
{
}

/// A token that is taken belongs to whom it says: to the subject of a local token that names
/// the relay, or to the repository of a job of the allowed organization in a token that names
/// the issuer and the audience.
pub proof fn law_taken_tokens_belong_to_whom_they_say(
    service: ServiceView,
    token: Seq<char>,
    now: u64,
    identity: Seq<char>,
)
    requires
        service.can_step(token, now, AuthStepView::Accepted(identity)),
    ensures
        ({
            ||| {
                &&& service.local matches Some(pem)
                &&& crate::jwt::eddsa_claims(token, pem) matches Ok(claims)
                &&& crate::jwt::claim_names(claims, "iss"@, "nix-relay"@)
                &&& if claims.contains_key("sub"@) && !(claims["sub"@] is Null) {
                    claims["sub"@] == ClaimView::Text(identity)
                } else {
                    identity == "local"@
                }
            }
            ||| {
                &&& service.oidc matches Some(v)
                &&& crate::jwt::token_kid(token) matches Ok(Some(kid))
                &&& v.cache matches Some(cache)
                &&& cache.keys.contains_key(kid)
                &&& crate::jwt::rs256_claims(token, cache.keys[kid].n, cache.keys[kid].e)
                    matches Ok(claims)
                &&& is_job_of(v, claims, identity)
            }
        }),
{
    let step = AuthStepView::Accepted(identity);
    let (local, oidc) = choose|
        local: Option<Result<Seq<char>, ErrorView>>,
        oidc: Option<TokenStepView>,
    |
        #[trigger] service.local_says(token, local) && #[trigger] service.oidc_says(
            token,
            now,
            oidc,
        ) && step == decision(local, oidc);
    if local matches Some(Ok(_)) {
        let pem = service.local->0;
        let got = choose|got: Result<ClaimsView, Seq<char>>| #[trigger]
            crate::local::local_reads(pem, token, got) && local == Some(
                crate::local::local_accepted(got),
            );
        crate::local::law_taken_local_tokens_are_verified(pem, token, got);
        crate::local::law_local_tokens_are_taken_by_their_claims(got->Ok_0, identity);
    } else {
        let v = service.oidc->0;
        let got = choose|got: Result<ClaimsView, Seq<char>>| #[trigger]
            v.reads(token, got) && oidc == Some(v.step(token, now, got));
        crate::auth::law_taken_tokens_are_verified(v, token, now, got);
        let job = v.step(token, now, got)->Accepted_0;
        crate::auth::law_jobs_are_taken_by_their_claims(v.config, got->Ok_0, job);
    }
}

/// Whether `claims` are those of a job of the allowed organization, for the configured issuer
/// and audience, that is known as `identity`.
pub open spec fn is_job_of(v: ValidatorView, claims: ClaimsView, identity: Seq<char>) -> bool {
    &&& crate::jwt::claim_names(claims, "iss"@, v.config.issuer)
    &&& crate::jwt::claim_names(claims, "aud"@, v.config.audience)
    &&& v.config.allowed_org.len() > 0 ==> {
        &&& claims.contains_key("repository_owner"@)
        &&& claims["repository_owner"@] matches ClaimView::Text(owner)
        &&& crate::text::same_ignoring_case(owner, v.config.allowed_org)
    }
    &&& if claims.contains_key("repository"@) && !(claims["repository"@] is Null) {
        claims["repository"@] == ClaimView::Text(identity)
    } else {
        identity == "unknown"@
    }
}

/// A token that is taken once keys were fetched is that of a job of the allowed organization,
/// for the configured issuer and audience, and belongs to the repository that it says.
pub proof fn law_resumed_tokens_belong_to_whom_they_say(
    service: ServiceView,
    token: Seq<char>,
    kid: Seq<char>,
    identity: Seq<char>,
)
    requires
        service.can_resume(token, kid, Ok(identity)),
    ensures
        ({
            &&& service.oidc matches Some(v)
            &&& v.cache matches Some(cache)
            &&& cache.keys.contains_key(kid)
            &&& crate::jwt::rs256_claims(token, cache.keys[kid].n, cache.keys[kid].e)
                matches Ok(claims)
            &&& is_job_of(v, claims, identity)
        }),
{
    let v = service.oidc->0;
    let got = choose|got: Result<ClaimsView, Seq<char>>| #[trigger]
        v.resumes(token, kid, got) && Ok::<Seq<char>, ErrorView>(identity)
            == match v.step_after_refresh(kid, got) {
            Ok(job) => Ok::<Seq<char>, ErrorView>(job_identity(job)),
            Err(e) => Err::<Seq<char>, ErrorView>(e),
        };
    let job = v.step_after_refresh(kid, got)->Ok_0;
    crate::auth::law_resumed_tokens_are_judged_by_their_claims(v, token, kid, got, job);
    crate::auth::law_jobs_are_taken_by_their_claims(v.config, got->Ok_0, job);
}

/// A local token that cannot expire is taken for its subject, whatever the issuer's validator
/// would say.
pub proof fn law_lasting_local_tokens_are_taken(
    service: ServiceView,
    token: Seq<char>,
    now: u64,
    step: AuthStepView,
    pem: Seq<char>,
    claims: ClaimsView,
    identity: Seq<char>,
    exp: u64,
)
    requires
        service.can_step(token, now, step),
        service.local == Some(pem),
        crate::jwt::eddsa_claims(token, pem) == Ok::<ClaimsView, Seq<char>>(claims),
        crate::jwt::claim_names(claims, "iss"@, "nix-relay"@),
        claims.contains_key("sub"@),
        claims["sub"@] == ClaimView::Text(identity),
        claims.contains_key("exp"@),
        claims["exp"@] == ClaimView::Number(Some(exp)),
        exp >= u64::MAX - 60,
    ensures
        step == AuthStepView::Accepted(identity),
{
    let (local, oidc) = choose|
        local: Option<Result<Seq<char>, ErrorView>>,
        oidc: Option<TokenStepView>,
    |
        #[trigger] service.local_says(token, local) && #[trigger] service.oidc_says(
            token,
            now,
            oidc,
        ) && step == decision(local, oidc);
    let got = choose|got: Result<ClaimsView, Seq<char>>| #[trigger]
        crate::local::local_reads(pem, token, got) && local == Some(
            crate::local::local_accepted(got),
        );
    crate::local::law_good_local_tokens_are_taken(pem, token, got, claims, identity, exp);
}

/// A token that the local key does not verify is for the issuer's validator alone: what becomes
/// of it is what that validator can say of it.
pub proof fn law_other_tokens_are_for_the_issuer(
    service: ServiceView,
    token: Seq<char>,
    now: u64,
    step: AuthStepView,
    v: ValidatorView,
)
    requires
        service.can_step(token, now, step),
        service.oidc == Some(v),
        service.local matches Some(pem) ==> crate::jwt::eddsa_claims(token, pem) is Err,
    ensures
        exists|got: Result<ClaimsView, Seq<char>>| #[trigger]
            v.reads(token, got) && match v.step(token, now, got) {
                TokenStepView::Accepted(job) => step == AuthStepView::Accepted(
                    match job.repository {
                        Some(repository) => repository,
                        None => "unknown"@,
                    },
                ),
                TokenStepView::Rejected(e) => step == AuthStepView::Rejected(e),
                TokenStepView::NeedsKeys(kid) => step == AuthStepView::NeedsKeys(kid),
            },
{
    let (local, oidc) = choose|
        local: Option<Result<Seq<char>, ErrorView>>,
        oidc: Option<TokenStepView>,
    |
        #[trigger] service.local_says(token, local) && #[trigger] service.oidc_says(
            token,
            now,
            oidc,
        ) && step == decision(local, oidc);
    let got = choose|got: Result<ClaimsView, Seq<char>>| #[trigger]
        v.reads(token, got) && oidc == Some(v.step(token, now, got));
    assert(!(local matches Some(Ok(_))));
    assert(v.reads(token, got));
}

/// What becomes of a token once keys were fetched is what the issuer's validator can say of it
/// under them. Without an issuer nobody takes it.
pub proof fn law_resumed_tokens_are_for_the_issuer(
    service: ServiceView,
    token: Seq<char>,
    kid: Seq<char>,
    result: Result<Seq<char>, ErrorView>,
)
    requires
        service.can_resume(token, kid, result),
    ensures
        match service.oidc {
            None => result == Err::<Seq<char>, ErrorView>(
                ErrorView::Unauthorized("no auth backend accepted the token"@),
            ),
            Some(v) => exists|got: Result<ClaimsView, Seq<char>>| #[trigger]
                v.resumes(token, kid, got) && match v.step_after_refresh(kid, got) {
                    Ok(job) => result == Ok::<Seq<char>, ErrorView>(
                        match job.repository {
                            Some(repository) => repository,
                            None => "unknown"@,
                        },
                    ),
                    Err(e) => result == Err::<Seq<char>, ErrorView>(e),
                },
        },
{
}

/// What the validators say, and what becomes of a token, is what it holds.
pub proof fn law_decisions_are_what_they_hold(
    info: AuthInfo,
    error: Error,
    kid: String,
    step: TokenStep,
    v: AuthValidator,
)
    ensures
        AuthStep::Accepted(info)@ == AuthStepView::Accepted(info.client_identity@),
        AuthStep::Rejected(error)@ == AuthStepView::Rejected(error@),
        (AuthStep::NeedsKeys { kid })@ == AuthStepView::NeedsKeys(kid@),
        opt_info(Some(Ok(info))) == Some(Ok::<Seq<char>, ErrorView>(info.client_identity@)),
        opt_info(Some(Err(error))) == Some(Err::<Seq<char>, ErrorView>(error@)),
        opt_info(None) is None,
        opt_step(Some(step)) == Some(step@),
        opt_step(None) is None,
        opt_validator(Some(v)) == Some(v@),
        opt_validator(None) is None,
        not_accepted() == ErrorView::Unauthorized("no auth backend accepted the token"@),
{
}

/// A service with both validators asks each of them, and one that refuses does not keep the
/// other from taking a token: the local validator decides if it takes the token, and else the
/// issuer's does.
pub proof fn law_both_validators_are_asked(
    service: ServiceView,
    token: Seq<char>,
    now: u64,
    step: AuthStepView,
    pem: Seq<char>,
    v: ValidatorView,
)
    requires
        service.can_step(token, now, step),
        service.local == Some(pem),
        service.oidc == Some(v),
    ensures
        exists|ours: Result<ClaimsView, Seq<char>>, theirs: Result<ClaimsView, Seq<char>>|
            #[trigger] crate::local::local_reads(pem, token, ours) && #[trigger] v.reads(
                token,
                theirs,
            ) && match (crate::local::local_accepted(ours), v.step(token, now, theirs)) {
                (Ok(identity), _) => step == AuthStepView::Accepted(identity),
                (Err(_), TokenStepView::Accepted(job)) => step == AuthStepView::Accepted(
                    match job.repository {
                        Some(repository) => repository,
                        None => "unknown"@,
                    },
                ),
                (Err(_), TokenStepView::Rejected(e)) => step == AuthStepView::Rejected(e),
                (Err(_), TokenStepView::NeedsKeys(kid)) => step == AuthStepView::NeedsKeys(kid),
            },
{
    let (local, oidc) = choose|
        local: Option<Result<Seq<char>, ErrorView>>,
        oidc: Option<TokenStepView>,
    |
        #[trigger] service.local_says(token, local) && #[trigger] service.oidc_says(
            token,
            now,
            oidc,
        ) && step == decision(local, oidc);
    let ours = choose|got: Result<ClaimsView, Seq<char>>| #[trigger]
        crate::local::local_reads(pem, token, got) && local == Some(
            crate::local::local_accepted(got),
        );
    let theirs = choose|got: Result<ClaimsView, Seq<char>>| #[trigger]
        v.reads(token, got) && oidc == Some(v.step(token, now, got));
    assert(crate::local::local_reads(pem, token, ours) && v.reads(token, theirs));
}

/// A service with the local validator alone takes a token for whom that validator does, and
/// otherwise says that nobody takes it.
pub proof fn law_local_validator_decides_alone(
    service: ServiceView,
    token: Seq<char>,
    now: u64,
    step: AuthStepView,
    pem: Seq<char>,
)
    requires
        service.can_step(token, now, step),
        service.local == Some(pem),
        service.oidc is None,
    ensures
        exists|ours: Result<ClaimsView, Seq<char>>| #[trigger]
            crate::local::local_reads(pem, token, ours) && match crate::local::local_accepted(
                ours,
            ) {
                Ok(identity) => step == AuthStepView::Accepted(identity),
                Err(_) => step == AuthStepView::Rejected(
                    ErrorView::Unauthorized("no auth backend accepted the token"@),
                ),
            },
{
    let (local, oidc) = choose|
        local: Option<Result<Seq<char>, ErrorView>>,
        oidc: Option<TokenStepView>,
    |
        #[trigger] service.local_says(token, local) && #[trigger] service.oidc_says(
            token,
            now,
            oidc,
        ) && step == decision(local, oidc);
    let ours = choose|got: Result<ClaimsView, Seq<char>>| #[trigger]
        crate::local::local_reads(pem, token, got) && local == Some(
            crate::local::local_accepted(got),
        );
    assert(crate::local::local_reads(pem, token, ours));
}

} // verus!
