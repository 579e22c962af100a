//! Tokens signed with a local Ed25519 key.

use vstd::prelude::*;

use crate::auth::{read_text_claim, AuthInfo};
use crate::error::{Error, ErrorView};
use crate::jwt::{
    check_claim, check_ed_public_key, decode_eddsa, ClaimValue, ClaimView, ClaimsView,
};
use crate::text::joined;

verus! {

/// The issuer that local tokens name.
pub open spec fn local_issuer() -> Seq<char> {
    "nix-relay"@
}

/// What the validator of local tokens makes of a verified token that names the relay as its
/// issuer: the identity is its subject, or `local` if it has none.
pub open spec fn local_accepted(decoded: Result<ClaimsView, Seq<char>>) -> Result<
    Seq<char>,
    ErrorView,
> {
    match decoded {
        Err(e) => Err(ErrorView::JwtValidation(e)),
        Ok(claims) => match crate::auth::text_claim(claims, "sub"@) {
            Err(e) => Err(ErrorView::JwtValidation(e)),
            Ok(sub) => if !crate::jwt::claim_names(claims, "iss"@, local_issuer()) {
                Err(ErrorView::JwtValidation("InvalidIssuer"@))
            } else {
                match sub {
                    Some(sub) => Ok(sub),
                    None => Ok("local"@),
                }
            },
        },
    }
}

/// Checks tokens signed with a local Ed25519 key.
pub struct LocalValidator {
    public_key_pem: String,
}

impl View for LocalValidator {
    type V = Seq<char>;

    /// The PEM of the public key.
    closed spec fn view(&self) -> Seq<char> {
        self.public_key_pem@
    }
}

/// Whether verifying `token` with the public key in `pem` can come to `got`.
pub open spec fn local_reads(
    pem: Seq<char>,
    token: Seq<char>,
    got: Result<ClaimsView, Seq<char>>,
) -> bool {
    crate::jwt::decode_allows(crate::jwt::eddsa_claims(token, pem), local_issuer(), None, got)
}

impl LocalValidator {
    /// A validator for the key in `public_key_pem`.
    pub fn new(public_key_pem: &str) -> (r: Result<Self, Error>)
        ensures
            match crate::jwt::ed_public_key(public_key_pem@) {
                Ok(_) => r matches Ok(validator) && validator@ == public_key_pem@,
                Err(e) => r matches Err(err) && err@ == ErrorView::Config(
                    "invalid Ed25519 public key: "@ + e,
                ),
            },
    {
        Self::with_checked_key(public_key_pem, check_ed_public_key(public_key_pem))
    }

    /// A validator for the key in `public_key_pem`, where checking it came to `checked`.
    pub fn with_checked_key(public_key_pem: &str, checked: Result<(), String>) -> (r: Result<
        Self,
        Error,
    >)
        ensures
            match checked {
                Ok(_) => r matches Ok(validator) && validator@ == public_key_pem@,
                Err(e) => r matches Err(err) && err@ == ErrorView::Config(
                    "invalid Ed25519 public key: "@ + e@,
                ),
            },
    {
        match checked {
            Ok(_) => Ok(LocalValidator { public_key_pem: public_key_pem.to_string() }),
            Err(e) => Err(Error::Config(joined("invalid Ed25519 public key: ", e.as_str()))),
        }
    }

    /// Whose `token` it is, if it is taken.
    pub fn validate_token(&self, token: &str) -> (r: Result<AuthInfo, Error>)
        ensures
            exists|got: Result<ClaimsView, Seq<char>>| #[trigger]
                local_reads(self@, token@, got) && crate::auth::info_result(r) == local_accepted(
                    got,
                ),
    {
        let decoded = decode_eddsa(token, self.public_key_pem.as_str(), "nix-relay");
        assert(local_reads(self@, token@, crate::jwt::decoded_view(decoded)));
        local_identity(decoded)
    }
}

/// Whose token it is, where verifying it came to `decoded`.
pub fn local_identity(decoded: Result<Vec<(String, ClaimValue)>, String>) -> (r: Result<
    AuthInfo,
    Error,
>)
    ensures
        crate::auth::info_result(r) == local_accepted(crate::jwt::decoded_view(decoded)),
{
    let claims = match decoded {
        Ok(claims) => claims,
        Err(e) => return Err(Error::JwtValidation(e)),
    };
    let sub = match read_text_claim(&claims, "sub") {
        Ok(sub) => sub,
        Err(e) => return Err(Error::JwtValidation(e)),
    };
    if !check_claim(&claims, "iss", "nix-relay") {
        return Err(Error::JwtValidation("InvalidIssuer".to_string()));
    }
    match sub {
        Some(sub) => Ok(AuthInfo { client_identity: sub }),
        None => Ok(AuthInfo { client_identity: "local".to_string() }),
    }
}

/// Every local token that is taken is signed with the private key of the validator, names the
/// relay as its issuer, and says when it expires.
pub proof fn law_taken_local_tokens_are_verified(
    pem: Seq<char>,
    token: Seq<char>,
    got: Result<ClaimsView, Seq<char>>,
)
    requires
        local_reads(pem, token, got),
        local_accepted(got) is Ok,
    ensures
        crate::jwt::eddsa_claims(token, pem) == got,
        crate::jwt::claim_names(got->Ok_0, "iss"@, local_issuer()),
        got->Ok_0.contains_key("exp"@),
        got->Ok_0["exp"@] is Number,
{
}

/// A verified local token is taken for `identity` exactly if it names `nix-relay` as its issuer
/// and its subject is `identity`; without a subject its identity is `local`.
pub proof fn law_local_tokens_are_taken_by_their_claims(claims: ClaimsView, identity: Seq<char>)
    ensures
        local_accepted(Ok(claims)) == Ok::<Seq<char>, ErrorView>(identity) <==> {
            &&& claims.contains_key("iss"@) && crate::jwt::names(claims["iss"@], "nix-relay"@)
            &&& if claims.contains_key("sub"@) && !(claims["sub"@] is Null) {
                claims["sub"@] == ClaimView::Text(identity)
            } else {
                identity == "local"@
            }
        },
{
}

/// A local token that could not be verified, whose subject is no text, or that does not name
/// the relay, is refused for that reason.
pub proof fn law_local_refusals_say_why(e: Seq<char>, claims: ClaimsView)
    ensures
        local_accepted(Err(e)) == Err::<Seq<char>, ErrorView>(ErrorView::JwtValidation(e)),
        crate::auth::text_claim(claims, "sub"@) matches Err(wrong) ==> local_accepted(Ok(claims))
            == Err::<Seq<char>, ErrorView>(ErrorView::JwtValidation(wrong)),
        crate::auth::text_claim(claims, "sub"@) is Ok && !crate::jwt::claim_names(
            claims,
            "iss"@,
            "nix-relay"@,
        ) ==> local_accepted(Ok(claims)) == Err::<Seq<char>, ErrorView>(
            ErrorView::JwtValidation("InvalidIssuer"@),
        ),
{
}

/// A local token is verified with the public key of the validator, against the issuer
/// `nix-relay` and for any audience.
pub proof fn law_local_tokens_are_verified_with_the_local_key(
    pem: Seq<char>,
    token: Seq<char>,
    got: Result<ClaimsView, Seq<char>>,
)
    ensures
        local_reads(pem, token, got) <==> crate::jwt::decode_allows(
            crate::jwt::eddsa_claims(token, pem),
            "nix-relay"@,
            None,
            got,
        ),
{
}

/// A local token under the validator's key that names the relay is taken, unless it has
/// expired.
pub proof fn law_good_local_tokens_are_taken(
    pem: Seq<char>,
    token: Seq<char>,
    got: Result<ClaimsView, Seq<char>>,
    claims: ClaimsView,
    identity: Seq<char>,
    exp: u64,
)
    requires
        local_reads(pem, token, got),
        crate::jwt::eddsa_claims(token, pem) == Ok::<ClaimsView, Seq<char>>(claims),
        crate::jwt::claim_names(claims, "iss"@, "nix-relay"@),
        claims.contains_key("sub"@),
        claims["sub"@] == ClaimView::Text(identity),
        claims.contains_key("exp"@),
        claims["exp"@] == ClaimView::Number(Some(exp)),
    ensures
        ({
            ||| local_accepted(got) == Ok::<Seq<char>, ErrorView>(identity)
            ||| exp < u64::MAX - 60 && local_accepted(got) == Err::<Seq<char>, ErrorView>(
                ErrorView::JwtValidation("ExpiredSignature"@),
            )
        }),
{
}

} // verus!
