//! JSON Web Tokens: the claims that a token carries, and the calls into `jsonwebtoken` that
//! read and write tokens.
//!
//! Keys are kept as the texts that they come in (the two components of an RSA key, the PEM
//! of an Ed25519 key): each call builds the key that `jsonwebtoken` works with anew.

use ed25519_dalek::pkcs8::spki::der::pem::LineEnding;
use ed25519_dalek::pkcs8::{EncodePrivateKey, EncodePublicKey};
use ed25519_dalek::SigningKey;
use jsonwebtoken::{decode, Algorithm, DecodingKey, EncodingKey, Header, Validation};
use serde_json::Value;
use serde_json::Value::{Array, Bool, Null, Number, Object, String as Str};
use vstd::prelude::*;

use crate::jwt::ClaimValue::{List, Table, Text};
use crate::text::same_text;

verus! {

/// The claims of a token as `serde_json` reads them.
type JsonClaims = serde_json::Map<String, Value>;

/// The value of one claim.
#[derive(Debug)]
pub enum ClaimValue {
    Null,
    Bool(bool),
    /// A number, with its value if it is a `u64`.
    Number(Option<u64>),
    Text(String),
    /// A list, with the text of each member that is a text.
    List(Vec<Option<String>>),
    Table,
}

/// The mathematical value of a [`ClaimValue`].
pub enum ClaimView {
    Null,
    Bool(bool),
    Number(Option<u64>),
    Text(Seq<char>),
    List(Seq<Option<Seq<char>>>),
    Table,
}

/// The claims of a token, by name.
pub type ClaimsView = Map<Seq<char>, ClaimView>;

/// The text in `text`, if there is one.
pub open spec fn opt_text(text: Option<String>) -> Option<Seq<char>> {
    match text {
        Some(t) => Some(t@),
        None => None,
    }
}

/// The texts of a result.
pub open spec fn text_result(r: Result<String, String>) -> Result<Seq<char>, Seq<char>> {
    match r {
        Ok(t) => Ok(t@),
        Err(e) => Err(e@),
    }
}

/// The text of the error in a result.
pub open spec fn unit_result(r: Result<(), String>) -> Result<(), Seq<char>> {
    match r {
        Ok(_) => Ok(()),
        Err(e) => Err(e@),
    }
}

impl View for ClaimValue {
    type V = ClaimView;

    open spec fn view(&self) -> ClaimView {
        match self {
            ClaimValue::Null => ClaimView::Null,
            ClaimValue::Bool(b) => ClaimView::Bool(*b),
            ClaimValue::Number(n) => ClaimView::Number(*n),
            ClaimValue::Text(t) => ClaimView::Text(t@),
            ClaimValue::List(items) => ClaimView::List(
                items@.map_values(|item: Option<String>| opt_text(item)),
            ),
            ClaimValue::Table => ClaimView::Table,
        }
    }
}

/// The claims that a list of names and values sets. The last value of a name counts.
pub open spec fn claims_of(entries: Seq<(String, ClaimValue)>) -> ClaimsView
    decreases entries.len(),
{
    if entries.len() == 0 {
        Map::empty()
    } else {
        claims_of(entries.drop_last()).insert(entries.last().0@, entries.last().1@)
    }
}

/// What a reading of a token came to: its claims, or why it was refused.
pub open spec fn decoded_view(r: Result<Vec<(String, ClaimValue)>, String>) -> Result<
    ClaimsView,
    Seq<char>,
> {
    match r {
        Ok(entries) => Ok(claims_of(entries@)),
        Err(e) => Err(e@),
    }
}

/// The value of the claim `name` among `entries`.
pub fn find_claim<'a>(entries: &'a Vec<(String, ClaimValue)>, name: &str) -> (r: Option<
    &'a ClaimValue,
>)
    ensures
        match r {
            Some(value) => claims_of(entries@).contains_key(name@) && claims_of(entries@)[name@]
                == value@,
            None => !claims_of(entries@).contains_key(name@),
        },
{
    let mut i: usize = entries.len();
    assert(entries@.take(i as int) == entries@);
    while 0 < i
        invariant
            i <= entries@.len(),
            claims_of(entries@.take(i as int)).contains_key(name@) <==> claims_of(
                entries@,
            ).contains_key(name@),
            claims_of(entries@.take(i as int)).contains_key(name@) ==> claims_of(
                entries@.take(i as int),
            )[name@] == claims_of(entries@)[name@],
        decreases i,
    {
        assert(entries@.take(i as int).drop_last() == entries@.take(i - 1));
        i = i - 1;
        if same_text(entries[i].0.as_str(), name) {
            return Some(&entries[i].1);
        }
    }
    None
}

/// Whether the claim `name` lets `wanted` pass in the decoder: a text must be `wanted`, and a
/// list of texts must hold it. The decoder does not look at a claim that is absent, or that is
/// neither: [`claim_names`] is what the validators ask for beyond this.
pub open spec fn claim_admits(claims: ClaimsView, name: Seq<char>, wanted: Seq<char>) -> bool {
    claims.contains_key(name) ==> match claims[name] {
        ClaimView::Text(t) => t == wanted,
        ClaimView::List(items) => all_texts(items) ==> items.contains(Some(wanted)),
        _ => true,
    }
}

/// Whether every member of a list is a text.
pub open spec fn all_texts(items: Seq<Option<Seq<char>>>) -> bool {
    forall|i: int| 0 <= i < items.len() ==> (#[trigger] items[i]) is Some
}

/// Whether a claim names `wanted`: it is that text, or a list of texts that holds it.
pub open spec fn names(claim: ClaimView, wanted: Seq<char>) -> bool {
    match claim {
        ClaimView::Text(t) => t == wanted,
        ClaimView::List(items) => all_texts(items) && items.contains(Some(wanted)),
        _ => false,
    }
}

/// Whether the claim `name` is there and names `wanted`.
pub open spec fn claim_names(claims: ClaimsView, name: Seq<char>, wanted: Seq<char>) -> bool {
    claims.contains_key(name) && names(claims[name], wanted)
}

/// Whether the claim `name` is among `entries` and names `wanted`.
pub(crate) fn check_claim(entries: &Vec<(String, ClaimValue)>, name: &str, wanted: &str) -> (r:
    bool)
    ensures
        r == claim_names(claims_of(entries@), name@, wanted@),
{
    match find_claim(entries, name) {
        Some(ClaimValue::Text(t)) => same_text(t.as_str(), wanted),
        Some(ClaimValue::List(items)) => list_names(items, wanted),
        _ => false,
    }
}

fn list_names(items: &Vec<Option<String>>, wanted: &str) -> (r: bool)
    ensures
        r == names(ClaimValue::List(*items)@, wanted@),
{
    let ghost view = items@.map_values(|item: Option<String>| opt_text(item));
    let mut found = false;
    let mut i: usize = 0;
    while i < items.len()
        invariant
            i <= items@.len(),
            view == items@.map_values(|item: Option<String>| opt_text(item)),
            forall|j: int| 0 <= j < i ==> (#[trigger] view[j]) is Some,
            found == exists|j: int| 0 <= j < i && #[trigger] view[j] == Some(wanted@),
        decreases items@.len() - i,
    {
        assert(view[i as int] == opt_text(items@[i as int]));
        match &items[i] {
            None => {
                assert(!all_texts(view));
                return false;
            },
            Some(text) => {
                if same_text(text.as_str(), wanted) {
                    found = true;
                }
            },
        }
        i = i + 1;
    }
    assert(view.contains(Some(wanted@)) == found);
    found
}

/// What the decoder says of `claims` when it is asked for `issuer` and, if there is one, for
/// `audience`, while the token has not expired.
pub open spec fn unexpired_verdict(
    claims: ClaimsView,
    issuer: Seq<char>,
    audience: Option<Seq<char>>,
) -> Result<ClaimsView, Seq<char>> {
    if !claim_admits(claims, "iss"@, issuer) {
        Err("InvalidIssuer"@)
    } else if audience is Some && !claim_admits(claims, "aud"@, audience->0) {
        Err("InvalidAudience"@)
    } else {
        Ok(claims)
    }
}

/// Whether `got` can come of verifying a token against `issuer` and `audience`, where `read`
/// is what the token holds under the verifier's key.
///
/// The time decides one thing alone: whether the token has expired. A token that expires at
/// the end of time, up to the leeway of a minute, never has.
pub open spec fn decode_allows(
    read: Result<ClaimsView, Seq<char>>,
    issuer: Seq<char>,
    audience: Option<Seq<char>>,
    got: Result<ClaimsView, Seq<char>>,
) -> bool {
    match read {
        Err(e) => got == Err::<ClaimsView, Seq<char>>(e),
        Ok(claims) => {
            let no_expiry = Err::<ClaimsView, Seq<char>>("Missing required claim: exp"@);
            let expired = Err::<ClaimsView, Seq<char>>("ExpiredSignature"@);
            let verdict = unexpired_verdict(claims, issuer, audience);
            if !claims.contains_key("exp"@) {
                got == no_expiry
            } else {
                match claims["exp"@] {
                    ClaimView::Number(Some(exp)) => got == verdict || (got == expired && exp
                        < u64::MAX - 60),
                    ClaimView::Number(None) => got == verdict || got == expired || got
                        == no_expiry,
                    _ => got == no_expiry,
                }
            }
        },
    }
}

/// The key identifier in the header of `token`, or what is wrong with the header.
pub uninterp spec fn token_kid(token: Seq<char>) -> Result<Option<Seq<char>>, Seq<char>>;

/// The claims of a token whose RS256 signature the RSA key with modulus `n` and exponent `e`
/// verifies, or why there are none.
pub uninterp spec fn rs256_claims(
    token: Seq<char>,
    n: Seq<char>,
    e: Seq<char>,
) -> Result<Map<Seq<char>, ClaimView>, Seq<char>>;

/// The claims of a token whose EdDSA signature the Ed25519 public key in `pem` verifies, or
/// why there are none.
pub uninterp spec fn eddsa_claims(token: Seq<char>, pem: Seq<char>) -> Result<
    Map<Seq<char>, ClaimView>,
    Seq<char>,
>;

/// What is wrong with `pem` as the PEM of an Ed25519 public key, if anything.
pub uninterp spec fn ed_public_key(pem: Seq<char>) -> Result<(), Seq<char>>;

/// What is wrong with `pem` as the PEM of an Ed25519 private key, if anything.
pub uninterp spec fn ed_private_key(pem: Seq<char>) -> Result<(), Seq<char>>;

/// The token that the Ed25519 private key in `pem` signs over these claims, or why it signs
/// none.
pub uninterp spec fn eddsa_token(
    pem: Seq<char>,
    iss: Seq<char>,
    sub: Seq<char>,
    iat: u64,
    exp: u64,
) -> Result<Seq<char>, Seq<char>>;

/// The PEM of the Ed25519 private key with the secret `seed`.
pub uninterp spec fn private_key_pem(seed: Seq<u8>) -> Result<Seq<char>, Seq<char>>;

/// The PEM of the Ed25519 public key that belongs to the secret `seed`.
pub uninterp spec fn public_key_pem(seed: Seq<u8>) -> Result<Seq<char>, Seq<char>>;

/// Reads the key identifier in the header of `token`.
///
/// Calls `jsonwebtoken::decode_header`, and takes the `kid` of the header or the text of the
/// error. Trusted: that both are a function of the token alone.
#[verifier::external_body]
pub(crate) fn read_kid(token: &str) -> (r: Result<Option<String>, String>)
    ensures
        match r {
            Ok(kid) => token_kid(token@) == Ok::<Option<Seq<char>>, Seq<char>>(opt_text(kid)),
            Err(e) => token_kid(token@) == Err::<Option<Seq<char>>, Seq<char>>(e@),
        },
{
    jsonwebtoken::decode_header(token).map(|header| header.kid).map_err(|e| e.to_string())
}

/// Verifies `token` against an RSA key, an issuer and an audience, and hands out its claims.
///
/// Calls `jsonwebtoken::decode` with the key of `DecodingKey::from_rsa_components` and with
/// `Validation::new` for RS256, where `set_issuer` and `set_audience` name one text each.
/// Trusted: that the claims are a function of the token and the key; that a token without a
/// numeric `exp` is refused; that beyond that a token is refused as expired or by its `iss`
/// and `aud`, and else accepted; and the texts of these refusals. The clock of the system is
/// read once, and what it says is left open, but that it stands later than the first minute of
/// 1970. Of a claim that stands in a token twice, the last value is handed out.
#[verifier::external_body]
pub(crate) fn decode_rs256(token: &str, n: &str, e: &str, issuer: &str, audience: &str) -> (r:
    Result<Vec<(String, ClaimValue)>, String>)
    ensures
        decode_allows(rs256_claims(token@, n@, e@), issuer@, Some(audience@), decoded_view(r)),
{
    let mut validation = Validation::new(Algorithm::RS256);
    validation.set_issuer(&[issuer]);
    validation.set_audience(&[audience]);
    DecodingKey::from_rsa_components(n, e)
        .and_then(|key| decode::<JsonClaims>(token, &key, &validation))
        .map(|data| data.claims.into_iter().map(|(name, value)| (name, match value {
            Null => ClaimValue::Null,
            Bool(b) => ClaimValue::Bool(b),
            Number(n) => ClaimValue::Number(n.as_u64()),
            Str(s) => Text(s),
            Array(a) => List(a.iter().map(|v| v.as_str().map(String::from)).collect()),
            Object(_) => Table,
        })).collect())
        .map_err(|e| e.to_string())
}

/// Verifies `token` against an Ed25519 public key and an issuer, and hands out its claims.
///
/// Calls `jsonwebtoken::decode` with the key of `DecodingKey::from_ed_pem` and with
/// `Validation::new` for EdDSA, where `set_issuer` names one text and `validate_aud` is off.
/// Trusted: the same as of [`decode_rs256`], without an audience.
#[verifier::external_body]
pub(crate) fn decode_eddsa(token: &str, pem: &str, issuer: &str) -> (r: Result<
    Vec<(String, ClaimValue)>,
    String,
>)
    ensures
        decode_allows(eddsa_claims(token@, pem@), issuer@, None, decoded_view(r)),
{
    let mut validation = Validation::new(Algorithm::EdDSA);
    validation.set_issuer(&[issuer]);
    validation.validate_aud = false;
    DecodingKey::from_ed_pem(pem.as_bytes())
        .and_then(|key| decode::<JsonClaims>(token, &key, &validation))
        .map(|data| data.claims.into_iter().map(|(name, value)| (name, match value {
            Null => ClaimValue::Null,
            Bool(b) => ClaimValue::Bool(b),
            Number(n) => ClaimValue::Number(n.as_u64()),
            Str(s) => Text(s),
            Array(a) => List(a.iter().map(|v| v.as_str().map(String::from)).collect()),
            Object(_) => Table,
        })).collect())
        .map_err(|e| e.to_string())
}

/// The six bits that the character `c` stands for in URL-safe Base64.
pub open spec fn base64_digit(c: char) -> Option<int> {
    if 'A' <= c <= 'Z' {
        Some(c as int - 'A' as int)
    } else if 'a' <= c <= 'z' {
        Some(c as int - 'a' as int + 26)
    } else if '0' <= c <= '9' {
        Some(c as int - '0' as int + 52)
    } else if c == '-' {
        Some(62)
    } else if c == '_' {
        Some(63)
    } else {
        None
    }
}

/// Whether `s` is URL-safe Base64 without padding: it stands for whole bytes, and the bits of
/// its last character that belong to none are zero.
pub open spec fn is_base64(s: Seq<char>) -> bool {
    &&& forall|i: int| 0 <= i < s.len() ==> base64_digit(#[trigger] s[i]) is Some
    &&& s.len() % 4 != 1
    &&& s.len() % 4 == 2 ==> base64_digit(s.last())->0 % 16 == 0
    &&& s.len() % 4 == 3 ==> base64_digit(s.last())->0 % 4 == 0
}

/// Whether `n` and `e` can be read as the components of an RSA key.
pub open spec fn rsa_components_readable(n: Seq<char>, e: Seq<char>) -> bool {
    is_base64(n) && is_base64(e)
}

/// Whether `n` and `e` can be read as the components of an RSA key.
///
/// Calls `DecodingKey::from_rsa_components` and asks whether it gave a key. Trusted: that it
/// gives one exactly if both texts are URL-safe Base64 without padding.
#[verifier::external_body]
pub(crate) fn rsa_components_ok(n: &str, e: &str) -> (r: bool)
    ensures
        r == rsa_components_readable(n@, e@),
{
    DecodingKey::from_rsa_components(n, e).is_ok()
}

/// Whether `pem` holds an Ed25519 public key.
///
/// Calls `DecodingKey::from_ed_pem` and takes the text of its error. Trusted: that this is a
/// function of the PEM.
#[verifier::external_body]
pub(crate) fn check_ed_public_key(pem: &str) -> (r: Result<(), String>)
    ensures
        unit_result(r) == ed_public_key(pem@),
{
    DecodingKey::from_ed_pem(pem.as_bytes()).map(|_| ()).map_err(|e| e.to_string())
}

/// Whether `pem` holds an Ed25519 private key.
///
/// Calls `EncodingKey::from_ed_pem` and takes the text of its error. Trusted: that this is a
/// function of the PEM.
#[verifier::external_body]
pub(crate) fn check_ed_private_key(pem: &str) -> (r: Result<(), String>)
    ensures
        unit_result(r) == ed_private_key(pem@),
{
    EncodingKey::from_ed_pem(pem.as_bytes()).map(|_| ()).map_err(|e| e.to_string())
}

/// The claims of a token that names its issuer, its bearer, and when it was made and expires.
pub open spec fn issued_claims(
    iss: Seq<char>,
    sub: Seq<char>,
    iat: u64,
    exp: u64,
) -> ClaimsView {
    Map::empty().insert("iss"@, ClaimView::Text(iss)).insert("sub"@, ClaimView::Text(sub)).insert(
        "iat"@,
        ClaimView::Number(Some(iat)),
    ).insert("exp"@, ClaimView::Number(Some(exp)))
}

/// Whether `token` carries `claims`, under the signature of the private key in `pem`: nobody
/// reads other claims from it, and the public key of the same secret verifies it.
pub open spec fn token_carries(token: Seq<char>, pem: Seq<char>, claims: ClaimsView) -> bool {
    &&& forall|public: Seq<char>|
        (#[trigger] eddsa_claims(token, public)) matches Ok(read) ==> read == claims
    &&& forall|seed: Seq<u8>, public: Seq<char>|
        #![trigger public_key_pem(seed), eddsa_claims(token, public)]
        private_key_pem(seed) == Ok::<Seq<char>, Seq<char>>(pem) && public_key_pem(seed) == Ok::<
            Seq<char>,
            Seq<char>,
        >(public) ==> eddsa_claims(token, public) == Ok::<ClaimsView, Seq<char>>(claims)
}

/// Signs a token with the Ed25519 private key in `pem`.
///
/// Calls `jsonwebtoken::encode` with the key of `EncodingKey::from_ed_pem` and with the header
/// of `Header::new` for EdDSA, over a JSON object of the four claims in this order. Trusted:
/// that the token is a function of the key and the claims, that reading it gives back these
/// claims and no others, and that the public key of the same secret verifies it.
#[verifier::external_body]
pub(crate) fn sign_eddsa(pem: &str, iss: &str, sub: &str, iat: u64, exp: u64) -> (r: Result<
    String,
    String,
>)
    ensures
        text_result(r) == eddsa_token(pem@, iss@, sub@, iat, exp),
        r matches Ok(token) ==> token_carries(
            token@,
            pem@,
            issued_claims(iss@, sub@, iat, exp),
        ),
{
    let key = EncodingKey::from_ed_pem(pem.as_bytes()).map_err(|e| e.to_string())?;
    let mut claims = serde_json::Map::new();
    claims.insert("iss".to_string(), Value::from(iss));
    claims.insert("sub".to_string(), Value::from(sub));
    claims.insert("iat".to_string(), Value::from(iat));
    claims.insert("exp".to_string(), Value::from(exp));
    let header = Header::new(Algorithm::EdDSA);
    jsonwebtoken::encode(&header, &claims, &key).map_err(|e| e.to_string())
}

/// Draws the secret of a new Ed25519 key.
///
/// Calls `SigningKey::generate` with the random source of the operating system, which is taken
/// to be there. Nothing is claimed of the bytes.
#[verifier::external_body]
pub(crate) fn draw_seed() -> (r: [u8; 32]) {
    SigningKey::generate(&mut rand::rngs::OsRng).to_bytes()
}

/// Writes the Ed25519 private key with the secret `seed` as PEM.
///
/// Calls `SigningKey::to_pkcs8_pem`. Trusted: that the text is a function of the secret, and
/// that it holds an Ed25519 private key.
#[verifier::external_body]
pub(crate) fn write_private_key(seed: &[u8; 32]) -> (r: Result<String, String>)
    ensures
        text_result(r) == private_key_pem(seed@),
        r matches Ok(pem) ==> ed_private_key(pem@) is Ok,
{
    let key = SigningKey::from_bytes(seed);
    key.to_pkcs8_pem(LineEnding::LF).map(|pem| pem.to_string()).map_err(|e| e.to_string())
}

/// Writes the Ed25519 public key that belongs to the secret `seed` as PEM.
///
/// Calls `VerifyingKey::to_public_key_pem` on `SigningKey::verifying_key`. Trusted: that the
/// text is a function of the secret, and that it holds an Ed25519 public key.
#[verifier::external_body]
pub(crate) fn write_public_key(seed: &[u8; 32]) -> (r: Result<String, String>)
    ensures
        text_result(r) == public_key_pem(seed@),
        r matches Ok(pem) ==> ed_public_key(pem@) is Ok,
{
    let key = SigningKey::from_bytes(seed).verifying_key();
    key.to_public_key_pem(LineEnding::LF).map_err(|e| e.to_string())
}

/// A claim is there if an entry sets it, and the last entry that does so counts.
pub proof fn law_last_claim_counts(entries: Seq<(String, ClaimValue)>, i: int)
    requires
        0 <= i < entries.len(),
        forall|j: int| i < j < entries.len() ==> (#[trigger] entries[j]).0@ != entries[i].0@,
    ensures
        claims_of(entries).contains_key(entries[i].0@),
        claims_of(entries)[entries[i].0@] == entries[i].1@,
    decreases entries.len(),
{
    if i < entries.len() - 1 {
        let rest = entries.drop_last();
        assert(rest[i] == entries[i]);
        assert(entries[entries.len() - 1].0@ != entries[i].0@);
        law_last_claim_counts(rest, i);
    }
}

/// A claim that no entry sets is not there.
pub proof fn law_claims_without_an_entry_are_absent(
    entries: Seq<(String, ClaimValue)>,
    name: Seq<char>,
)
    requires
        forall|i: int| 0 <= i < entries.len() ==> (#[trigger] entries[i]).0@ != name,
    ensures
        !claims_of(entries).contains_key(name),
    decreases entries.len(),
{
    if entries.len() > 0 {
        assert(entries[entries.len() - 1].0@ != name);
        assert forall|i: int| 0 <= i < entries.drop_last().len() implies (
        #[trigger] entries.drop_last()[i]).0@ != name by {
            assert(entries.drop_last()[i] == entries[i]);
        }
        law_claims_without_an_entry_are_absent(entries.drop_last(), name);
    }
}

/// The value of a claim is what it holds.
pub proof fn law_claims_are_what_they_hold(
    text: String,
    b: bool,
    n: Option<u64>,
    items: Vec<Option<String>>,
)
    ensures
        ClaimValue::Null@ == ClaimView::Null,
        ClaimValue::Bool(b)@ == ClaimView::Bool(b),
        ClaimValue::Number(n)@ == ClaimView::Number(n),
        ClaimValue::Text(text)@ == ClaimView::Text(text@),
        ClaimValue::Table@ == ClaimView::Table,
        ClaimValue::List(items)@ matches ClaimView::List(view) && view.len() == items@.len()
            && forall|i: int|
            0 <= i < items@.len() ==> match items@[i] {
                Some(item) => #[trigger] view[i] == Some(item@),
                None => view[i] is None,
            },
{
}

/// Only a text names another: itself. A list names its members if they are all texts. No other
/// claim names anything.
pub proof fn law_texts_and_lists_name_texts(
    text: Seq<char>,
    items: Seq<Option<Seq<char>>>,
    b: bool,
    n: Option<u64>,
    wanted: Seq<char>,
)
    ensures
        names(ClaimView::Text(text), wanted) <==> text == wanted,
        names(ClaimView::List(items), wanted) <==> {
            &&& forall|i: int| 0 <= i < items.len() ==> (#[trigger] items[i]) is Some
            &&& exists|i: int| 0 <= i < items.len() && #[trigger] items[i] == Some(wanted)
        },
        !names(ClaimView::Null, wanted),
        !names(ClaimView::Bool(b), wanted),
        !names(ClaimView::Number(n), wanted),
        !names(ClaimView::Table, wanted),
{
    if exists|i: int| 0 <= i < items.len() && #[trigger] items[i] == Some(wanted) {
        assert(items.contains(Some(wanted)));
    }
}

/// An absent claim names nothing, and one that is there what its value names.
pub proof fn law_absent_claims_name_nothing(
    claims: ClaimsView,
    name: Seq<char>,
    wanted: Seq<char>,
)
    ensures
        claim_names(claims, name, wanted) <==> claims.contains_key(name) && names(
            claims[name],
            wanted,
        ),
{
}

/// A token that is issued says who issued it, whose it is, when it was made and when it
/// expires, and nothing else.
pub proof fn law_issued_tokens_make_four_claims(
    iss: Seq<char>,
    sub: Seq<char>,
    iat: u64,
    exp: u64,
    name: Seq<char>,
)
    ensures
        ({
            let claims = issued_claims(iss, sub, iat, exp);
            &&& claims.contains_key("iss"@) && claims["iss"@] == ClaimView::Text(iss)
            &&& claims.contains_key("sub"@) && claims["sub"@] == ClaimView::Text(sub)
            &&& claims.contains_key("iat"@) && claims["iat"@] == ClaimView::Number(Some(iat))
            &&& claims.contains_key("exp"@) && claims["exp"@] == ClaimView::Number(Some(exp))
            &&& claims.contains_key(name) ==> name == "iss"@ || name == "sub"@ || name == "iat"@
                || name == "exp"@
        }),
{
    reveal_strlit("iss");
    reveal_strlit("sub");
    reveal_strlit("iat");
    reveal_strlit("exp");
    assert("iss"@[0] != "sub"@[0]);
    assert("iss"@[1] != "iat"@[1]);
    assert("iss"@[0] != "exp"@[0]);
    assert("sub"@[0] != "iat"@[0]);
    assert("sub"@[0] != "exp"@[0]);
    assert("iat"@[0] != "exp"@[0]);
}

/// What a reading came to is its claims or its error, and nothing else.
pub proof fn law_readings_are_what_they_came_to(
    entries: Vec<(String, ClaimValue)>,
    text: String,
    e: String,
)
    ensures
        decoded_view(Ok(entries)) == Ok::<ClaimsView, Seq<char>>(claims_of(entries@)),
        decoded_view(Err(e)) == Err::<ClaimsView, Seq<char>>(e@),
        opt_text(Some(text)) == Some(text@),
        opt_text(None) is None,
        text_result(Ok(text)) == Ok::<Seq<char>, Seq<char>>(text@),
        text_result(Err(e)) == Err::<Seq<char>, Seq<char>>(e@),
{
}

} // verus!
