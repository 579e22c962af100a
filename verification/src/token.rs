//! Making keys and local tokens.

use vstd::prelude::*;

use crate::error::ErrorView;
use crate::jwt::{
    check_ed_private_key, draw_seed, sign_eddsa, write_private_key, write_public_key, ClaimsView,
};
use crate::text::{joined, parse_u64, trim, NumberError};

verus! {

/// How many seconds the unit `c` of a duration is.
pub open spec fn unit_seconds(c: char) -> Option<u64> {
    if c == 'd' {
        Some(86400)
    } else if c == 'h' {
        Some(3600)
    } else if c == 'm' {
        Some(60)
    } else if c == 's' {
        Some(1)
    } else {
        None
    }
}

/// The number and the unit in the duration `s`, which has no whitespace around it: a number
/// without a unit counts seconds.
pub open spec fn split_duration(s: Seq<char>) -> (Seq<char>, u64) {
    if s.len() > 0 && unit_seconds(s.last()) is Some {
        (s.drop_last(), unit_seconds(s.last())->0)
    } else {
        (s, 1)
    }
}

/// What is wrong with a text that is no number.
pub open spec fn number_error(e: NumberError) -> Seq<char> {
    match e {
        NumberError::Empty => "cannot parse integer from empty string"@,
        NumberError::InvalidDigit => "invalid digit found in string"@,
        NumberError::TooLarge => "number too large to fit in target type"@,
    }
}

/// How many seconds the duration `s` is, or what is wrong with it. One of more seconds than fit
/// is too large.
pub open spec fn duration(s: Seq<char>) -> Result<u64, Seq<char>> {
    let t = crate::text::trimmed(s);
    let (number, unit) = split_duration(t);
    if t.len() == 0 {
        Err("empty duration"@)
    } else {
        match crate::text::number(number) {
            Ok(n) => if n * unit <= u64::MAX {
                Ok((n * unit) as u64)
            } else {
                Err(wrong_duration(t, NumberError::TooLarge))
            },
            Err(e) => Err(wrong_duration(t, e)),
        }
    }
}

/// What is said of the duration `t`, in which the number is wrong.
pub open spec fn wrong_duration(t: Seq<char>, e: NumberError) -> Seq<char> {
    "invalid duration '"@ + t + "': "@ + number_error(e)
}

fn unit_of(c: char) -> (r: Option<u64>)
    ensures
        r == unit_seconds(c),
{
    if c == 'd' {
        Some(86400)
    } else if c == 'h' {
        Some(3600)
    } else if c == 'm' {
        Some(60)
    } else if c == 's' {
        Some(1)
    } else {
        None
    }
}

/// The seconds in a duration like `1h`, `30m`, `7d` or `3600s`.
pub fn parse_duration(s: &str) -> (r: Result<u64, String>)
    ensures
        match duration(s@) {
            Ok(secs) => r == Ok::<u64, String>(secs),
            Err(e) => r matches Err(err) && err@ == e,
        },
{
    let t = trim(s);
    let len: usize = t.unicode_len();
    if len == 0 {
        return Err("empty duration".to_string());
    }
    let (number, unit): (&str, u64) = match unit_of(t.get_char(len - 1)) {
        Some(unit) => (t.substring_char(0, len - 1), unit),
        None => (t, 1),
    };
    assert(t@.drop_last() == t@.subrange(0, len - 1));
    let e: NumberError = match parse_u64(number) {
        Ok(n) => match n.checked_mul(unit) {
            Some(secs) => return Ok(secs),
            None => NumberError::TooLarge,
        },
        Err(e) => e,
    };
    let reason: &str = match e {
        NumberError::Empty => "cannot parse integer from empty string",
        NumberError::InvalidDigit => "invalid digit found in string",
        NumberError::TooLarge => "number too large to fit in target type",
    };
    Err(joined("invalid duration '", t).concat("': ").concat(reason))
}

/// The claims of a local token for `label`, made at `now` for `secs` seconds.
pub open spec fn local_claims(label: Seq<char>, now: u64, secs: int) -> ClaimsView {
    crate::jwt::issued_claims(crate::local::local_issuer(), label, now, (now + secs) as u64)
}

/// The token that `issue_token` makes, or why it makes none.
pub open spec fn issued_token(
    private_pem: Seq<char>,
    exp: Seq<char>,
    label: Seq<char>,
    now: u64,
) -> Result<Seq<char>, Seq<char>> {
    match duration(exp) {
        Err(e) => Err(e),
        Ok(secs) => match crate::jwt::ed_private_key(private_pem) {
            Err(e) => Err("invalid Ed25519 private key: "@ + e),
            Ok(_) => if now + secs > u64::MAX {
                Err("expiration time too large"@)
            } else {
                match crate::jwt::eddsa_token(
                    private_pem,
                    crate::local::local_issuer(),
                    label,
                    now,
                    (now + secs) as u64,
                ) {
                    Err(e) => Err("failed to sign token: "@ + e),
                    Ok(token) => Ok(token),
                }
            },
        },
    }
}

/// Signs a local token for `label` that expires after the duration `exp` from `now`, in
/// seconds since 1970.
pub fn issue_token(private_pem: &str, exp: &str, label: &str, now: u64) -> (r: Result<
    String,
    String,
>)
    ensures
        crate::jwt::text_result(r) == issued_token(private_pem@, exp@, label@, now),
        r matches Ok(token) ==> duration(exp@) matches Ok(secs) && now + secs <= u64::MAX
            && crate::jwt::token_carries(
            token@,
            private_pem@,
            local_claims(label@, now, secs as int),
        ),
{
    let secs: u64 = match parse_duration(exp) {
        Ok(secs) => secs,
        Err(e) => return Err(e),
    };
    if let Err(e) = check_ed_private_key(private_pem) {
        return Err(joined("invalid Ed25519 private key: ", e.as_str()));
    }
    let expires: u64 = match now.checked_add(secs) {
        Some(expires) => expires,
        None => return Err("expiration time too large".to_string()),
    };
    match sign_eddsa(private_pem, "nix-relay", label, now, expires) {
        Ok(token) => Ok(token),
        Err(e) => Err(joined("failed to sign token: ", e.as_str())),
    }
}

/// A file to write.
#[derive(Debug)]
pub struct KeyFile {
    /// Its name, in the directory of the keys.
    pub name: String,
    /// What stands in it.
    pub contents: String,
    /// Whether its owner alone may read it.
    pub private: bool,
}

/// Whether `files` are the two files of the key pair with the PEMs `private` and `public`.
pub open spec fn is_key_pair(files: Seq<KeyFile>, private: Seq<char>, public: Seq<char>) -> bool {
    &&& files.len() == 2
    &&& files[0].name@ == "private.pem"@
    &&& files[0].contents@ == private
    &&& files[0].private
    &&& files[1].name@ == "public.pem"@
    &&& files[1].contents@ == public
    &&& !files[1].private
}

/// Whether making the files of the key pair with the secret `seed` can come to `r`.
pub open spec fn key_files_of(seed: Seq<u8>, r: Result<Vec<KeyFile>, String>) -> bool {
    match crate::jwt::private_key_pem(seed) {
        Err(e) => r matches Err(err) && err@ == "failed to encode private key: "@ + e,
        Ok(private) => match crate::jwt::public_key_pem(seed) {
            Err(e) => r matches Err(err) && err@ == "failed to encode public key: "@ + e,
            Ok(public) => r matches Ok(files) && is_key_pair(files@, private, public)
                && crate::jwt::ed_private_key(private) is Ok && crate::jwt::ed_public_key(
                public,
            ) is Ok,
        },
    }
}

/// The files of the key pair with the secret `seed`.
pub fn key_files(seed: &[u8; 32]) -> (r: Result<Vec<KeyFile>, String>)
    ensures
        key_files_of(seed@, r),
{
    let private_pem = write_private_key(seed);
    let public_pem = write_public_key(seed);
    name_key_files(private_pem, public_pem)
}

/// The files of a key pair, where writing its two keys came to `private_pem` and `public_pem`.
pub fn name_key_files(
    private_pem: Result<String, String>,
    public_pem: Result<String, String>,
) -> (r: Result<Vec<KeyFile>, String>)
    ensures
        match private_pem {
            Err(e) => r matches Err(err) && err@ == "failed to encode private key: "@ + e@,
            Ok(private) => match public_pem {
                Err(e) => r matches Err(err) && err@ == "failed to encode public key: "@ + e@,
                Ok(public) => r matches Ok(files) && is_key_pair(files@, private@, public@),
            },
        },
{
    let private = match private_pem {
        Ok(pem) => pem,
        Err(e) => return Err(joined("failed to encode private key: ", e.as_str())),
    };
    let public = match public_pem {
        Ok(pem) => pem,
        Err(e) => return Err(joined("failed to encode public key: ", e.as_str())),
    };
    let mut files: Vec<KeyFile> = Vec::new();
    files.push(KeyFile { name: "private.pem".to_string(), contents: private, private: true });
    files.push(KeyFile { name: "public.pem".to_string(), contents: public, private: false });
    Ok(files)
}

/// The files of a new key pair.
pub fn generate_key_files() -> (r: Result<Vec<KeyFile>, String>)
    ensures
        exists|seed: Seq<u8>| seed.len() == 32 && #[trigger] key_files_of(seed, r),
{
    let seed: [u8; 32] = draw_seed();
    let files = key_files(&seed);
    assert(key_files_of(seed@, files));
    files
}

/// The whitespace around a duration does not matter.
pub proof fn law_duration_ignores_whitespace_around(
    before: Seq<char>,
    s: Seq<char>,
    after: Seq<char>,
)
    requires
        crate::text::is_blank(before),
        crate::text::is_blank(after),
    ensures
        duration(before + s + after) == duration(s),
{
    crate::text::law_trimmed_ignores_whitespace_around(before, s, after);
}

/// A number without a unit or with `s` counts seconds; one with `m`, `h` or `d` counts 60, 3600
/// or 86400 of them each, and is refused where they do not fit.
pub proof fn law_numbers_count_their_unit(number: Seq<char>, n: u64)
    requires
        crate::text::number(number) == Ok::<u64, NumberError>(n),
    ensures
        duration(number) == Ok::<u64, Seq<char>>(n),
        duration(number.push('s')) == Ok::<u64, Seq<char>>(n),
        duration(number.push('m')) == seconds_or_too_large(number.push('m'), n * 60),
        duration(number.push('h')) == seconds_or_too_large(number.push('h'), n * 3600),
        duration(number.push('d')) == seconds_or_too_large(number.push('d'), n * 86400),
{
    lemma_number_with_unit(number, 's');
    lemma_number_with_unit(number, 'm');
    lemma_number_with_unit(number, 'h');
    lemma_number_with_unit(number, 'd');
    lemma_number_without_unit(number);
    assert(n * split_duration(number).1 == n) by (nonlinear_arith)
        requires
            split_duration(number).1 == 1u64,
    ;
}

/// `secs` seconds, if they fit.
pub open spec fn seconds_or_too_large(s: Seq<char>, secs: int) -> Result<u64, Seq<char>> {
    if secs <= u64::MAX {
        Ok(secs as u64)
    } else {
        Err(wrong_duration(s, NumberError::TooLarge))
    }
}

/// Every number of seconds reads back from its decimal digits, with `s` behind them or without.
pub proof fn law_seconds_read_back(n: u64)
    ensures
        duration(crate::text::decimal(n as nat)) == Ok::<u64, Seq<char>>(n),
        duration(crate::text::decimal(n as nat).push('s')) == Ok::<u64, Seq<char>>(n),
{
    crate::text::law_decimal_reads_back(n);
    law_numbers_count_their_unit(crate::text::decimal(n as nat), n);
}

/// There is nothing to trim from a number, and no unit in it.
proof fn lemma_number_without_unit(number: Seq<char>)
    requires
        crate::text::number(number) is Ok,
    ensures
        crate::text::trimmed(number) == number,
        number.len() > 0,
        unit_seconds(number.last()) is None,
{
    let digits = crate::text::unsigned_digits(number);
    assert(digits.last() == number.last());
    assert(crate::text::is_digit(digits[digits.len() - 1]));
    assert(crate::text::is_digit(digits[0]));
    assert(crate::text::trimmed_start(number) == number);
    assert(crate::text::trimmed_end(number) == number);
}

/// There is nothing to trim from a number with a unit.
proof fn lemma_number_with_unit(number: Seq<char>, unit: char)
    requires
        crate::text::number(number) is Ok,
        unit_seconds(unit) is Some,
    ensures
        crate::text::trimmed(number.push(unit)) == number.push(unit),
        number.push(unit).drop_last() == number,
        number.push(unit).last() == unit,
{
    let digits = crate::text::unsigned_digits(number);
    assert(crate::text::is_digit(digits[0]));
    let s = number.push(unit);
    assert(s.first() == number[0]);
    assert(s.drop_last() == number);
    assert(crate::text::trimmed_start(s) == s);
    assert(crate::text::trimmed_end(s) == s);
}

/// A local token is good for its label: with the public key of the pair whose private key
/// signed it, the validator of local tokens takes it as the label's, unless it has expired.
pub proof fn law_issued_tokens_are_taken(
    seed: Seq<u8>,
    private_pem: Seq<char>,
    public_pem: Seq<char>,
    token: Seq<char>,
    label: Seq<char>,
    now: u64,
    secs: int,
    got: Result<ClaimsView, Seq<char>>,
)
    requires
        crate::jwt::private_key_pem(seed) == Ok::<Seq<char>, Seq<char>>(private_pem),
        crate::jwt::public_key_pem(seed) == Ok::<Seq<char>, Seq<char>>(public_pem),
        crate::jwt::token_carries(token, private_pem, local_claims(label, now, secs)),
        crate::local::local_reads(public_pem, token, got),
        0 <= secs,
        now + secs <= u64::MAX,
    ensures
        ({
            ||| crate::local::local_accepted(got) == Ok::<Seq<char>, ErrorView>(label)
            ||| now + secs < u64::MAX - 60 && crate::local::local_accepted(got) == Err::<
                Seq<char>,
                ErrorView,
            >(ErrorView::JwtValidation("ExpiredSignature"@))
        }),
{
    lemma_local_claims(label, now, secs);
    assert(crate::jwt::eddsa_claims(token, public_pem) == Ok::<ClaimsView, Seq<char>>(
        local_claims(label, now, secs),
    ));
}

/// Whatever key verifies a local token, it is nobody's but its label's.
pub proof fn law_issued_tokens_name_their_label(
    private_pem: Seq<char>,
    public_pem: Seq<char>,
    token: Seq<char>,
    label: Seq<char>,
    now: u64,
    secs: int,
    got: Result<ClaimsView, Seq<char>>,
)
    requires
        crate::jwt::token_carries(token, private_pem, local_claims(label, now, secs)),
        crate::local::local_reads(public_pem, token, got),
        crate::local::local_accepted(got) is Ok,
    ensures
        crate::local::local_accepted(got) == Ok::<Seq<char>, ErrorView>(label),
{
    lemma_local_claims(label, now, secs);
    crate::local::law_taken_local_tokens_are_verified(public_pem, token, got);
}

proof fn lemma_local_claims(label: Seq<char>, now: u64, secs: int)
    ensures
        ({
            let claims = local_claims(label, now, secs);
            &&& claims.contains_key("iss"@)
            &&& claims["iss"@] == crate::jwt::ClaimView::Text(crate::local::local_issuer())
            &&& claims.contains_key("sub"@)
            &&& claims["sub"@] == crate::jwt::ClaimView::Text(label)
            &&& claims.contains_key("exp"@)
            &&& claims["exp"@] == crate::jwt::ClaimView::Number(Some((now + secs) as u64))
        }),
{
    reveal_strlit("iss");
    reveal_strlit("sub");
    reveal_strlit("iat");
    reveal_strlit("exp");
    assert("iss"@[0] != "sub"@[0]);
    assert("iss"@[1] != "iat"@[1]);
    assert("iss"@[0] != "exp"@[0]);
    assert("sub"@[0] != "iat"@[0]);
    assert("sub"@[0] != "exp"@[0]);
}

/// What is read as a duration is, but for whitespace around it, a number with or without a unit
/// behind it, and counts that many of the unit.
pub proof fn law_durations_are_numbers_with_a_unit(s: Seq<char>)
    requires
        duration(s) is Ok,
    ensures
        exists|number: Seq<char>|
            #![trigger crate::text::number(number)]
            crate::text::number(number) matches Ok(n) && {
                let t = crate::text::trimmed(s);
                let secs = duration(s)->Ok_0;
                ||| t == number && secs == n
                ||| t == number.push('s') && secs == n
                ||| t == number.push('m') && secs == n * 60
                ||| t == number.push('h') && secs == n * 3600
                ||| t == number.push('d') && secs == n * 86400
            },
{
    let t = crate::text::trimmed(s);
    let (number, unit) = split_duration(t);
    let n = crate::text::number(number)->Ok_0;
    if unit_seconds(t.last()) is Some {
        assert(t == number.push(t.last()));
    }
    assert({
        &&& unit == 1 ==> n * unit == n
        &&& unit == 60 ==> n * unit == n * 60
        &&& unit == 3600 ==> n * unit == n * 3600
        &&& unit == 86400 ==> n * unit == n * 86400
    }) by (nonlinear_arith);
    assert(crate::text::number(number) == Ok::<u64, NumberError>(n));
}

/// A text that is no duration is refused with what is wrong with it: that it is empty, or,
/// behind the text itself, what is wrong with the number in it.
pub proof fn law_wrong_durations_are_named(s: Seq<char>, e: Seq<char>)
    requires
        duration(s) == Err::<u64, Seq<char>>(e),
    ensures
        ({
            let t = crate::text::trimmed(s);
            if t.len() == 0 {
                e == "empty duration"@
            } else {
                ||| e == "invalid duration '"@ + t + "': "@
                    + "cannot parse integer from empty string"@
                ||| e == "invalid duration '"@ + t + "': "@ + "invalid digit found in string"@
                ||| e == "invalid duration '"@ + t + "': "@
                    + "number too large to fit in target type"@
            }
        }),
{
}

/// Where the number before the unit is none, it is said why.
pub proof fn law_wrong_numbers_are_named(number: Seq<char>, unit: char, e: NumberError)
    requires
        unit == 's' || unit == 'm' || unit == 'h' || unit == 'd',
        crate::text::number(number) == Err::<u64, NumberError>(e),
        crate::text::trimmed(number.push(unit)) == number.push(unit),
    ensures
        duration(number.push(unit)) == Err::<u64, Seq<char>>(
            "invalid duration '"@ + number.push(unit) + "': "@ + match e {
                NumberError::Empty => "cannot parse integer from empty string"@,
                NumberError::InvalidDigit => "invalid digit found in string"@,
                NumberError::TooLarge => "number too large to fit in target type"@,
            },
        ),
{
    assert(number.push(unit).drop_last() == number);
}

/// A token is issued for a readable duration, with a readable key and within the time that can
/// be counted: it is signed for `nix-relay` and the label, from now until the duration is over.
/// Anything else is refused for its reason, in this order.
pub proof fn law_tokens_are_issued_for_their_time(
    private_pem: Seq<char>,
    exp: Seq<char>,
    label: Seq<char>,
    now: u64,
)
    ensures
        duration(exp) matches Err(e) ==> issued_token(private_pem, exp, label, now) == Err::<
            Seq<char>,
            Seq<char>,
        >(e),
        duration(exp) matches Ok(secs) ==> match crate::jwt::ed_private_key(private_pem) {
            Err(e) => issued_token(private_pem, exp, label, now) == Err::<Seq<char>, Seq<char>>(
                "invalid Ed25519 private key: "@ + e,
            ),
            Ok(_) => if now + secs > u64::MAX {
                issued_token(private_pem, exp, label, now) == Err::<Seq<char>, Seq<char>>(
                    "expiration time too large"@,
                )
            } else {
                match crate::jwt::eddsa_token(
                    private_pem,
                    "nix-relay"@,
                    label,
                    now,
                    (now + secs) as u64,
                ) {
                    Ok(token) => issued_token(private_pem, exp, label, now) == Ok::<
                        Seq<char>,
                        Seq<char>,
                    >(token),
                    Err(e) => issued_token(private_pem, exp, label, now) == Err::<
                        Seq<char>,
                        Seq<char>,
                    >("failed to sign token: "@ + e),
                }
            },
        },
{
}

/// A local token says that `nix-relay` issued it, for its label, now, until its time is over.
pub proof fn law_local_tokens_say_their_time(label: Seq<char>, now: u64, secs: int)
    requires
        0 <= secs,
        now + secs <= u64::MAX,
    ensures
        ({
            let claims = local_claims(label, now, secs);
            &&& claims.contains_key("iss"@)
            &&& claims["iss"@] == crate::jwt::ClaimView::Text("nix-relay"@)
            &&& claims.contains_key("sub"@)
            &&& claims["sub"@] == crate::jwt::ClaimView::Text(label)
            &&& claims.contains_key("iat"@)
            &&& claims["iat"@] == crate::jwt::ClaimView::Number(Some(now))
            &&& claims.contains_key("exp"@)
            &&& claims["exp"@] matches crate::jwt::ClaimView::Number(Some(exp)) && exp == now
                + secs
        }),
{
    crate::jwt::law_issued_tokens_make_four_claims(
        "nix-relay"@,
        label,
        now,
        (now + secs) as u64,
        label,
    );
}

/// A key pair is kept in two files: `private.pem`, for its owner alone, with the private key,
/// and `public.pem`, for everybody, with the public key of the same secret. Each holds a key
/// that can be read.
pub proof fn law_key_pairs_are_kept_in_two_files(seed: Seq<u8>, files: Vec<KeyFile>)
    requires
        key_files_of(seed, Ok(files)),
    ensures
        files@.len() == 2,
        files@[0].name@ == "private.pem"@,
        files@[0].private,
        crate::jwt::private_key_pem(seed) == Ok::<Seq<char>, Seq<char>>(files@[0].contents@),
        crate::jwt::ed_private_key(files@[0].contents@) is Ok,
        files@[1].name@ == "public.pem"@,
        !files@[1].private,
        crate::jwt::public_key_pem(seed) == Ok::<Seq<char>, Seq<char>>(files@[1].contents@),
        crate::jwt::ed_public_key(files@[1].contents@) is Ok,
{
}

/// Files are made unless a key cannot be written, and then it is said which.
pub proof fn law_key_pairs_are_made(seed: Seq<u8>, r: Result<Vec<KeyFile>, String>)
    requires
        key_files_of(seed, r),
    ensures
        match (crate::jwt::private_key_pem(seed), crate::jwt::public_key_pem(seed)) {
            (Err(e), _) => r matches Err(err) && err@ == "failed to encode private key: "@ + e,
            (Ok(_), Err(e)) => r matches Err(err) && err@ == "failed to encode public key: "@ + e,
            (Ok(_), Ok(_)) => r is Ok,
        },
{
}

/// Where a duration without a unit is no number, it is said why.
pub proof fn law_wrong_plain_numbers_are_named(s: Seq<char>, e: NumberError)
    requires
        s.len() > 0,
        crate::text::trimmed(s) == s,
        s.last() != 's' && s.last() != 'm' && s.last() != 'h' && s.last() != 'd',
        crate::text::number(s) == Err::<u64, NumberError>(e),
    ensures
        duration(s) == Err::<u64, Seq<char>>(
            "invalid duration '"@ + s + "': "@ + match e {
                NumberError::Empty => "cannot parse integer from empty string"@,
                NumberError::InvalidDigit => "invalid digit found in string"@,
                NumberError::TooLarge => "number too large to fit in target type"@,
            },
        ),
{
}

} // verus!
