//! Text operations over the characters of a string.
//!
//! Every function here reads a `&str` through its view, a `Seq<char>`, and states its
//! result over that sequence.

use vstd::prelude::*;

verus! {

/// Whether `c` has the Unicode property `White_Space`.
pub open spec fn is_whitespace(c: char) -> bool {
    ||| '\u{9}' <= c <= '\u{d}'
    ||| c == ' '
    ||| c == '\u{85}'
    ||| c == '\u{a0}'
    ||| c == '\u{1680}'
    ||| '\u{2000}' <= c <= '\u{200a}'
    ||| c == '\u{2028}'
    ||| c == '\u{2029}'
    ||| c == '\u{202f}'
    ||| c == '\u{205f}'
    ||| c == '\u{3000}'
}

/// `s` without its leading whitespace.
pub open spec fn trimmed_start(s: Seq<char>) -> Seq<char>
    decreases s.len(),
{
    if s.len() > 0 && is_whitespace(s.first()) {
        trimmed_start(s.drop_first())
    } else {
        s
    }
}

/// `s` without its trailing whitespace.
pub open spec fn trimmed_end(s: Seq<char>) -> Seq<char>
    decreases s.len(),
{
    if s.len() > 0 && is_whitespace(s.last()) {
        trimmed_end(s.drop_last())
    } else {
        s
    }
}

/// `s` without the whitespace around it.
pub open spec fn trimmed(s: Seq<char>) -> Seq<char> {
    trimmed_end(trimmed_start(s))
}

/// `s` without the copies of `c` at its end.
pub open spec fn without_trailing(s: Seq<char>, c: char) -> Seq<char>
    decreases s.len(),
{
    if s.len() > 0 && s.last() == c {
        without_trailing(s.drop_last(), c)
    } else {
        s
    }
}

/// `c`, with an ASCII capital turned into its small letter.
pub open spec fn ascii_lower(c: char) -> char {
    if 'A' <= c <= 'Z' {
        ((c as u8 + 32) as u8) as char
    } else {
        c
    }
}

/// `s` with every ASCII capital turned into its small letter.
pub open spec fn lowered(s: Seq<char>) -> Seq<char> {
    s.map_values(|c: char| ascii_lower(c))
}

/// Whether `a` and `b` are the same up to the case of ASCII letters.
pub open spec fn same_ignoring_case(a: Seq<char>, b: Seq<char>) -> bool {
    lowered(a) == lowered(b)
}

fn char_is_whitespace(c: char) -> (r: bool)
    ensures
        r == is_whitespace(c),
{
    ('\u{9}' <= c && c <= '\u{d}') || c == ' ' || c == '\u{85}' || c == '\u{a0}' || c == '\u{1680}'
        || ('\u{2000}' <= c && c <= '\u{200a}') || c == '\u{2028}' || c == '\u{2029}' || c
        == '\u{202f}' || c == '\u{205f}' || c == '\u{3000}'
}

fn char_to_ascii_lower(c: char) -> (r: char)
    ensures
        r == ascii_lower(c),
{
    if 'A' <= c && c <= 'Z' {
        (c as u8 + 32) as char
    } else {
        c
    }
}

/// The part of `s` between its leading and its trailing whitespace.
pub fn trim(s: &str) -> (r: &str)
    ensures
        r@ == trimmed(s@),
{
    let len: usize = s.unicode_len();
    let mut from: usize = 0;
    assert(s@.skip(0) == s@);
    while from < len && char_is_whitespace(s.get_char(from))
        invariant
            from <= len,
            len == s@.len(),
            trimmed_start(s@.skip(from as int)) == trimmed_start(s@),
        decreases len - from,
    {
        assert(s@.skip(from as int).drop_first() == s@.skip(from + 1));
        from = from + 1;
    }
    let ghost rest = s@.skip(from as int);
    let mut to: usize = len;
    assert(s@.subrange(from as int, to as int) == rest);
    while from < to && char_is_whitespace(s.get_char(to - 1))
        invariant
            from <= to <= len,
            len == s@.len(),
            trimmed_end(s@.subrange(from as int, to as int)) == trimmed_end(rest),
        decreases to,
    {
        assert(s@.subrange(from as int, to as int).drop_last() == s@.subrange(
            from as int,
            to - 1,
        ));
        to = to - 1;
    }
    s.substring_char(from, to)
}

/// The part of `s` before the copies of `c` at its end.
pub fn trim_end_matches(s: &str, c: char) -> (r: &str)
    ensures
        r@ == without_trailing(s@, c),
{
    let mut to: usize = s.unicode_len();
    assert(s@.take(to as int) == s@);
    while 0 < to && s.get_char(to - 1) == c
        invariant
            to <= s@.len(),
            without_trailing(s@.take(to as int), c) == without_trailing(s@, c),
        decreases to,
    {
        assert(s@.take(to as int).drop_last() == s@.take(to - 1));
        to = to - 1;
    }
    assert(s@.subrange(0, to as int) == s@.take(to as int));
    s.substring_char(0, to)
}

/// What follows `prefix` in `s`, if `s` starts with it.
pub fn strip_prefix<'a>(s: &'a str, prefix: &str) -> (r: Option<&'a str>)
    ensures
        match r {
            Some(rest) => s@ == prefix@ + rest@,
            None => !prefix@.is_prefix_of(s@),
        },
{
    let len: usize = s.unicode_len();
    let plen: usize = prefix.unicode_len();
    if len < plen {
        return None;
    }
    let mut i: usize = 0;
    while i < plen
        invariant
            i <= plen <= len,
            plen == prefix@.len(),
            len == s@.len(),
            forall|j: int| 0 <= j < i ==> s@[j] == prefix@[j],
        decreases plen - i,
    {
        if s.get_char(i) != prefix.get_char(i) {
            assert(s@[i as int] == s@.subrange(0, plen as int)[i as int]);
            return None;
        }
        i = i + 1;
    }
    let rest = s.substring_char(plen, len);
    assert(s@ == prefix@ + rest@);
    Some(rest)
}

/// Whether `a` and `b` are the same up to the case of ASCII letters.
pub fn eq_ignore_ascii_case(a: &str, b: &str) -> (r: bool)
    ensures
        r == same_ignoring_case(a@, b@),
{
    let len: usize = a.unicode_len();
    if len != b.unicode_len() {
        assert(lowered(a@).len() != lowered(b@).len());
        return false;
    }
    let mut i: usize = 0;
    while i < len
        invariant
            i <= len,
            len == a@.len(),
            len == b@.len(),
            forall|j: int| 0 <= j < i ==> ascii_lower(a@[j]) == ascii_lower(b@[j]),
        decreases len - i,
    {
        if char_to_ascii_lower(a.get_char(i)) != char_to_ascii_lower(b.get_char(i)) {
            assert(lowered(a@)[i as int] != lowered(b@)[i as int]);
            return false;
        }
        i = i + 1;
    }
    assert(lowered(a@) =~= lowered(b@));
    true
}

/// Whether `a` and `b` are the same text.
pub fn same_text(a: &str, b: &str) -> (r: bool)
    ensures
        r == (a@ == b@),
{
    match strip_prefix(a, b) {
        Some(rest) => rest.is_empty(),
        None => {
            assert(a@ != b@ || b@.is_prefix_of(a@));
            false
        },
    }
}

/// `first`, followed by `second`.
pub fn joined(first: &str, second: &str) -> (r: String)
    ensures
        r@ == first@ + second@,
{
    first.to_string().concat(second)
}

/// Why a text is not a number.
#[derive(Debug, Clone, Copy, PartialEq, Eq, Structural)]
pub enum NumberError {
    /// There is nothing to read.
    Empty,
    /// A character is no decimal digit.
    InvalidDigit,
    /// The number does not fit.
    TooLarge,
}

pub open spec fn is_digit(c: char) -> bool {
    '0' <= c <= '9'
}

pub open spec fn all_digits(s: Seq<char>) -> bool {
    forall|i: int| 0 <= i < s.len() ==> is_digit(#[trigger] s[i])
}

/// The number that the decimal digits `s` write.
pub open spec fn decimal_value(s: Seq<char>) -> nat
    decreases s.len(),
{
    if s.len() == 0 {
        0
    } else {
        (10 * decimal_value(s.drop_last()) + (s.last() as int - '0' as int)) as nat
    }
}

/// Reading `digits` from the left, the character at `i` is the first that stops the
/// reading: it is no digit, and what stands before it is a number that fits.
pub open spec fn stops_at(digits: Seq<char>, i: int) -> bool {
    &&& 0 <= i < digits.len()
    &&& !is_digit(digits[i])
    &&& all_digits(digits.take(i))
    &&& decimal_value(digits.take(i)) <= u64::MAX
}

/// `s` without the plus sign that may stand before its digits.
pub open spec fn unsigned_digits(s: Seq<char>) -> Seq<char> {
    if s.len() > 1 && s[0] == '+' {
        s.drop_first()
    } else {
        s
    }
}

/// What `s` reads as: an optional plus sign and at least one decimal digit.
pub open spec fn number(s: Seq<char>) -> Result<u64, NumberError> {
    let digits = unsigned_digits(s);
    if s.len() == 0 {
        Err(NumberError::Empty)
    } else if all_digits(digits) && decimal_value(digits) <= u64::MAX {
        Ok(decimal_value(digits) as u64)
    } else if exists|i: int| stops_at(digits, i) {
        Err(NumberError::InvalidDigit)
    } else {
        Err(NumberError::TooLarge)
    }
}

/// A number does not shrink when digits are added to it.
proof fn lemma_decimal_value_grows(s: Seq<char>, i: int)
    requires
        0 <= i <= s.len(),
        all_digits(s),
    ensures
        decimal_value(s.take(i)) <= decimal_value(s),
    decreases s.len() - i,
{
    if i < s.len() {
        lemma_decimal_value_grows(s, i + 1);
        assert(s.take(i + 1).drop_last() == s.take(i));
        assert(is_digit(s[i]));
    } else {
        assert(s.take(i) == s);
    }
}

/// Reads a `u64` in decimal.
pub fn parse_u64(s: &str) -> (r: Result<u64, NumberError>)
    ensures
        r == number(s@),
{
    let len: usize = s.unicode_len();
    if len == 0 {
        return Err(NumberError::Empty);
    }
    let start: usize = if len > 1 && s.get_char(0) == '+' {
        1
    } else {
        0
    };
    let ghost digits = s@.skip(start as int);
    proof {
        if start == 0 {
            assert(digits == s@);
        }
        assert(digits == unsigned_digits(s@));
    }
    let mut value: u64 = 0;
    let mut i: usize = start;
    while i < len
        invariant
            start <= i <= len,
            len == s@.len(),
            len > 0,
            digits == s@.skip(start as int),
            digits == unsigned_digits(s@),
            all_digits(digits.take(i - start)),
            value == decimal_value(digits.take(i - start)),
        decreases len - i,
    {
        let c: char = s.get_char(i);
        let ghost k = i - start;
        assert(c == digits[k]);
        if c < '0' || '9' < c {
            assert(stops_at(digits, k));
            assert(!is_digit(digits[k]));
            return Err(NumberError::InvalidDigit);
        }
        let digit: u64 = (c as u64) - ('0' as u64);
        proof {
            assert(digits.take(k + 1).drop_last() == digits.take(k));
            assert forall|j: int| 0 <= j < k + 1 implies is_digit(
                #[trigger] digits.take(k + 1)[j],
            ) by {
                if j < k {
                    assert(digits.take(k)[j] == digits[j]);
                }
            }
        }
        if value > (u64::MAX - digit) / 10 {
            proof {
                lemma_too_large(digits, k + 1);
            }
            return Err(NumberError::TooLarge);
        }
        value = value * 10 + digit;
        i = i + 1;
    }
    assert(digits.take(len - start) == digits);
    Ok(value)
}

/// Once the digits read so far are too large, no later character is the first to stop
/// the reading, and the whole is no number that fits.
proof fn lemma_too_large(digits: Seq<char>, k: int)
    requires
        0 <= k <= digits.len(),
        all_digits(digits.take(k)),
        decimal_value(digits.take(k)) > u64::MAX,
    ensures
        !(all_digits(digits) && decimal_value(digits) <= u64::MAX),
        forall|i: int| !stops_at(digits, i),
{
    if all_digits(digits) {
        lemma_decimal_value_grows(digits, k);
    }
    assert forall|i: int| !stops_at(digits, i) by {
        if stops_at(digits, i) {
            if i < k {
                assert(digits.take(k)[i] == digits[i]);
            } else {
                lemma_decimal_value_grows(digits.take(i), k);
                assert(digits.take(i).take(k) == digits.take(k));
            }
        }
    }
}

/// Trimming is done once: a trimmed text has no whitespace around it to trim.
pub proof fn law_trimmed_is_trimmed(s: Seq<char>)
    ensures
        trimmed(trimmed(s)) == trimmed(s),
    decreases s.len(),
{
    lemma_start_has_no_whitespace(s);
    let t = trimmed_start(s);
    lemma_end_keeps_start(t);
    lemma_end_has_no_whitespace(t);
}

proof fn lemma_start_has_no_whitespace(s: Seq<char>)
    ensures
        trimmed_start(s).len() > 0 ==> !is_whitespace(trimmed_start(s).first()),
    decreases s.len(),
{
    if s.len() > 0 && is_whitespace(s.first()) {
        lemma_start_has_no_whitespace(s.drop_first());
    }
}

proof fn lemma_end_has_no_whitespace(s: Seq<char>)
    ensures
        trimmed_end(s).len() > 0 ==> !is_whitespace(trimmed_end(s).last()),
    decreases s.len(),
{
    if s.len() > 0 && is_whitespace(s.last()) {
        lemma_end_has_no_whitespace(s.drop_last());
    }
}

proof fn lemma_end_keeps_start(s: Seq<char>)
    ensures
        trimmed_end(s).len() > 0 ==> s.len() > 0 && trimmed_end(s).first() == s.first(),
    decreases s.len(),
{
    if s.len() > 0 && is_whitespace(s.last()) {
        lemma_end_keeps_start(s.drop_last());
    }
}

/// Whether `s` is whitespace alone.
pub open spec fn is_blank(s: Seq<char>) -> bool {
    forall|i: int| 0 <= i < s.len() ==> is_whitespace(#[trigger] s[i])
}

/// Whitespace before and after a text makes no difference to what is left of it.
pub proof fn law_trimmed_ignores_whitespace_around(
    before: Seq<char>,
    s: Seq<char>,
    after: Seq<char>,
)
    requires
        is_blank(before),
        is_blank(after),
    ensures
        trimmed(before + s + after) == trimmed(s),
{
    assert(before + s + after == before + (s + after));
    lemma_start_skips_blank(before, s + after);
    lemma_start_of_joined(s, after);
    if trimmed_start(s).len() == 0 {
        lemma_start_skips_blank(after, Seq::empty());
        assert(after + Seq::<char>::empty() == after);
    } else {
        lemma_end_skips_blank(trimmed_start(s), after);
    }
}

proof fn lemma_start_skips_blank(before: Seq<char>, s: Seq<char>)
    requires
        is_blank(before),
    ensures
        trimmed_start(before + s) == trimmed_start(s),
    decreases before.len(),
{
    if before.len() == 0 {
        assert(before + s == s);
    } else {
        let rest = before.drop_first();
        assert(is_whitespace(before[0]));
        assert forall|i: int| 0 <= i < rest.len() implies is_whitespace(#[trigger] rest[i]) by {
            assert(rest[i] == before[i + 1]);
        }
        assert((before + s).drop_first() == rest + s);
        lemma_start_skips_blank(rest, s);
    }
}

proof fn lemma_end_skips_blank(s: Seq<char>, after: Seq<char>)
    requires
        is_blank(after),
    ensures
        trimmed_end(s + after) == trimmed_end(s),
    decreases after.len(),
{
    if after.len() == 0 {
        assert(s + after == s);
    } else {
        let rest = after.drop_last();
        assert(is_whitespace(after[after.len() - 1]));
        assert forall|i: int| 0 <= i < rest.len() implies is_whitespace(#[trigger] rest[i]) by {
            assert(rest[i] == after[i]);
        }
        assert((s + after).drop_last() == s + rest);
        lemma_end_skips_blank(s, rest);
    }
}

/// Leading whitespace ends in `s`, unless `s` is nothing else.
proof fn lemma_start_of_joined(s: Seq<char>, after: Seq<char>)
    ensures
        trimmed_start(s + after) == if trimmed_start(s).len() == 0 {
            trimmed_start(after)
        } else {
            trimmed_start(s) + after
        },
    decreases s.len(),
{
    if s.len() == 0 {
        assert(s + after == after);
    } else if is_whitespace(s.first()) {
        assert((s + after).drop_first() == s.drop_first() + after);
        lemma_start_of_joined(s.drop_first(), after);
    }
}

/// The decimal digits of `n`, without leading zeros.
pub open spec fn decimal(n: nat) -> Seq<char>
    decreases n,
{
    let digit = (n % 10 + '0' as nat) as char;
    if n < 10 {
        seq![digit]
    } else {
        decimal(n / 10).push(digit)
    }
}

/// Every number reads back from its decimal digits.
pub proof fn law_decimal_reads_back(n: u64)
    ensures
        number(decimal(n as nat)) == Ok::<u64, NumberError>(n),
{
    lemma_decimal(n as nat);
    let s = decimal(n as nat);
    assert(is_digit(s[0]));
    assert(unsigned_digits(s) == s);
}

proof fn lemma_decimal(n: nat)
    ensures
        decimal(n).len() > 0,
        all_digits(decimal(n)),
        decimal_value(decimal(n)) == n,
    decreases n,
{
    let digit = (n % 10 + '0' as nat) as char;
    assert(digit as int == n % 10 + '0' as int);
    if n < 10 {
        assert(seq![digit].drop_last() == Seq::<char>::empty());
        reveal_with_fuel(decimal_value, 2);
    } else {
        lemma_decimal(n / 10);
        assert(decimal(n).drop_last() == decimal(n / 10));
        assert forall|i: int| 0 <= i < decimal(n).len() implies is_digit(
            #[trigger] decimal(n)[i],
        ) by {
            if i < decimal(n / 10).len() {
                assert(decimal(n)[i] == decimal(n / 10)[i]);
            }
        }
    }
}

/// Trimming takes whitespace away from both ends, all of it and nothing else: a text is what is
/// left of it with blanks around, and what is left has no whitespace at either end.
pub proof fn law_trimming_takes_blanks_alone(s: Seq<char>)
    ensures
        exists|before: Seq<char>, after: Seq<char>|
            #[trigger] is_blank(before) && #[trigger] is_blank(after) && s == before + trimmed(s)
                + after,
        trimmed(s).len() > 0 ==> !is_whitespace(trimmed(s).first()) && !is_whitespace(
            trimmed(s).last(),
        ),
{
    let t = trimmed_start(s);
    let before = lemma_start_takes_blank(s);
    let after = lemma_end_takes_blank(t);
    assert(s == (before + trimmed(s)) + after);
    lemma_start_has_no_whitespace(s);
    lemma_end_keeps_start(t);
    lemma_end_has_no_whitespace(t);
}

proof fn lemma_start_takes_blank(s: Seq<char>) -> (before: Seq<char>)
    ensures
        is_blank(before),
        s == before + trimmed_start(s),
    decreases s.len(),
{
    if s.len() > 0 && is_whitespace(s.first()) {
        let rest = lemma_start_takes_blank(s.drop_first());
        let before = seq![s.first()] + rest;
        assert forall|i: int| 0 <= i < before.len() implies is_whitespace(#[trigger] before[i]) by {
            if i > 0 {
                assert(before[i] == rest[i - 1]);
            }
        }
        assert(s == seq![s.first()] + s.drop_first());
        assert(s == before + trimmed_start(s));
        before
    } else {
        assert(s == Seq::<char>::empty() + s);
        Seq::empty()
    }
}

proof fn lemma_end_takes_blank(s: Seq<char>) -> (after: Seq<char>)
    ensures
        is_blank(after),
        s == trimmed_end(s) + after,
    decreases s.len(),
{
    if s.len() > 0 && is_whitespace(s.last()) {
        let rest = lemma_end_takes_blank(s.drop_last());
        let after = rest.push(s.last());
        assert forall|i: int| 0 <= i < after.len() implies is_whitespace(#[trigger] after[i]) by {
            if i < rest.len() {
                assert(after[i] == rest[i]);
            }
        }
        assert(s == s.drop_last().push(s.last()));
        assert(s == trimmed_end(s) + after);
        after
    } else {
        assert(s == s + Seq::<char>::empty());
        Seq::empty()
    }
}

/// However many copies of `c` are put behind a text that does not end in `c`, they are what is
/// cut off.
pub proof fn law_trailing_copies_are_cut(s: Seq<char>, c: char, copies: Seq<char>)
    requires
        s.len() > 0 ==> s.last() != c,
        forall|i: int| 0 <= i < copies.len() ==> #[trigger] copies[i] == c,
    ensures
        without_trailing(s + copies, c) == s,
    decreases copies.len(),
{
    if copies.len() == 0 {
        assert(s + copies == s);
    } else {
        assert(copies[copies.len() - 1] == c);
        assert((s + copies).drop_last() == s + copies.drop_last());
        law_trailing_copies_are_cut(s, c, copies.drop_last());
    }
}

/// Two texts are the same up to case if they are equally long and, place by place, hold the
/// same character or the two cases of one ASCII letter.
pub proof fn law_case_of_ascii_letters_alone_is_ignored(a: Seq<char>, b: Seq<char>)
    ensures
        same_ignoring_case(a, b) <==> a.len() == b.len() && forall|i: int|
            0 <= i < a.len() ==> {
                ||| #[trigger] a[i] == b[i]
                ||| 'A' <= a[i] <= 'Z' && b[i] as int == a[i] as int + 32
                ||| 'A' <= b[i] <= 'Z' && a[i] as int == b[i] as int + 32
            },
{
    let places = a.len() == b.len() && forall|i: int|
        0 <= i < a.len() ==> {
            ||| #[trigger] a[i] == b[i]
            ||| 'A' <= a[i] <= 'Z' && b[i] as int == a[i] as int + 32
            ||| 'A' <= b[i] <= 'Z' && a[i] as int == b[i] as int + 32
        };
    if same_ignoring_case(a, b) {
        assert(lowered(a).len() == a.len() && lowered(b).len() == b.len());
        assert forall|i: int| 0 <= i < a.len() implies {
            ||| #[trigger] a[i] == b[i]
            ||| 'A' <= a[i] <= 'Z' && b[i] as int == a[i] as int + 32
            ||| 'A' <= b[i] <= 'Z' && a[i] as int == b[i] as int + 32
        } by {
            assert(lowered(a)[i] == ascii_lower(a[i]));
            assert(lowered(b)[i] == ascii_lower(b[i]));
            lemma_lower(a[i]);
            lemma_lower(b[i]);
        }
    }
    if places {
        assert forall|i: int| 0 <= i < a.len() implies ascii_lower(a[i]) == ascii_lower(
            #[trigger] b[i],
        ) by {
            assert(a[i] == a[i]);
            lemma_lower(a[i]);
            lemma_lower(b[i]);
        }
        assert(lowered(a) =~= lowered(b));
    }
}

proof fn lemma_lower(c: char)
    ensures
        'A' <= c <= 'Z' ==> ascii_lower(c) as int == c as int + 32,
        !('A' <= c <= 'Z') ==> ascii_lower(c) == c,
{
}

/// A number is read from its decimal digits, with zeros and one plus sign before them or not.
pub proof fn law_zeros_and_a_plus_make_no_difference(zeros: Seq<char>, n: u64)
    requires
        forall|i: int| 0 <= i < zeros.len() ==> #[trigger] zeros[i] == '0',
    ensures
        number(zeros + decimal(n as nat)) == Ok::<u64, NumberError>(n),
        number(seq!['+'] + (zeros + decimal(n as nat))) == Ok::<u64, NumberError>(n),
{
    let s = zeros + decimal(n as nat);
    lemma_decimal(n as nat);
    lemma_zeros_count_nothing(zeros, decimal(n as nat));
    assert forall|i: int| 0 <= i < s.len() implies is_digit(#[trigger] s[i]) by {
        if i < zeros.len() {
            assert(s[i] == zeros[i]);
        } else {
            assert(s[i] == decimal(n as nat)[i - zeros.len()]);
        }
    }
    assert(is_digit(s[0]));
    assert(unsigned_digits(s) == s);
    let signed = seq!['+'] + s;
    assert(signed.drop_first() == s);
    assert(unsigned_digits(signed) == s);
}

proof fn lemma_zeros_count_nothing(zeros: Seq<char>, s: Seq<char>)
    requires
        forall|i: int| 0 <= i < zeros.len() ==> #[trigger] zeros[i] == '0',
    ensures
        decimal_value(zeros + s) == decimal_value(s),
    decreases zeros.len() + s.len(),
{
    if s.len() > 0 {
        assert((zeros + s).drop_last() == zeros + s.drop_last());
        lemma_zeros_count_nothing(zeros, s.drop_last());
    } else {
        assert(zeros + s == zeros);
        if zeros.len() > 0 {
            assert(zeros[zeros.len() - 1] == '0');
            assert(zeros.drop_last() + s == zeros.drop_last());
            lemma_zeros_count_nothing(zeros.drop_last(), s);
        }
    }
}

/// What is read as a number is its decimal digits, with zeros and one plus sign before them at
/// most.
pub proof fn law_numbers_are_decimal_digits(s: Seq<char>)
    requires
        number(s) is Ok,
    ensures
        exists|zeros: Seq<char>|
            (forall|i: int| 0 <= i < zeros.len() ==> #[trigger] zeros[i] == '0') && {
                ||| s == #[trigger] (zeros + decimal(number(s)->Ok_0 as nat))
                ||| s == seq!['+'] + (zeros + decimal(number(s)->Ok_0 as nat))
            },
{
    let digits = unsigned_digits(s);
    let zeros = lemma_digits_are_decimal(digits);
    assert(digits == zeros + decimal(number(s)->Ok_0 as nat));
    if digits.len() < s.len() {
        assert(s == seq!['+'] + digits);
    }
}

proof fn lemma_digits_are_decimal(s: Seq<char>) -> (zeros: Seq<char>)
    requires
        s.len() > 0,
        all_digits(s),
    ensures
        forall|i: int| 0 <= i < zeros.len() ==> #[trigger] zeros[i] == '0',
        s == zeros + decimal(decimal_value(s)),
    decreases s.len(),
{
    let last = s.last();
    let rest = s.drop_last();
    assert(is_digit(s[s.len() - 1]));
    assert(s == rest.push(last));
    if rest.len() == 0 {
        assert(decimal_value(rest) == 0);
        assert(decimal(decimal_value(s)) == seq![last]);
        assert(s == Seq::<char>::empty() + seq![last]);
        Seq::empty()
    } else {
        assert forall|i: int| 0 <= i < rest.len() implies is_digit(#[trigger] rest[i]) by {
            assert(rest[i] == s[i]);
        }
        let zeros = lemma_digits_are_decimal(rest);
        let n = decimal_value(rest);
        assert(decimal_value(s) == 10 * n + (last as int - '0' as int));
        assert(decimal_value(s) % 10 == last as int - '0' as int);
        assert(decimal_value(s) / 10 == n);
        if n == 0 {
            assert(decimal(0nat) == seq!['0']);
            assert(decimal(decimal_value(s)) == seq![last]);
            assert(s == rest + seq![last]);
            assert forall|i: int| 0 <= i < rest.len() implies #[trigger] rest[i] == '0' by {
                if i < zeros.len() {
                    assert(rest[i] == zeros[i]);
                }
            }
            rest
        } else {
            assert(decimal(decimal_value(s)) == decimal(n).push(last));
            assert(s == zeros + decimal(n).push(last));
            zeros
        }
    }
}

/// A number that does not fit is too large, whatever follows its digits.
pub proof fn law_numbers_that_do_not_fit_are_too_large(n: nat, rest: Seq<char>)
    requires
        n > u64::MAX,
    ensures
        number(decimal(n) + rest) == Err::<u64, NumberError>(NumberError::TooLarge),
{
    let s = decimal(n) + rest;
    lemma_decimal(n);
    assert(is_digit(decimal(n)[0]));
    assert(s[0] == decimal(n)[0]);
    assert(unsigned_digits(s) == s);
    assert(s.take(decimal(n).len() as int) == decimal(n));
    lemma_too_large(s, decimal(n).len() as int);
}

/// A text is no number if, behind digits of a number that fits, or at its start, a character
/// stands that is no digit and no leading plus sign.
pub proof fn law_other_characters_are_no_digits(digits: Seq<char>, c: char, rest: Seq<char>)
    requires
        digits.len() == 0 || number(digits) is Ok,
        !('0' <= c <= '9'),
        digits.len() == 0 ==> c != '+' || rest.len() == 0,
    ensures
        number(digits.push(c) + rest) == Err::<u64, NumberError>(NumberError::InvalidDigit),
{
    let s = digits.push(c) + rest;
    let plain = unsigned_digits(digits);
    let all = unsigned_digits(s);
    assert(s[0] == if digits.len() == 0 { c } else { digits[0] });
    if digits.len() == 1 {
        assert(is_digit(plain[0]));
    }
    assert(all == plain.push(c) + rest);
    let k = plain.len() as int;
    assert(all[k] == c);
    assert(all.take(k) == plain);
    assert(decimal_value(Seq::<char>::empty()) == 0);
    assert(stops_at(all, k));
    assert(!is_digit(all[k]));
}

/// Nothing is no number.
pub proof fn law_nothing_is_no_number(s: Seq<char>)
    ensures
        number(s) == Err::<u64, NumberError>(NumberError::Empty) <==> s.len() == 0,
{
}

} // verus!
