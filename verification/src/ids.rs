//! The identifier generator: a wall-clock timestamp in decimal, a hyphen,
//! and the first eight characters of a freshly drawn random identifier.

use vstd::prelude::*;
use vstd::string::*;

verus! {

/// Whether `c` is a decimal digit.
pub open spec fn is_dec_digit(c: char) -> bool {
    '0' <= c && c <= '9'
}

/// The decimal digit character for a value below ten.
pub open spec fn spec_digit_char(d: nat) -> char {
    if d == 0 {
        '0'
    } else if d == 1 {
        '1'
    } else if d == 2 {
        '2'
    } else if d == 3 {
        '3'
    } else if d == 4 {
        '4'
    } else if d == 5 {
        '5'
    } else if d == 6 {
        '6'
    } else if d == 7 {
        '7'
    } else if d == 8 {
        '8'
    } else {
        '9'
    }
}

/// The decimal rendering of `n`: most significant digit first, no sign,
/// no leading zero except for `n == 0` itself.
pub open spec fn spec_dec(n: nat) -> Seq<char>
    decreases n,
{
    if n < 10 {
        seq![spec_digit_char(n)]
    } else {
        spec_dec(n / 10) + seq![spec_digit_char(n % 10)]
    }
}

/// A one-character string slice holding the decimal digit for `d`.
fn digit_str(d: u128) -> (s: &'static str)
    requires
        d < 10,
    ensures
        s@ =~= seq![spec_digit_char(d as nat)],
{
    proof {
        reveal_strlit("0");
        reveal_strlit("1");
        reveal_strlit("2");
        reveal_strlit("3");
        reveal_strlit("4");
        reveal_strlit("5");
        reveal_strlit("6");
        reveal_strlit("7");
        reveal_strlit("8");
        reveal_strlit("9");
    }
    if d == 0 {
        "0"
    } else if d == 1 {
        "1"
    } else if d == 2 {
        "2"
    } else if d == 3 {
        "3"
    } else if d == 4 {
        "4"
    } else if d == 5 {
        "5"
    } else if d == 6 {
        "6"
    } else if d == 7 {
        "7"
    } else if d == 8 {
        "8"
    } else {
        "9"
    }
}

/// Renders `n` in decimal, most significant digit first.
pub fn u128_to_dec(n: u128) -> (s: String)
    ensures
        s@ == spec_dec(n as nat),
    decreases n,
{
    if n < 10 {
        String::from_str(digit_str(n))
    } else {
        let mut s = u128_to_dec(n / 10);
        s.append(digit_str(n % 10));
        s
    }
}

/// Whether `c` is a lowercase hexadecimal digit.
pub open spec fn is_lower_hex_digit(c: char) -> bool {
    ('0' <= c && c <= '9') || ('a' <= c && c <= 'f')
}

/// An identifier token: one or more decimal digits, a hyphen, and exactly
/// eight lowercase hexadecimal digits.
pub open spec fn valid_id_token(s: Seq<char>) -> bool {
    &&& s.len() >= 10
    &&& (forall|i: int| 0 <= i < s.len() - 9 ==> is_dec_digit(s[i]))
    &&& s[s.len() - 9] == '-'
    &&& (forall|i: int| s.len() - 9 < i < s.len() ==> is_lower_hex_digit(s[i]))
}

/// The identifier token for a timestamp and a random suffix.
pub open spec fn spec_id_token(timestamp: nat, suffix: Seq<char>) -> Seq<char> {
    spec_dec(timestamp) + seq!['-'] + suffix
}

/// The error the identifier generator fails with: the system clock read a
/// time earlier than the Unix epoch, an environmental fault.
#[derive(Debug, Clone, Copy, PartialEq, Eq, Structural)]
pub enum ClockError {
    BeforeEpoch,
}

#[verifier::external_type_specification]
#[verifier::external_body]
pub struct ExUuid(uuid::Uuid);

/// Relies on `uuid::Uuid::new_v4`: a fresh version-4 identifier drawn from
/// the process random source. Nothing can be promised of a random value.
#[verifier::external_body]
fn fresh_uuid() -> (u: uuid::Uuid) {
    uuid::Uuid::new_v4()
}

/// Relies on `uuid`'s `Display` implementation (`ToString::to_string` goes
/// through it): the canonical hyphenated form, 36 characters, lowercase
/// hexadecimal digits with hyphens at positions 8, 13, 18 and 23.
#[verifier::external_body]
fn uuid_hyphenated(u: &uuid::Uuid) -> (r: String)
    ensures
        r@.len() == 36,
        forall|i: int|
            0 <= i < 36 && i != 8 && i != 13 && i != 18 && i != 23 ==> is_lower_hex_digit(r@[i]),
        r@[8] == '-' && r@[13] == '-' && r@[18] == '-' && r@[23] == '-',
{
    u.to_string()
}

/// Relies on `std::time::SystemTime::now`, `SystemTime::duration_since` and
/// `Duration::as_millis`: the wall clock now, in milliseconds since the Unix
/// epoch, or `None` when the clock reads earlier than the epoch. The outcome
/// depends on the environment, so nothing more is promised of it.
#[verifier::external_body]
fn clock_unix_millis() -> (r: Option<u128>) {
    match std::time::SystemTime::now().duration_since(std::time::UNIX_EPOCH) {
        Ok(elapsed) => Some(elapsed.as_millis()),
        Err(_) => None,
    }
}

/// Every character of `spec_dec(n)` is a decimal digit, and there is at
/// least one.
pub proof fn lemma_spec_dec_digits(n: nat)
    ensures
        spec_dec(n).len() >= 1,
        forall|i: int| 0 <= i < spec_dec(n).len() ==> is_dec_digit(spec_dec(n)[i]),
    decreases n,
{
    if n >= 10 {
        lemma_spec_dec_digits(n / 10);
    }
}

/// A token assembled from any timestamp and any eight-hex-digit suffix is
/// a valid identifier token.
pub proof fn lemma_id_token_valid(timestamp: nat, suffix: Seq<char>)
    requires
        suffix.len() == 8,
        forall|i: int| 0 <= i < 8 ==> is_lower_hex_digit(suffix[i]),
    ensures
        valid_id_token(spec_id_token(timestamp, suffix)),
{
    lemma_spec_dec_digits(timestamp);
}

/// The numeric value of a decimal digit character; characters outside
/// `'0'..='9'` count as nine, which the round-trip lemma never reaches.
pub open spec fn spec_digit_val(c: char) -> nat {
    if c == '0' {
        0
    } else if c == '1' {
        1
    } else if c == '2' {
        2
    } else if c == '3' {
        3
    } else if c == '4' {
        4
    } else if c == '5' {
        5
    } else if c == '6' {
        6
    } else if c == '7' {
        7
    } else if c == '8' {
        8
    } else {
        9
    }
}

/// The numeric value of a sequence of decimal digit characters, most
/// significant first.
pub open spec fn spec_dec_value(s: Seq<char>) -> nat
    decreases s.len(),
{
    if s.len() == 0 {
        0
    } else {
        spec_dec_value(s.drop_last()) * 10 + spec_digit_val(s.last())
    }
}

/// Rendering a number in decimal and reading the digits back yields the
/// number: the decimal rendering loses nothing.
pub proof fn lemma_dec_round_trip(n: nat)
    ensures
        spec_dec_value(spec_dec(n)) == n,
    decreases n,
{
    if n < 10 {
        assert(spec_dec(n).drop_last() =~= Seq::<char>::empty());
        assert(spec_dec_value(Seq::<char>::empty()) == 0);
    } else {
        lemma_dec_round_trip(n / 10);
        assert(spec_dec(n).drop_last() =~= spec_dec(n / 10));
        assert((n / 10) * 10 + n % 10 == n) by (nonlinear_arith);
    }
}

/// The characters of a token before the hyphen: everything up to the
/// eight-character suffix and its separator.
pub open spec fn timestamp_prefix(token: Seq<char>) -> Seq<char> {
    token.subrange(0, token.len() - 9)
}

/// The timestamp prefix of an assembled token is exactly the decimal
/// rendering of its timestamp.
pub proof fn lemma_token_prefix(timestamp: nat, suffix: Seq<char>)
    requires
        suffix.len() == 8,
    ensures
        timestamp_prefix(spec_id_token(timestamp, suffix)) == spec_dec(timestamp),
{
    assert(timestamp_prefix(spec_id_token(timestamp, suffix)) =~= spec_dec(timestamp));
}

/// Tokens keep the order of their timestamps: when one token is built from
/// a timestamp no later than another's, the numeric value of its timestamp
/// prefix is no larger, whatever the random suffixes are. Successive calls
/// under a non-decreasing clock therefore carry non-decreasing prefixes.
pub proof fn lemma_timestamp_prefix_monotonic(
    timestamp1: nat,
    timestamp2: nat,
    suffix1: Seq<char>,
    suffix2: Seq<char>,
)
    requires
        timestamp1 <= timestamp2,
        suffix1.len() == 8,
        suffix2.len() == 8,
    ensures
        spec_dec_value(timestamp_prefix(spec_id_token(timestamp1, suffix1))) <= spec_dec_value(
            timestamp_prefix(spec_id_token(timestamp2, suffix2)),
        ),
{
    lemma_token_prefix(timestamp1, suffix1);
    lemma_token_prefix(timestamp2, suffix2);
    lemma_dec_round_trip(timestamp1);
    lemma_dec_round_trip(timestamp2);
}

/// Assembles the identifier token: `timestamp_millis` in decimal, a hyphen,
/// and the first eight characters of `random_text`.
pub fn make_id(timestamp_millis: u128, random_text: &str) -> (r: String)
    requires
        random_text@.len() >= 8,
    ensures
        r@ == spec_id_token(timestamp_millis as nat, random_text@.subrange(0, 8)),
{
    let mut s = u128_to_dec(timestamp_millis);
    s.append("-");
    s.append(random_text.substring_char(0, 8));
    proof {
        reveal_strlit("-");
        assert(s@ =~= spec_id_token(timestamp_millis as nat, random_text@.subrange(0, 8)));
    }
    s
}

/// Generates a unique identifier token: the current wall-clock time in
/// milliseconds since the Unix epoch, a hyphen, and the first eight
/// characters of a fresh random identifier. Fails exactly when the clock
/// reads earlier than the epoch.
pub fn generate_id() -> (r: Result<String, ClockError>)
    ensures
        r matches Ok(token) ==> valid_id_token(token@),
{
    match clock_unix_millis() {
        None => Err(ClockError::BeforeEpoch),
        Some(timestamp) => {
            let u = fresh_uuid();
            let text = uuid_hyphenated(&u);
            let token = make_id(timestamp, text.as_str());
            proof {
                lemma_id_token_valid(timestamp as nat, text@.subrange(0, 8));
            }
            Ok(token)
        },
    }
}

} // verus!
