//! Decimal text: rendering unsigned and signed integers to strings,
//! parsing decimal strings back, and character-exact equality on
//! strings.  Identifiers on the chat platform (guilds, users,
//! channels, messages) are decimal numerals stored and exchanged as
//! strings, so both directions carry exact contracts and a proved
//! round trip.

use vstd::prelude::*;
use vstd::string::*;
use vstd::arithmetic::div_mod::lemma_fundamental_div_mod;

verus! {

// ---------------------------------------------------------------------------
// Digits
// ---------------------------------------------------------------------------

/// A decimal digit character.
pub open spec fn spec_is_digit(c: char) -> bool {
    '0' <= c && c <= '9'
}

/// Numeric value of a digit character.
pub open spec fn spec_digit_val(c: char) -> int {
    c as int - '0' as int
}

/// The digit character for a value in `0 ..= 9`.
pub open spec fn spec_digit_char(d: int) -> char {
    if d == 0 {
        '0'
    } else if d == 1 {
        '1'
    } else if d == 2 {
        '2'
    } else if d == 3 {
        '3'
    } else if d == 4 {
        '4'
    } else if d == 5 {
        '5'
    } else if d == 6 {
        '6'
    } else if d == 7 {
        '7'
    } else if d == 8 {
        '8'
    } else {
        '9'
    }
}

pub proof fn lemma_digit_char_val(d: int)
    requires
        0 <= d < 10,
    ensures
        spec_is_digit(spec_digit_char(d)),
        spec_digit_val(spec_digit_char(d)) == d,
{
}

/// Every character of `s` is a decimal digit.
pub open spec fn spec_all_digits(s: Seq<char>) -> bool {
    forall|i: int| 0 <= i < s.len() ==> spec_is_digit(#[trigger] s[i])
}

// ---------------------------------------------------------------------------
// Value of a digit string, and the canonical numeral of a number
// ---------------------------------------------------------------------------

/// The number denoted by a string of digit characters (most
/// significant first).  The empty string denotes zero.
pub open spec fn spec_dec_value(s: Seq<char>) -> int
    decreases s.len(),
{
    if s.len() == 0 {
        0
    } else {
        spec_dec_value(s.drop_last()) * 10 + spec_digit_val(s.last())
    }
}

/// The canonical decimal numeral of a number: no sign, no leading
/// zeros (except for the number zero itself, written "0").
pub open spec fn spec_decimal(n: nat) -> Seq<char>
    decreases n,
{
    if n < 10 {
        seq![spec_digit_char(n as int)]
    } else {
        spec_decimal(n / 10).push(spec_digit_char((n % 10) as int))
    }
}

/// The numeral of a number with an optional leading minus sign.
pub open spec fn spec_signed_decimal(n: int) -> Seq<char> {
    if n >= 0 {
        spec_decimal(n as nat)
    } else {
        seq!['-'] + spec_decimal((-n) as nat)
    }
}

/// A digit string denotes a value no smaller than any of its prefixes.
pub proof fn lemma_dec_value_bounds(s: Seq<char>)
    requires
        spec_all_digits(s),
    ensures
        spec_dec_value(s) >= 0,
        forall|k: int| 0 <= k <= s.len() ==> spec_dec_value(#[trigger] s.subrange(0, k)) <= spec_dec_value(s),
    decreases s.len(),
{
    if s.len() == 0 {
        assert forall|k: int| 0 <= k <= s.len() implies spec_dec_value(#[trigger] s.subrange(0, k))
            <= spec_dec_value(s) by {
            assert(s.subrange(0, k) =~= s);
        }
    } else {
        let p = s.drop_last();
        assert(spec_all_digits(p)) by {
            assert(forall|i: int| 0 <= i < p.len() ==> p[i] == s[i]);
        }
        lemma_dec_value_bounds(p);
        assert(spec_is_digit(s.last()));
        assert(spec_dec_value(s) >= spec_dec_value(p)) by {
            assert(spec_dec_value(p) * 10 >= spec_dec_value(p)) by (nonlinear_arith)
                requires
                    spec_dec_value(p) >= 0,
            ;
        }
        assert forall|k: int| 0 <= k <= s.len() implies spec_dec_value(#[trigger] s.subrange(0, k))
            <= spec_dec_value(s) by {
            if k == s.len() {
                assert(s.subrange(0, k) =~= s);
            } else {
                assert(s.subrange(0, k) =~= p.subrange(0, k));
            }
        }
    }
}

/// The canonical numeral is made of digits, is never empty, and
/// denotes the number it was built from.
pub proof fn lemma_decimal_value(n: nat)
    ensures
        spec_decimal(n).len() >= 1,
        spec_all_digits(spec_decimal(n)),
        spec_dec_value(spec_decimal(n)) == n,
    decreases n,
{
    if n < 10 {
        lemma_digit_char_val(n as int);
        let s = spec_decimal(n);
        assert(s.drop_last() =~= Seq::<char>::empty());
        assert(spec_dec_value(s.drop_last()) == 0);
        assert(spec_dec_value(s) == spec_digit_val(spec_digit_char(n as int)));
    } else {
        lemma_decimal_value(n / 10);
        lemma_digit_char_val((n % 10) as int);
        let p = spec_decimal(n / 10);
        let w = p.push(spec_digit_char((n % 10) as int));
        assert(w.drop_last() =~= p);
        assert(w.last() == spec_digit_char((n % 10) as int));
        assert(spec_dec_value(w) == (n / 10) * 10 + n % 10);
        assert((n / 10) * 10 + n % 10 == n) by {
            lemma_fundamental_div_mod(n as int, 10);
        }
        assert(spec_all_digits(w)) by {
            assert(forall|i: int| 0 <= i < p.len() ==> w[i] == p[i]);
        }
    }
}

// ---------------------------------------------------------------------------
// Rendering
// ---------------------------------------------------------------------------

/// The digit character of `d`, as a one-character string slice.
fn digit_str(d: u64) -> (s: &'static str)
    requires
        d < 10,
    ensures
        s@ =~= seq![spec_digit_char(d as int)],
{
    proof {
        reveal_strlit("0");
        reveal_strlit("1");
        reveal_strlit("2");
        reveal_strlit("3");
        reveal_strlit("4");
        reveal_strlit("5");
        reveal_strlit("6");
        reveal_strlit("7");
        reveal_strlit("8");
        reveal_strlit("9");
    }
    match d {
        0 => "0",
        1 => "1",
        2 => "2",
        3 => "3",
        4 => "4",
        5 => "5",
        6 => "6",
        7 => "7",
        8 => "8",
        _ => "9",
    }
}

/// Renders a number as its canonical decimal numeral.
pub fn u64_to_string(n: u64) -> (s: String)
    ensures
        s@ == spec_decimal(n as nat),
    decreases n,
{
    if n < 10 {
        let s = String::from_str(digit_str(n));
        proof {
            assert(s@ =~= spec_decimal(n as nat));
        }
        s
    } else {
        let rest = u64_to_string(n / 10);
        let s = rest.concat(digit_str(n % 10));
        proof {
            assert(s@ =~= spec_decimal(n as nat));
        }
        s
    }
}

/// Renders a signed number: a minus sign followed by the magnitude
/// for negative input, the plain numeral otherwise.
pub fn i64_to_string(n: i64) -> (s: String)
    ensures
        s@ == spec_signed_decimal(n as int),
{
    if n >= 0 {
        u64_to_string(n as u64)
    } else {
        let magnitude: u64 = ((-(n + 1)) as u64) + 1;
        assert(magnitude == -(n as int));
        let digits = u64_to_string(magnitude);
        proof {
            reveal_strlit("-");
        }
        let s = String::from_str("-").concat(digits.as_str());
        proof {
            assert(s@ =~= spec_signed_decimal(n as int));
        }
        s
    }
}

// ---------------------------------------------------------------------------
// Parsing
// ---------------------------------------------------------------------------

/// The digit portion of a decimal string: everything after one
/// optional leading plus sign.
pub open spec fn spec_digits_of(s: Seq<char>) -> Seq<char> {
    if s.len() > 0 && s[0] == '+' {
        s.subrange(1, s.len() as int)
    } else {
        s
    }
}

/// A string that denotes a value representable as `u64`: an optional
/// plus sign, then at least one digit, with the denoted value in
/// range.
pub open spec fn spec_parses_as_u64(s: Seq<char>) -> bool {
    let d = spec_digits_of(s);
    d.len() > 0 && spec_all_digits(d) && spec_dec_value(d) <= u64::MAX
}

/// Parses a decimal string.  Returns the denoted value exactly when
/// the string is an optional plus sign followed by one or more
/// digits whose value fits in `u64`; returns `None` otherwise.
pub fn parse_u64_decimal(s: &str) -> (r: Option<u64>)
    ensures
        r is Some <==> spec_parses_as_u64(s@),
        r matches Some(v) ==> v == spec_dec_value(spec_digits_of(s@)),
{
    let ghost d = spec_digits_of(s@);
    let n = s.unicode_len();
    let start: usize = if n > 0 && s.get_char(0) == '+' {
        1
    } else {
        0
    };
    assert(d =~= s@.subrange(start as int, n as int));
    if n == start {
        return None;
    }
    let mut acc: u64 = 0;
    let mut i: usize = start;
    while i < n
        invariant
            start <= i <= n,
            n == s@.len(),
            d == spec_digits_of(s@),
            d =~= s@.subrange(start as int, n as int),
            spec_all_digits(d.subrange(0, i - start)),
            acc == spec_dec_value(d.subrange(0, i - start)),
        decreases n - i,
    {
        let c = s.get_char(i);
        if !(c >= '0' && c <= '9') {
            assert(!spec_is_digit(d[i - start]));
            return None;
        }
        let digit: u64 = (c as u32 as u64) - ('0' as u32 as u64);
        assert(digit == spec_digit_val(c));
        let ghost prefix = d.subrange(0, i - start);
        let ghost extended = d.subrange(0, i + 1 - start);
        assert(extended.drop_last() =~= prefix);
        assert(extended.last() == c);
        if acc > (u64::MAX - digit) / 10 {
            // The value of the digits seen so far already exceeds the
            // range, and more digits can only make it larger.
            proof {
                assert(acc * 10 + digit > u64::MAX) by (nonlinear_arith)
                    requires
                        acc > (u64::MAX - digit) / 10,
                        0 <= digit <= 9,
                ;
                assert(spec_dec_value(extended) > u64::MAX);
                if spec_all_digits(d) {
                    lemma_dec_value_bounds(d);
                    assert(spec_dec_value(d.subrange(0, i + 1 - start)) <= spec_dec_value(d));
                }
            }
            return None;
        }
        assert(acc * 10 + digit <= u64::MAX) by (nonlinear_arith)
            requires
                acc <= (u64::MAX - digit) / 10,
                0 <= digit <= 9,
        ;
        acc = acc * 10 + digit;
        i = i + 1;
        assert(spec_all_digits(d.subrange(0, i - start))) by {
            assert(forall|j: int| 0 <= j < extended.len() ==> extended[j] == #[trigger] d[j]);
        }
    }
    assert(d.subrange(0, n - start) =~= d);
    Some(acc)
}

/// The canonical numeral of any number parses back to that number.
pub proof fn lemma_decimal_round_trip(n: u64)
    ensures
        spec_parses_as_u64(spec_decimal(n as nat)),
        spec_dec_value(spec_digits_of(spec_decimal(n as nat))) == n,
{
    lemma_decimal_value(n as nat);
    let s = spec_decimal(n as nat);
    assert(spec_is_digit(s[0]));
    assert(s[0] != '+');
    assert(spec_digits_of(s) == s);
}

// ---------------------------------------------------------------------------
// Platform-flavoured references: mentions and message links
// ---------------------------------------------------------------------------

/// The inline mention of a user.
pub open spec fn spec_user_mention(id: u64) -> Seq<char> {
    "<@"@ + spec_decimal(id as nat) + ">"@
}

/// Renders the inline mention of a user.
pub fn user_mention(id: u64) -> (s: String)
    ensures
        s@ == spec_user_mention(id),
{
    let s = String::from_str("<@").concat(u64_to_string(id).as_str()).concat(">");
    proof {
        assert(s@ =~= spec_user_mention(id));
    }
    s
}

/// The inline mention of a channel.
pub open spec fn spec_channel_mention(id: u64) -> Seq<char> {
    "<#"@ + spec_decimal(id as nat) + ">"@
}

/// Renders the inline mention of a channel.
pub fn channel_mention(id: u64) -> (s: String)
    ensures
        s@ == spec_channel_mention(id),
{
    let s = String::from_str("<#").concat(u64_to_string(id).as_str()).concat(">");
    proof {
        assert(s@ =~= spec_channel_mention(id));
    }
    s
}

/// The canonical link to a message in a guild channel.
pub open spec fn spec_message_link(guild_id: u64, channel_id: u64, message_id: u64) -> Seq<char> {
    "https://discord.com/channels/"@ + spec_decimal(guild_id as nat) + "/"@ + spec_decimal(
        channel_id as nat,
    ) + "/"@ + spec_decimal(message_id as nat)
}

/// Renders the canonical link to a message in a guild channel.
pub fn message_link(guild_id: u64, channel_id: u64, message_id: u64) -> (s: String)
    ensures
        s@ == spec_message_link(guild_id, channel_id, message_id),
{
    let s = String::from_str("https://discord.com/channels/").concat(
        u64_to_string(guild_id).as_str(),
    ).concat("/").concat(u64_to_string(channel_id).as_str()).concat("/").concat(
        u64_to_string(message_id).as_str(),
    );
    proof {
        assert(s@ =~= spec_message_link(guild_id, channel_id, message_id));
    }
    s
}

// ---------------------------------------------------------------------------
// String equality
// ---------------------------------------------------------------------------

/// Character-exact comparison of two string slices.
pub fn str_eq(a: &str, b: &str) -> (r: bool)
    ensures
        r == (a@ == b@),
{
    let na = a.unicode_len();
    let nb = b.unicode_len();
    if na != nb {
        return false;
    }
    let mut i: usize = 0;
    while i < na
        invariant
            0 <= i <= na,
            na == a@.len(),
            na == b@.len(),
            forall|j: int| 0 <= j < i ==> a@[j] == b@[j],
        decreases na - i,
    {
        if a.get_char(i) != b.get_char(i) {
            return false;
        }
        i = i + 1;
    }
    proof {
        assert(a@ =~= b@);
    }
    true
}

} // verus!
