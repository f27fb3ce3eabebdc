use crate::error::ConfigError;
use std::num::ParseIntError;
use vstd::prelude::*;

verus! {

/// Value of a digit character in bases up to 36, either case; 36 for a
/// character that is no digit at all.
pub open spec fn digit_value(c: char) -> nat {
    let n = c as u32;
    if ('0' as u32) <= n <= ('9' as u32) {
        (n - ('0' as u32)) as nat
    } else if ('a' as u32) <= n <= ('z' as u32) {
        (n - ('a' as u32) + 10) as nat
    } else if ('A' as u32) <= n <= ('Z' as u32) {
        (n - ('A' as u32) + 10) as nat
    } else {
        36
    }
}

pub open spec fn all_digits_in(s: Seq<char>, radix: nat) -> bool {
    forall|i: int| 0 <= i < s.len() ==> #[trigger] digit_value(s[i]) < radix
}

/// Positional value of a digit string, most significant digit first.
pub open spec fn digits_value(s: Seq<char>, radix: nat) -> nat
    decreases s.len(),
{
    if s.len() == 0 {
        0
    } else {
        digits_value(s.drop_last(), radix) * radix + digit_value(s.last())
    }
}

/// The digits of an unsigned integer text: an optional leading `+` is dropped.
pub open spec fn unsigned_digits(s: Seq<char>) -> Seq<char> {
    if s.len() > 0 && s[0] == '+' {
        s.drop_first()
    } else {
        s
    }
}

/// The value of an unsigned integer text in the given radix, if it is one:
/// an optional `+` followed by at least one digit of the radix.
pub open spec fn radix_value(s: Seq<char>, radix: nat) -> Option<nat> {
    let d = unsigned_digits(s);
    if d.len() > 0 && all_digits_in(d, radix) {
        Some(digits_value(d, radix))
    } else {
        None
    }
}

/// The text that is left after dropping every leading `0`.
pub open spec fn strip_leading_zeros(s: Seq<char>) -> Seq<char>
    decreases s.len(),
{
    if s.len() > 0 && s[0] == '0' {
        strip_leading_zeros(s.drop_first())
    } else {
        s
    }
}

/// Splits a literal into its digits and the base that its prefix selects:
/// `0x`/`0X` hexadecimal, `0b`/`0B` binary, a leading `0` (all leading zeros
/// dropped, the text `0` alone excepted) octal, anything else decimal.
pub open spec fn split_base(s: Seq<char>) -> (Seq<char>, u32) {
    if s.len() >= 2 && s[0] == '0' && (s[1] == 'x' || s[1] == 'X') {
        (s.skip(2), 16)
    } else if s.len() >= 2 && s[0] == '0' && (s[1] == 'b' || s[1] == 'B') {
        (s.skip(2), 2)
    } else if s.len() >= 2 && s[0] == '0' {
        (strip_leading_zeros(s), 8)
    } else {
        (s, 10)
    }
}

/// The value that a literal denotes, if it is well formed.
pub open spec fn literal_value(s: Seq<char>) -> Option<nat> {
    radix_value(split_base(s).0, split_base(s).1 as nat)
}

/// The literal is well formed and its value is at most `max`.
pub open spec fn literal_fits(s: Seq<char>, max: nat) -> bool {
    literal_value(s) matches Some(n) && n <= max
}

/// The error reports a malformed literal whose digits were `d`.
pub open spec fn reports_digits(e: ConfigError, d: Seq<char>) -> bool {
    e matches ConfigError::NumberParseError(t, _) && t@ == d
}

/// A plain decimal numeral: one or more decimal digits, with no leading zero
/// unless it is the numeral `0` itself.
pub open spec fn is_plain_decimal(s: Seq<char>) -> bool {
    &&& s.len() > 0
    &&& forall|i: int| 0 <= i < s.len() ==> '0' <= #[trigger] s[i] <= '9'
    &&& (s[0] == '0' ==> s.len() == 1)
}

/// The usual base-10 reading of a string of decimal digits.
pub open spec fn decimal_value(s: Seq<char>) -> nat
    decreases s.len(),
{
    if s.len() == 0 {
        0
    } else {
        decimal_value(s.drop_last()) * 10 + (s.last() as u32 - '0' as u32) as nat
    }
}

proof fn lemma_decimal_digits(s: Seq<char>)
    requires
        forall|i: int| 0 <= i < s.len() ==> '0' <= #[trigger] s[i] <= '9',
    ensures
        all_digits_in(s, 10),
        digits_value(s, 10) == decimal_value(s),
    decreases s.len(),
{
    if s.len() > 0 {
        let p = s.drop_last();
        assert forall|i: int| 0 <= i < p.len() implies '0' <= #[trigger] p[i] <= '9' by {
            assert(p[i] == s[i]);
        }
        lemma_decimal_digits(p);
        assert forall|i: int| 0 <= i < s.len() implies #[trigger] digit_value(s[i]) < 10 by {
            assert('0' <= s[i] <= '9');
        }
        assert('0' <= s[s.len() - 1] <= '9');
    }
}

/// A plain decimal numeral denotes its usual base-10 value: it carries no
/// base prefix and its digits are read in base 10.
pub proof fn plain_decimal_literal(s: Seq<char>)
    requires
        is_plain_decimal(s),
    ensures
        split_base(s) == (s, 10u32),
        literal_value(s) == Some(decimal_value(s)),
{
    assert('0' <= s[0] <= '9');
    lemma_decimal_digits(s);
}

/// Relies on u16::from_str_radix: an optional `+` followed by one or more
/// digits of the radix (letters in either case) gives their value when it
/// fits in 16 bits; every other text is an error. Panics on a radix outside 2..=36.
#[verifier::external_body]
fn u16_from_str_radix(s: &str, radix: u32) -> (r: Result<u16, ParseIntError>)
    requires
        2 <= radix <= 36,
    ensures
        match r {
            Ok(v) => radix_value(s@, radix as nat) == Some(v as nat),
            Err(_) => !(radix_value(s@, radix as nat) matches Some(n) && n <= u16::MAX),
        },
{
    u16::from_str_radix(s, radix)
}

/// Relies on u32::from_str_radix: an optional `+` followed by one or more
/// digits of the radix (letters in either case) gives their value when it
/// fits in 32 bits; every other text is an error. Panics on a radix outside 2..=36.
#[verifier::external_body]
fn u32_from_str_radix(s: &str, radix: u32) -> (r: Result<u32, ParseIntError>)
    requires
        2 <= radix <= 36,
    ensures
        match r {
            Ok(v) => radix_value(s@, radix as nat) == Some(v as nat),
            Err(_) => !(radix_value(s@, radix as nat) matches Some(n) && n <= u32::MAX),
        },
{
    u32::from_str_radix(s, radix)
}

/// Splits a literal into its digits and base (see `split_base`).
pub fn get_base(value: &str) -> (r: (&str, u32))
    ensures
        r.0@ == split_base(value@).0,
        r.1 == split_base(value@).1,
{
    let n = value.unicode_len();
    if n >= 2 && value.get_char(0) == '0' {
        let c = value.get_char(1);
        if c == 'x' || c == 'X' {
            return (value.substring_char(2, n), 16);
        } else if c == 'b' || c == 'B' {
            return (value.substring_char(2, n), 2);
        }
        let mut i: usize = 0;
        assert(value@.skip(0) =~= value@);
        while i < n && value.get_char(i) == '0'
            invariant
                n == value@.len(),
                0 <= i <= n,
                strip_leading_zeros(value@) == strip_leading_zeros(value@.skip(i as int)),
            decreases n - i,
        {
            let ghost rest = value@.skip(i as int);
            assert(rest.drop_first() =~= value@.skip(i + 1));
            i = i + 1;
        }
        let ghost rest = value@.skip(i as int);
        assert(rest.len() == 0 || rest[0] != '0');
        (value.substring_char(i, n), 8)
    } else {
        (value, 10)
    }
}

/// Parses a literal with an optional base prefix into a 16-bit integer.
pub fn parse_u16(value: &str) -> (r: Result<u16, ConfigError>)
    ensures
        match r {
            Ok(v) => literal_value(value@) == Some(v as nat),
            Err(e) => !literal_fits(value@, u16::MAX as nat) && reports_digits(e, split_base(value@).0),
        },
{
    let (digits, base) = get_base(value);
    match u16_from_str_radix(digits, base) {
        Ok(v) => Ok(v),
        Err(e) => Err(ConfigError::NumberParseError(digits.to_owned(), e)),
    }
}

/// Parses a literal with an optional base prefix into a 32-bit integer.
pub fn parse_u32(value: &str) -> (r: Result<u32, ConfigError>)
    ensures
        match r {
            Ok(v) => literal_value(value@) == Some(v as nat),
            Err(e) => !literal_fits(value@, u32::MAX as nat) && reports_digits(e, split_base(value@).0),
        },
{
    let (digits, base) = get_base(value);
    match u32_from_str_radix(digits, base) {
        Ok(v) => Ok(v),
        Err(e) => Err(ConfigError::NumberParseError(digits.to_owned(), e)),
    }
}

} // verus!
