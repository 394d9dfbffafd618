//! The timestamp of an error payload: a UTC instant in ISO 8601 form with
//! milliseconds, such as `2018-01-26T18:30:09.453Z`.

use vstd::prelude::*;
use chrono::{SecondsFormat, Utc};

verus! {

/// Whether `c` is one of the ten decimal digits.
pub open spec fn is_digit(c: char) -> bool {
    '0' <= c && c <= '9'
}

/// The number that the digit `c` stands for.
pub open spec fn digit_value(c: char) -> int {
    c as int - '0' as int
}

/// Whether `s[i]` and `s[i + 1]` are digits that spell a number from `low` to `high`.
pub open spec fn is_field(s: Seq<char>, i: int, low: int, high: int) -> bool {
    &&& is_digit(s[i])
    &&& is_digit(s[i + 1])
    &&& low <= 10 * digit_value(s[i]) + digit_value(s[i + 1]) <= high
}

/// Whether every character of `s` is a digit.
pub open spec fn all_digits(s: Seq<char>) -> bool {
    forall|i: int| 0 <= i < s.len() ==> is_digit(#[trigger] s[i])
}

/// Whether `s` spells a year: four digits, or for a year past 9999 a plus
/// sign and five digits or more.
pub open spec fn is_year(s: Seq<char>) -> bool {
    ||| s.len() == 4 && all_digits(s)
    ||| s.len() >= 6 && s[0] == '+' && all_digits(s.subrange(1, s.len() as int))
}

/// Whether `s` is what follows the year: `-MM-DDTHH:MM:SS.mmmZ`, with month,
/// day, hour, minute and second in their ranges.
pub open spec fn is_rest_of_timestamp(s: Seq<char>) -> bool {
    &&& s.len() == 20
    &&& s[0] == '-'
    &&& is_field(s, 1, 1, 12)
    &&& s[3] == '-'
    &&& is_field(s, 4, 1, 31)
    &&& s[6] == 'T'
    &&& is_field(s, 7, 0, 23)
    &&& s[9] == ':'
    &&& is_field(s, 10, 0, 59)
    &&& s[12] == ':'
    &&& is_field(s, 13, 0, 59)
    &&& s[15] == '.'
    &&& is_digit(s[16])
    &&& is_digit(s[17])
    &&& is_digit(s[18])
    &&& s[19] == 'Z'
}

/// Whether `s` is a UTC timestamp with milliseconds: a year, then
/// `-MM-DDTHH:MM:SS.mmmZ`.
pub open spec fn is_utc_timestamp(s: Seq<char>) -> bool {
    &&& s.len() >= 24
    &&& is_year(s.subrange(0, s.len() - 20))
    &&& is_rest_of_timestamp(s.subrange(s.len() - 20, s.len() as int))
}

/// Whether the character of `s` at `i` is a digit.
fn digit_at(s: &str, i: usize) -> (b: bool)
    requires
        i < s@.len(),
    ensures
        b == is_digit(s@[i as int]),
{
    let c = s.get_char(i);
    '0' <= c && c <= '9'
}

/// Whether the characters of `s` from `from` up to `to` are all digits.
fn digits_between(s: &str, from: usize, to: usize) -> (b: bool)
    requires
        from <= to <= s@.len(),
    ensures
        b == all_digits(s@.subrange(from as int, to as int)),
{
    let mut i: usize = from;
    while i < to
        invariant
            from <= i <= to <= s@.len(),
            all_digits(s@.subrange(from as int, i as int)),
        decreases to - i,
    {
        if !digit_at(s, i) {
            assert(!is_digit(s@.subrange(from as int, to as int)[i - from]));
            return false;
        }
        assert forall|k: int| 0 <= k < i + 1 - from implies is_digit(
            #[trigger] s@.subrange(from as int, i + 1)[k],
        ) by {
            if k < i - from {
                assert(s@.subrange(from as int, i as int)[k] == s@[from + k]);
            }
        }
        i = i + 1;
    }
    true
}

/// Whether the characters of `s` at `i` and `i + 1` spell a number from `low` to `high`.
fn field_at(s: &str, i: usize, low: u32, high: u32) -> (b: bool)
    requires
        i + 1 < s@.len() <= usize::MAX,
    ensures
        b == is_field(s@, i as int, low as int, high as int),
{
    if !digit_at(s, i) || !digit_at(s, i + 1) {
        return false;
    }
    let tens: u32 = s.get_char(i) as u32 - '0' as u32;
    let ones: u32 = s.get_char(i + 1) as u32 - '0' as u32;
    let value: u32 = 10 * tens + ones;
    low <= value && value <= high
}

/// Whether the first `len` characters of `s` spell a year.
fn year_before(s: &str, len: usize) -> (b: bool)
    requires
        4 <= len <= s@.len(),
    ensures
        b == is_year(s@.subrange(0, len as int)),
{
    if len == 4 {
        digits_between(s, 0, 4)
    } else if len >= 6 && s.get_char(0) == '+' {
        assert(s@.subrange(0, len as int).subrange(1, len as int) == s@.subrange(1, len as int));
        digits_between(s, 1, len)
    } else {
        false
    }
}

/// Whether the twenty characters of `s` from `at` on follow a year as the
/// rest of a timestamp does.
fn rest_from(s: &str, at: usize) -> (b: bool)
    requires
        at + 20 == s@.len() <= usize::MAX,
    ensures
        b == is_rest_of_timestamp(s@.subrange(at as int, s@.len() as int)),
{
    let date = s.get_char(at) == '-' && field_at(s, at + 1, 1, 12) && s.get_char(at + 3) == '-'
        && field_at(s, at + 4, 1, 31);
    let time = s.get_char(at + 6) == 'T' && field_at(s, at + 7, 0, 23) && s.get_char(at + 9) == ':'
        && field_at(s, at + 10, 0, 59) && s.get_char(at + 12) == ':' && field_at(s, at + 13, 0, 59);
    let millis = s.get_char(at + 15) == '.' && digit_at(s, at + 16) && digit_at(s, at + 17)
        && digit_at(s, at + 18) && s.get_char(at + 19) == 'Z';
    date && time && millis
}

/// Whether `s` is a UTC timestamp with milliseconds.
pub fn is_timestamp(s: &str) -> (b: bool)
    ensures
        b == is_utc_timestamp(s@),
{
    let len = s.unicode_len();
    if len < 24 {
        return false;
    }
    year_before(s, len - 20) && rest_from(s, len - 20)
}

/// The current instant as a timestamp.
///
/// Trusted: the body asks chrono for `Utc::now()` and formats it with
/// `DateTime::to_rfc3339_opts(SecondsFormat::Millis, true)`. The contract
/// claims the shape that chrono's formatter writes for a UTC instant at or
/// after 1970: the year in four digits (with a plus sign and more digits past
/// 9999), two-digit fields in their ranges, three digits of milliseconds and
/// a closing `Z`. Which instant it is depends on the clock and is not stated.
/// chrono takes the clock to stand at or after 1970.
#[verifier::external_body]
pub(crate) fn get_now_str() -> (now: String)
    ensures
        is_utc_timestamp(now@),
{
    Utc::now().to_rfc3339_opts(SecondsFormat::Millis, true)
}

} // verus!
