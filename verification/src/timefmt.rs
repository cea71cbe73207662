//! Wall-clock timestamps and their fixed-width rendering.
//!
//! A quote line carries the UTC time of its fetch as `YYYY/MM/DD HH:MM:SS`.
//! The timestamp is held as plain calendar fields with ranged invariants, and
//! the rendering is verified digit by digit.

use vstd::prelude::*;
use vstd::string::*;

verus! {

/// A UTC wall-clock instant, split into calendar fields.
#[derive(Clone, Copy, Debug)]
pub struct Timestamp {
    pub year: u16,
    pub month: u8,
    pub day: u8,
    pub hour: u8,
    pub minute: u8,
    pub second: u8,
}

impl Timestamp {
    /// Every field is inside the range the rendering relies on: the year has
    /// at most four digits and the time fields are within a civil clock.
    pub open spec fn wf(self) -> bool {
        &&& self.year <= 9999
        &&& 1 <= self.month <= 12
        &&& 1 <= self.day <= 31
        &&& self.hour < 24
        &&& self.minute < 60
        &&& self.second < 60
    }

    /// Builds a well-formed timestamp from raw clock fields, clamping each
    /// into its range so that an absurd clock still yields a line of the
    /// documented shape.
    pub fn from_fields(year: i64, month: u32, day: u32, hour: u32, minute: u32, second: u32) -> (ts:
        Timestamp)
        ensures
            ts.wf(),
            ts.year as int == clamp(year as int, 0, 9999),
            ts.month as int == clamp(month as int, 1, 12),
            ts.day as int == clamp(day as int, 1, 31),
            ts.hour as int == clamp(hour as int, 0, 23),
            ts.minute as int == clamp(minute as int, 0, 59),
            ts.second as int == clamp(second as int, 0, 59),
    {
        Timestamp {
            year: clamp_i64(year, 0, 9999) as u16,
            month: clamp_u32(month, 1, 12) as u8,
            day: clamp_u32(day, 1, 31) as u8,
            hour: clamp_u32(hour, 0, 23) as u8,
            minute: clamp_u32(minute, 0, 59) as u8,
            second: clamp_u32(second, 0, 59) as u8,
        }
    }
}

/// The value `v` forced into `[lo, hi]`.
pub open spec fn clamp(v: int, lo: int, hi: int) -> int {
    if v < lo {
        lo
    } else if v > hi {
        hi
    } else {
        v
    }
}

fn clamp_i64(v: i64, lo: i64, hi: i64) -> (r: i64)
    requires
        lo <= hi,
    ensures
        r == clamp(v as int, lo as int, hi as int),
{
    if v < lo {
        lo
    } else if v > hi {
        hi
    } else {
        v
    }
}

fn clamp_u32(v: u32, lo: u32, hi: u32) -> (r: u32)
    requires
        lo <= hi,
    ensures
        r == clamp(v as int, lo as int, hi as int),
{
    if v < lo {
        lo
    } else if v > hi {
        hi
    } else {
        v
    }
}

/// The decimal digit character for `d` (meaningful for `0 <= d <= 9`).
pub open spec fn digit_char(d: int) -> char {
    if d == 0 {
        '0'
    } else if d == 1 {
        '1'
    } else if d == 2 {
        '2'
    } else if d == 3 {
        '3'
    } else if d == 4 {
        '4'
    } else if d == 5 {
        '5'
    } else if d == 6 {
        '6'
    } else if d == 7 {
        '7'
    } else if d == 8 {
        '8'
    } else {
        '9'
    }
}

/// `n` rendered as exactly two decimal digits, zero-padded (for `n < 100`).
pub open spec fn two_digits_spec(n: int) -> Seq<char> {
    seq![digit_char(n / 10), digit_char(n % 10)]
}

/// `n` rendered as exactly four decimal digits, zero-padded (for `n < 10000`).
pub open spec fn four_digits_spec(n: int) -> Seq<char> {
    seq![
        digit_char(n / 1000),
        digit_char((n / 100) % 10),
        digit_char((n / 10) % 10),
        digit_char(n % 10),
    ]
}

/// The rendering of a well-formed timestamp: `YYYY/MM/DD HH:MM:SS`.
pub open spec fn timestamp_spec(ts: Timestamp) -> Seq<char> {
    four_digits_spec(ts.year as int) + seq!['/'] + two_digits_spec(ts.month as int) + seq!['/']
        + two_digits_spec(ts.day as int) + seq![' '] + two_digits_spec(ts.hour as int) + seq![':']
        + two_digits_spec(ts.minute as int) + seq![':'] + two_digits_spec(ts.second as int)
}

/// Whether `c` is a decimal digit character.
pub open spec fn is_digit(c: char) -> bool {
    c == '0' || c == '1' || c == '2' || c == '3' || c == '4' || c == '5' || c == '6' || c == '7'
        || c == '8' || c == '9'
}

/// Digit characters are digits.
pub proof fn lemma_digit_char_is_digit(d: int)
    ensures
        is_digit(digit_char(d)),
{
}

/// A two-digit rendering is two digit characters.
pub proof fn lemma_two_digits_shape(n: int)
    ensures
        two_digits_spec(n).len() == 2,
        forall|i: int| 0 <= i < 2 ==> is_digit(two_digits_spec(n)[i]),
{
    assert forall|i: int| 0 <= i < 2 implies is_digit(two_digits_spec(n)[i]) by {
        lemma_digit_char_is_digit(n / 10);
        lemma_digit_char_is_digit(n % 10);
    }
}

/// A four-digit rendering is four digit characters.
pub proof fn lemma_four_digits_shape(n: int)
    ensures
        four_digits_spec(n).len() == 4,
        forall|i: int| 0 <= i < 4 ==> is_digit(four_digits_spec(n)[i]),
{
    assert forall|i: int| 0 <= i < 4 implies is_digit(four_digits_spec(n)[i]) by {
        lemma_digit_char_is_digit(n / 1000);
        lemma_digit_char_is_digit((n / 100) % 10);
        lemma_digit_char_is_digit((n / 10) % 10);
        lemma_digit_char_is_digit(n % 10);
    }
}

/// The rendering of any timestamp is nineteen characters in the shape
/// `dddd/dd/dd dd:dd:dd`, digits where digits belong.
pub proof fn lemma_timestamp_shape(ts: Timestamp)
    ensures
        timestamp_spec(ts).len() == 19,
        forall|i: int|
            #![trigger timestamp_spec(ts)[i]]
            (0 <= i < 4 || 5 <= i < 7 || 8 <= i < 10 || 11 <= i < 13 || 14 <= i < 16 || 17 <= i
                < 19) ==> is_digit(timestamp_spec(ts)[i]),
        timestamp_spec(ts)[4] == '/',
        timestamp_spec(ts)[7] == '/',
        timestamp_spec(ts)[10] == ' ',
        timestamp_spec(ts)[13] == ':',
        timestamp_spec(ts)[16] == ':',
{
    lemma_four_digits_shape(ts.year as int);
    lemma_two_digits_shape(ts.month as int);
    lemma_two_digits_shape(ts.day as int);
    lemma_two_digits_shape(ts.hour as int);
    lemma_two_digits_shape(ts.minute as int);
    lemma_two_digits_shape(ts.second as int);
}

fn digit_str(d: u8) -> (r: &'static str)
    requires
        d < 10,
    ensures
        r@ == seq![digit_char(d as int)],
{
    proof {
        reveal_strlit("0");
        reveal_strlit("1");
        reveal_strlit("2");
        reveal_strlit("3");
        reveal_strlit("4");
        reveal_strlit("5");
        reveal_strlit("6");
        reveal_strlit("7");
        reveal_strlit("8");
        reveal_strlit("9");
    }
    let r: &'static str = if d == 0 {
        "0"
    } else if d == 1 {
        "1"
    } else if d == 2 {
        "2"
    } else if d == 3 {
        "3"
    } else if d == 4 {
        "4"
    } else if d == 5 {
        "5"
    } else if d == 6 {
        "6"
    } else if d == 7 {
        "7"
    } else if d == 8 {
        "8"
    } else {
        "9"
    };
    proof {
        assert(r@ =~= seq![digit_char(d as int)]);
    }
    r
}

fn two_digits(n: u8) -> (r: String)
    requires
        n < 100,
    ensures
        r@ == two_digits_spec(n as int),
{
    let r = String::from_str(digit_str(n / 10)).concat(digit_str(n % 10));
    proof {
        assert(r@ =~= two_digits_spec(n as int));
    }
    r
}

fn four_digits(n: u16) -> (r: String)
    requires
        n < 10000,
    ensures
        r@ == four_digits_spec(n as int),
{
    let mut r = String::from_str(digit_str((n / 1000) as u8));
    r.append(digit_str(((n / 100) % 10) as u8));
    r.append(digit_str(((n / 10) % 10) as u8));
    r.append(digit_str((n % 10) as u8));
    proof {
        assert(r@ =~= four_digits_spec(n as int));
    }
    r
}

/// Renders a well-formed timestamp as `YYYY/MM/DD HH:MM:SS`.
pub fn format_timestamp(ts: &Timestamp) -> (r: String)
    requires
        ts.wf(),
    ensures
        r@ == timestamp_spec(*ts),
{
    proof {
        reveal_strlit("/");
        reveal_strlit(" ");
        reveal_strlit(":");
    }
    let mut r = four_digits(ts.year);
    r.append("/");
    r.append(two_digits(ts.month).as_str());
    r.append("/");
    r.append(two_digits(ts.day).as_str());
    r.append(" ");
    r.append(two_digits(ts.hour).as_str());
    r.append(":");
    r.append(two_digits(ts.minute).as_str());
    r.append(":");
    r.append(two_digits(ts.second).as_str());
    proof {
        assert(r@ =~= timestamp_spec(*ts));
    }
    r
}

} // verus!
