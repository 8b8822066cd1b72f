//! Coercion of raw textual response fields into typed optional values.
//!
//! The upstream service represents "unknown" as an empty string or an
//! out-of-range value rather than omitting the field.  Each helper here
//! absorbs that inconsistency: a blank string, a malformed date, or an
//! unparseable or out-of-bounds coordinate degrades to an absent value
//! instead of failing the whole lookup.

use vstd::prelude::*;
use vstd::string::StrSliceExecFns;

use crate::text::{trim_spec, trim_str};

verus! {

/// An empty string is absent; anything else is present verbatim.
pub open spec fn blank_as_absent(s: Seq<char>) -> Option<Seq<char>> {
    if s.len() == 0 {
        None
    } else {
        Some(s)
    }
}

/// Maps an empty string to `None` and keeps any other string unchanged.
pub fn empty_as_none(s: String) -> (r: Option<String>)
    ensures
        r.deep_view() == blank_as_absent(s@),
{
    if s.as_str().is_empty() {
        None
    } else {
        Some(s)
    }
}

/// A calendar date, held as plain year, month and day numbers.
///
/// Values built by [`string_as_mdy`] always satisfy [`Date::well_formed`].
#[derive(Debug, Clone, Copy, PartialEq, Eq, Structural)]
pub struct Date {
    pub year: u16,
    pub month: u8,
    pub day: u8,
}

/// Leap years of the proleptic Gregorian calendar.
pub open spec fn is_leap_year(y: int) -> bool {
    y % 4 == 0 && (y % 100 != 0 || y % 400 == 0)
}

/// Number of days in the given month of the given year.
pub open spec fn days_in_month(y: int, m: int) -> int {
    if m == 2 {
        if is_leap_year(y) {
            29
        } else {
            28
        }
    } else if m == 4 || m == 6 || m == 9 || m == 11 {
        30
    } else {
        31
    }
}

impl Date {
    /// The month and day denote a real calendar date.
    pub open spec fn well_formed(self) -> bool {
        &&& 1 <= self.month <= 12
        &&& 1 <= self.day <= days_in_month(self.year as int, self.month as int)
    }
}

/// A decimal digit.
pub open spec fn is_digit_char(c: char) -> bool {
    0x30 <= c as u32 && c as u32 <= 0x39
}

/// Numeric value of a decimal digit character.
pub open spec fn digit_val(c: char) -> int {
    c as u32 - 0x30
}

/// The trimmed string matches the fixed `MM/DD/YYYY` pattern: two digits,
/// a slash, two digits, a slash, four digits, and nothing else.
pub open spec fn is_mdy_text(t: Seq<char>) -> bool {
    &&& t.len() == 10
    &&& is_digit_char(t[0]) && is_digit_char(t[1])
    &&& t[2] == '/'
    &&& is_digit_char(t[3]) && is_digit_char(t[4])
    &&& t[5] == '/'
    &&& is_digit_char(t[6]) && is_digit_char(t[7]) && is_digit_char(t[8]) && is_digit_char(t[9])
}

/// The date denoted by a string that satisfies [`is_mdy_text`].
pub open spec fn mdy_date_of(t: Seq<char>) -> Date {
    Date {
        year: (digit_val(t[6]) * 1000 + digit_val(t[7]) * 100 + digit_val(t[8]) * 10 + digit_val(
            t[9],
        )) as u16,
        month: (digit_val(t[0]) * 10 + digit_val(t[1])) as u8,
        day: (digit_val(t[3]) * 10 + digit_val(t[4])) as u8,
    }
}

/// Result of coercing one raw date field: the input is trimmed, must match
/// the `MM/DD/YYYY` pattern and denote a real calendar date; anything else
/// is absent.
pub open spec fn mdy_spec(s: Seq<char>) -> Option<Date> {
    let t = trim_spec(s);
    if is_mdy_text(t) && mdy_date_of(t).well_formed() {
        Some(mdy_date_of(t))
    } else {
        None
    }
}

fn days_in_month_exec(y: u16, m: u8) -> (r: u8)
    ensures
        r as int == days_in_month(y as int, m as int),
{
    if m == 2 {
        if y % 4 == 0 && (y % 100 != 0 || y % 400 == 0) {
            29
        } else {
            28
        }
    } else if m == 4 || m == 6 || m == 9 || m == 11 {
        30
    } else {
        31
    }
}

fn digit_exec(c: char) -> (r: Option<u8>)
    ensures
        r is Some <==> is_digit_char(c),
        r matches Some(v) ==> v as int == digit_val(c),
{
    let u = c as u32;
    if 0x30 <= u && u <= 0x39 {
        Some((u - 0x30) as u8)
    } else {
        None
    }
}

/// Parses one raw date field with the fixed `MM/DD/YYYY` pattern; any
/// mismatch or impossible calendar date degrades to an absent value.
pub fn string_as_mdy(s: &str) -> (r: Option<Date>)
    ensures
        r == mdy_spec(s@),
        r matches Some(d) ==> d.well_formed(),
{
    let t = trim_str(s);
    let n = t.unicode_len();
    if n != 10 {
        return None;
    }
    if t.get_char(2) != '/' || t.get_char(5) != '/' {
        return None;
    }
    let d0 = digit_exec(t.get_char(0));
    let d1 = digit_exec(t.get_char(1));
    let d3 = digit_exec(t.get_char(3));
    let d4 = digit_exec(t.get_char(4));
    let d6 = digit_exec(t.get_char(6));
    let d7 = digit_exec(t.get_char(7));
    let d8 = digit_exec(t.get_char(8));
    let d9 = digit_exec(t.get_char(9));
    match (d0, d1, d3, d4, d6, d7, d8, d9) {
        (Some(m1), Some(m2), Some(a1), Some(a2), Some(y1), Some(y2), Some(y3), Some(y4)) => {
            let month = m1 * 10 + m2;
            let day = a1 * 10 + a2;
            let year = (y1 as u16) * 1000 + (y2 as u16) * 100 + (y3 as u16) * 10 + (y4 as u16);
            if 1 <= month && month <= 12 && 1 <= day && day <= days_in_month_exec(year, month) {
                Some(Date { year, month, day })
            } else {
                None
            }
        },
        _ => None,
    }
}

/// Magnitude of an IEEE 754 double given by its bit pattern: everything but
/// the sign bit.
pub open spec fn coord_magnitude(b: u64) -> int {
    (b & 0x7FFF_FFFF_FFFF_FFFF) as int
}

/// The bit pattern encodes an IEEE 754 NaN: exponent all ones and a
/// non-zero fraction.
pub open spec fn coord_is_nan(b: u64) -> bool {
    coord_magnitude(b) > 0x7FF0_0000_0000_0000
}

/// Position of a non-NaN double on the number line, as an integer key that
/// orders bit patterns exactly as IEEE 754 orders the values they encode:
/// the magnitude, negated when the sign bit is set.  Both zeros get key 0.
pub open spec fn coord_key(b: u64) -> int {
    if b >> 63 == 0 {
        coord_magnitude(b)
    } else {
        -coord_magnitude(b)
    }
}

/// IEEE 754 `<=` on doubles given by their bit patterns; false whenever
/// either operand is NaN.
pub open spec fn coord_le(a: u64, b: u64) -> bool {
    !coord_is_nan(a) && !coord_is_nan(b) && coord_key(a) <= coord_key(b)
}

/// Result of coercing one raw coordinate field, starting from the outcome
/// of the numeric parse: an absent or NaN value, or one outside the closed
/// interval `[lo, hi]`, is absent.
pub open spec fn bounded_spec(v: Option<u64>, lo: u64, hi: u64) -> Option<u64> {
    match v {
        Some(b) => if coord_le(lo, b) && coord_le(b, hi) {
            Some(b)
        } else {
            None
        },
        None => None,
    }
}

fn coord_le_exec(a: u64, b: u64) -> (r: bool)
    ensures
        r == coord_le(a, b),
{
    let ma = a & 0x7FFF_FFFF_FFFF_FFFF;
    let mb = b & 0x7FFF_FFFF_FFFF_FFFF;
    if ma > 0x7FF0_0000_0000_0000 || mb > 0x7FF0_0000_0000_0000 {
        return false;
    }
    let neg_a = a >> 63 != 0;
    let neg_b = b >> 63 != 0;
    if neg_a && neg_b {
        mb <= ma
    } else if neg_a {
        true
    } else if neg_b {
        ma == 0 && mb == 0
    } else {
        ma <= mb
    }
}

/// Bit pattern of the double `90.0`; [`coerce_latitude`] bounds.
pub const LAT_MAX_BITS: u64 = 0x4056_8000_0000_0000;

/// Bit pattern of the double `-90.0`.
pub const LAT_MIN_BITS: u64 = 0xC056_8000_0000_0000;

/// Bit pattern of the double `180.0`; [`coerce_longitude`] bounds.
pub const LON_MAX_BITS: u64 = 0x4066_8000_0000_0000;

/// Bit pattern of the double `-180.0`.
pub const LON_MIN_BITS: u64 = 0xC066_8000_0000_0000;

/// Keeps a parsed coordinate only when it lies in the closed interval
/// `[lo, hi]` in the IEEE 754 order; all values are bit patterns of doubles.
pub fn coerce_bounded(v: Option<u64>, lo: u64, hi: u64) -> (r: Option<u64>)
    ensures
        r == bounded_spec(v, lo, hi),
{
    match v {
        Some(b) => if coord_le_exec(lo, b) && coord_le_exec(b, hi) {
            Some(b)
        } else {
            None
        },
        None => None,
    }
}

/// Keeps a parsed latitude only when it lies in `[-90, 90]` degrees.
pub fn coerce_latitude(v: Option<u64>) -> (r: Option<u64>)
    ensures
        r == bounded_spec(v, LAT_MIN_BITS, LAT_MAX_BITS),
{
    coerce_bounded(v, LAT_MIN_BITS, LAT_MAX_BITS)
}

/// Keeps a parsed longitude only when it lies in `[-180, 180]` degrees.
pub fn coerce_longitude(v: Option<u64>) -> (r: Option<u64>)
    ensures
        r == bounded_spec(v, LON_MIN_BITS, LON_MAX_BITS),
{
    coerce_bounded(v, LON_MIN_BITS, LON_MAX_BITS)
}

} // verus!
