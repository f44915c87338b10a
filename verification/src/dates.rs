//! Parsing of the platform's `yyyy-mm-dd` date strings.

use vstd::prelude::*;
use crate::digits::{spec_digit_val, spec_is_digit};

verus! {

/// Whether a string has the exact `yyyy-mm-dd` shape: ten characters,
/// hyphens at the two separator positions, digits everywhere else.
pub open spec fn spec_is_iso_date(s: Seq<char>) -> bool {
    &&& s.len() == 10
    &&& spec_is_digit(s[0])
    &&& spec_is_digit(s[1])
    &&& spec_is_digit(s[2])
    &&& spec_is_digit(s[3])
    &&& s[4] == '-'
    &&& spec_is_digit(s[5])
    &&& spec_is_digit(s[6])
    &&& s[7] == '-'
    &&& spec_is_digit(s[8])
    &&& spec_is_digit(s[9])
}

/// The year of a well-shaped date string.
pub open spec fn spec_date_year(s: Seq<char>) -> int {
    1000 * spec_digit_val(s[0]) + 100 * spec_digit_val(s[1]) + 10 * spec_digit_val(s[2])
        + spec_digit_val(s[3])
}

/// The month of a well-shaped date string.
pub open spec fn spec_date_month(s: Seq<char>) -> int {
    10 * spec_digit_val(s[5]) + spec_digit_val(s[6])
}

/// The day of a well-shaped date string.
pub open spec fn spec_date_day(s: Seq<char>) -> int {
    10 * spec_digit_val(s[8]) + spec_digit_val(s[9])
}

fn digit_at(s: &str, i: usize) -> (r: Option<u16>)
    requires
        i < s@.len(),
    ensures
        match r {
            Some(d) => spec_is_digit(s@[i as int]) && d == spec_digit_val(s@[i as int]),
            None => !spec_is_digit(s@[i as int]),
        },
{
    let c = s.get_char(i);
    if c < '0' || c > '9' {
        None
    } else {
        Some(((c as u32) - ('0' as u32)) as u16)
    }
}

/// Splits a `yyyy-mm-dd` date string into its year, month and day, or
/// `None` when the string does not have that shape. A malformed date is
/// reported, never a fabricated one.
pub fn parse_iso_date(s: &str) -> (r: Option<(u16, u8, u8)>)
    ensures
        match r {
            Some(ymd) => spec_is_iso_date(s@) && ymd.0 == spec_date_year(s@) && ymd.1
                == spec_date_month(s@) && ymd.2 == spec_date_day(s@),
            None => !spec_is_iso_date(s@),
        },
{
    if s.unicode_len() != 10 {
        return None;
    }
    if s.get_char(4) != '-' || s.get_char(7) != '-' {
        return None;
    }
    let y0 = match digit_at(s, 0) { Some(d) => d, None => { return None } };
    let y1 = match digit_at(s, 1) { Some(d) => d, None => { return None } };
    let y2 = match digit_at(s, 2) { Some(d) => d, None => { return None } };
    let y3 = match digit_at(s, 3) { Some(d) => d, None => { return None } };
    let m0 = match digit_at(s, 5) { Some(d) => d, None => { return None } };
    let m1 = match digit_at(s, 6) { Some(d) => d, None => { return None } };
    let d0 = match digit_at(s, 8) { Some(d) => d, None => { return None } };
    let d1 = match digit_at(s, 9) { Some(d) => d, None => { return None } };
    let year: u16 = 1000 * y0 + 100 * y1 + 10 * y2 + y3;
    let month: u8 = (10 * m0 + m1) as u8;
    let day: u8 = (10 * d0 + d1) as u8;
    Some((year, month, day))
}

} // verus!
