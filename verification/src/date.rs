//! Calendar dates as plain values.
//!
//! Input payloads carry dates as `YYYY-MM-DD` strings; storage wants a
//! structured date. [`Date`] holds year, month and day as plain integers
//! with the calendar validity invariant [`Date::wf`], and [`parse_date`] is
//! a verified parser for the string form: it accepts exactly the ten-
//! character digit/dash shape whose fields form a real calendar date, leap
//! years included.

use vstd::prelude::*;

use crate::digits::{
    all_digits, char_digit, dec_val, digit_val, is_digit, is_digit_char, lemma_dec_val_step,
};

verus! {

/// Whether year `y` is a leap year of the Gregorian calendar.
pub open spec fn is_leap_year(y: int) -> bool {
    (y % 4 == 0 && y % 100 != 0) || y % 400 == 0
}

/// The number of days of month `m` in year `y`.
pub open spec fn days_in_month(y: int, m: int) -> int {
    if m == 2 {
        if is_leap_year(y) {
            29
        } else {
            28
        }
    } else if m == 4 || m == 6 || m == 9 || m == 11 {
        30
    } else {
        31
    }
}

/// Whether `y-m-d` is a real calendar date writable as `YYYY-MM-DD`.
pub open spec fn valid_ymd(y: int, m: int, d: int) -> bool {
    0 <= y <= 9999 && 1 <= m <= 12 && 1 <= d <= days_in_month(y, m)
}

/// A calendar date, held as plain integers.
#[derive(Debug, Clone, Copy, PartialEq, Eq, Structural)]
pub struct Date {
    pub year: i32,
    pub month: u32,
    pub day: u32,
}

impl Date {
    /// The date is a real calendar date.
    pub open spec fn wf(self) -> bool {
        valid_ymd(self.year as int, self.month as int, self.day as int)
    }
}

/// How a date string can be rejected.
#[derive(Debug, Clone, Copy, PartialEq, Eq, Structural)]
pub enum DateError {
    /// Not of the ten-character `YYYY-MM-DD` digit/dash shape.
    Syntax,
    /// Shaped correctly but not a real calendar date.
    Calendar,
}

/// Whether `s` has the exact `YYYY-MM-DD` shape: ten characters, digits in
/// the year, month and day positions, dashes between.
pub open spec fn date_format_ok(s: Seq<char>) -> bool {
    &&& s.len() == 10
    &&& all_digits(s.subrange(0, 4))
    &&& s[4] == '-'
    &&& all_digits(s.subrange(5, 7))
    &&& s[7] == '-'
    &&& all_digits(s.subrange(8, 10))
}

/// The year field of a date string.
pub open spec fn year_of(s: Seq<char>) -> int {
    dec_val(s.subrange(0, 4))
}

/// The month field of a date string.
pub open spec fn month_of(s: Seq<char>) -> int {
    dec_val(s.subrange(5, 7))
}

/// The day field of a date string.
pub open spec fn day_of(s: Seq<char>) -> int {
    dec_val(s.subrange(8, 10))
}

/// The number of days of month `m` in year `y`.
fn month_days(y: i32, m: u32) -> (r: u32)
    requires
        0 <= y,
        1 <= m <= 12,
    ensures
        r == days_in_month(y as int, m as int),
{
    if m == 2 {
        if (y % 4 == 0 && y % 100 != 0) || y % 400 == 0 {
            29
        } else {
            28
        }
    } else if m == 4 || m == 6 || m == 9 || m == 11 {
        30
    } else {
        31
    }
}

/// Parse a `YYYY-MM-DD` string into a [`Date`].
///
/// Succeeds exactly on strings of the ten-character digit/dash shape whose
/// fields form a real calendar date, and then returns exactly the fields
/// written in the string.
pub fn parse_date(s: &str) -> (r: Result<Date, DateError>)
    ensures
        r == Err::<Date, DateError>(DateError::Syntax) <==> !date_format_ok(s@),
        r == Err::<Date, DateError>(DateError::Calendar) <==> (date_format_ok(s@) && !valid_ymd(
            year_of(s@),
            month_of(s@),
            day_of(s@),
        )),
        r is Ok <==> (date_format_ok(s@) && valid_ymd(year_of(s@), month_of(s@), day_of(s@))),
        r matches Ok(d) ==> d.wf() && d.year == year_of(s@) && d.month == month_of(s@) && d.day
            == day_of(s@),
{
    if s.unicode_len() != 10 {
        return Err(DateError::Syntax);
    }
    let c0 = s.get_char(0);
    let c1 = s.get_char(1);
    let c2 = s.get_char(2);
    let c3 = s.get_char(3);
    let c4 = s.get_char(4);
    let c5 = s.get_char(5);
    let c6 = s.get_char(6);
    let c7 = s.get_char(7);
    let c8 = s.get_char(8);
    let c9 = s.get_char(9);
    let shape_ok = is_digit(c0) && is_digit(c1) && is_digit(c2) && is_digit(c3) && c4 == '-'
        && is_digit(c5) && is_digit(c6) && c7 == '-' && is_digit(c8) && is_digit(c9);
    if !shape_ok {
        proof {
            assert(!date_format_ok(s@)) by {
                if date_format_ok(s@) {
                    assert(is_digit_char(s@.subrange(0, 4)[0]));
                    assert(is_digit_char(s@.subrange(0, 4)[1]));
                    assert(is_digit_char(s@.subrange(0, 4)[2]));
                    assert(is_digit_char(s@.subrange(0, 4)[3]));
                    assert(is_digit_char(s@.subrange(5, 7)[0]));
                    assert(is_digit_char(s@.subrange(5, 7)[1]));
                    assert(is_digit_char(s@.subrange(8, 10)[0]));
                    assert(is_digit_char(s@.subrange(8, 10)[1]));
                }
            }
        }
        return Err(DateError::Syntax);
    }
    proof {
        assert forall|i: int| 0 <= i < 4 implies is_digit_char(s@.subrange(0, 4)[i]) by {}
        assert forall|i: int| 0 <= i < 2 implies is_digit_char(s@.subrange(5, 7)[i]) by {}
        assert forall|i: int| 0 <= i < 2 implies is_digit_char(s@.subrange(8, 10)[i]) by {}
        assert(date_format_ok(s@));
        lemma_dec_val_step(s@, 0, 4);
        lemma_dec_val_step(s@, 0, 3);
        lemma_dec_val_step(s@, 0, 2);
        lemma_dec_val_step(s@, 0, 1);
        assert(s@.subrange(0, 0).len() == 0);
        lemma_dec_val_step(s@, 5, 7);
        lemma_dec_val_step(s@, 5, 6);
        assert(s@.subrange(5, 5).len() == 0);
        lemma_dec_val_step(s@, 8, 10);
        lemma_dec_val_step(s@, 8, 9);
        assert(s@.subrange(8, 8).len() == 0);
    }
    let year: u32 = ((char_digit(c0) * 10 + char_digit(c1)) * 10 + char_digit(c2)) * 10
        + char_digit(c3);
    let month: u32 = char_digit(c5) * 10 + char_digit(c6);
    let day: u32 = char_digit(c8) * 10 + char_digit(c9);
    if month < 1 || month > 12 {
        return Err(DateError::Calendar);
    }
    if day < 1 || day > month_days(year as i32, month) {
        return Err(DateError::Calendar);
    }
    Ok(Date { year: year as i32, month, day })
}

} // verus!
