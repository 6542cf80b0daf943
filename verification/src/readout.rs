//! The clock reading as a line of text for the display.
//!
//! Seventeen characters: `hh:mm:ss yy.mm.dd`, the hour in 24-hour form.

use crate::bits;
use crate::mcp7940m::{RtcDate, RtcHour, RtcMin, RtcMth, RtcSec, RtcYear};
use vstd::prelude::*;

verus! {

/// ASCII `'0'`.
pub const ZERO: u8 = 0x30;

/// ASCII `':'`, between hour, minutes and seconds.
pub const COLON: u8 = 0x3A;

/// ASCII `' '`, between time and date.
pub const SPACE: u8 = 0x20;

/// ASCII `'.'`, between year, month and day.
pub const DOT: u8 = 0x2E;

/// The character for one digit held in a field of at most four bits. The
/// fields are not checked to hold decimal digits: a value from 10 to 15
/// gives the character that many places after `'0'`.
pub open spec fn digit_char(v: u8) -> u8 {
    (ZERO + v) as u8
}

/// The line for a clock reading.
pub open spec fn time_text(
    hour: RtcHour,
    min: RtcMin,
    sec: RtcSec,
    year: RtcYear,
    month: RtcMth,
    day: RtcDate,
) -> Seq<u8> {
    seq![
        digit_char(bits::extract(hour.0, 4, 2)),
        digit_char(bits::extract(hour.0, 0, 4)),
        COLON,
        digit_char(bits::extract(min.0, 4, 3)),
        digit_char(bits::extract(min.0, 0, 4)),
        COLON,
        digit_char(bits::extract(sec.0, 4, 3)),
        digit_char(bits::extract(sec.0, 0, 4)),
        SPACE,
        digit_char(bits::extract(year.0, 4, 4)),
        digit_char(bits::extract(year.0, 0, 4)),
        DOT,
        digit_char(bits::extract(month.0, 4, 1)),
        digit_char(bits::extract(month.0, 0, 4)),
        DOT,
        digit_char(bits::extract(day.0, 4, 2)),
        digit_char(bits::extract(day.0, 0, 4)),
    ]
}

/// The character for the digit `v`.
fn digit(v: u8) -> (c: u8)
    requires
        v <= 0x0F,
    ensures
        c == digit_char(v),
{
    ZERO + v
}

/// Formats a clock reading as `hh:mm:ss yy.mm.dd`.
pub fn time_line(
    hour: &RtcHour,
    min: &RtcMin,
    sec: &RtcSec,
    year: &RtcYear,
    month: &RtcMth,
    day: &RtcDate,
) -> (line: [u8; 17])
    ensures
        line@ == time_text(*hour, *min, *sec, *year, *month, *day),
{
    let line = [
        digit(hour.get_hour_tens_24()),
        digit(hour.get_hour_ones()),
        COLON,
        digit(min.get_min_tens()),
        digit(min.get_min_ones()),
        COLON,
        digit(sec.get_sec_tens()),
        digit(sec.get_sec_ones()),
        SPACE,
        digit(year.get_year_tens()),
        digit(year.get_year_ones()),
        DOT,
        digit(month.get_month_tens()),
        digit(month.get_month_ones()),
        DOT,
        digit(day.get_date_tens()),
        digit(day.get_date_ones()),
    ];
    proof {
        assert(line@ =~= time_text(*hour, *min, *sec, *year, *month, *day));
    }
    line
}

} // verus!
