use rtc_lcd::readout::time_line;
use rtc_lcd::mcp7940m::{RtcDate, RtcHour, RtcMin, RtcMth, RtcSec, RtcYear};

#[test]
fn a_reading_is_laid_out_as_time_then_date() {
    let line = time_line(
        &RtcHour(0x23),
        &RtcMin(0x59),
        &RtcSec(0x07),
        &RtcYear(0x24),
        &RtcMth(0x12),
        &RtcDate(0x31),
    );
    assert_eq!(&line, b"23:59:07 24.12.31");
}

#[test]
fn status_bits_do_not_show_in_the_text() {
    // oscillator enable in the seconds, leap year in the month
    let line = time_line(
        &RtcHour(0x08),
        &RtcMin(0x30),
        &RtcSec(0x80 | 0x45),
        &RtcYear(0x99),
        &RtcMth(0x20 | 0x02),
        &RtcDate(0x09),
    );
    assert_eq!(&line, b"08:30:45 99.02.09");
}

#[test]
fn the_hour_is_read_in_24_hour_form() {
    // bits 5:4 are the tens, whatever bit 6 says
    let line = time_line(
        &RtcHour(0x40 | 0x20 | 0x01),
        &RtcMin(0x00),
        &RtcSec(0x00),
        &RtcYear(0x00),
        &RtcMth(0x01),
        &RtcDate(0x01),
    );
    assert_eq!(&line, b"21:00:00 00.01.01");
}

#[test]
fn a_field_that_is_no_decimal_digit_gives_the_character_after_nine() {
    let line = time_line(
        &RtcHour(0x0A),
        &RtcMin(0x0F),
        &RtcSec(0x00),
        &RtcYear(0xF0),
        &RtcMth(0x00),
        &RtcDate(0x00),
    );
    assert_eq!(&line, b"0::0?:00 ?0.00.00");
}
