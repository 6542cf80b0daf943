use rtc_lcd::mcp7940m::{Alm0Date, Alm0Hour, Alm0Min, Alm0Mth, Alm0Sec, Alm0Wkday, Alm1Date, Alm1Hour, Alm1Min, Alm1Mth, Alm1Sec, Alm1Wkday, Control, OscTrim, RtcDate, RtcHour, RtcMin, RtcMth, RtcSec, RtcWkday, RtcYear, SquareWaveFreq};

/// The bits of a field `width` wide whose lowest bit is `shift`.
fn mask(shift: u8, width: u8) -> u8 {
    (0xFFu8 >> (8 - width)) << shift
}

#[test]
fn rtc_sec_fields_follow_the_bit_layout() {
    for raw in 0u8..=255 {
        let reg = RtcSec(raw);
        assert_eq!(reg.get_sec_ones(), (raw & mask(0, 4)) >> 0);
        assert_eq!(reg.get_sec_tens(), (raw & mask(4, 3)) >> 4);
        assert_eq!(reg.get_osc_enabled(), (raw & mask(7, 1)) >> 7);
        for v in 0u8..=255 {
            let mut reg = RtcSec(raw);
            reg.set_sec_ones(v);
            assert_eq!(reg.0 & !mask(0, 4), raw & !mask(0, 4));
            assert_eq!(reg.get_sec_ones(), v & (mask(0, 4) >> 0));
            let mut reg = RtcSec(raw);
            reg.set_sec_tens(v);
            assert_eq!(reg.0 & !mask(4, 3), raw & !mask(4, 3));
            assert_eq!(reg.get_sec_tens(), v & (mask(4, 3) >> 4));
            let mut reg = RtcSec(raw);
            reg.set_osc_enabled(v);
            assert_eq!(reg.0 & !mask(7, 1), raw & !mask(7, 1));
            assert_eq!(reg.get_osc_enabled(), v & (mask(7, 1) >> 7));
        }
    }
}

#[test]
fn rtc_min_fields_follow_the_bit_layout() {
    for raw in 0u8..=255 {
        let reg = RtcMin(raw);
        assert_eq!(reg.get_min_ones(), (raw & mask(0, 4)) >> 0);
        assert_eq!(reg.get_min_tens(), (raw & mask(4, 3)) >> 4);
        for v in 0u8..=255 {
            let mut reg = RtcMin(raw);
            reg.set_min_ones(v);
            assert_eq!(reg.0 & !mask(0, 4), raw & !mask(0, 4));
            assert_eq!(reg.get_min_ones(), v & (mask(0, 4) >> 0));
            let mut reg = RtcMin(raw);
            reg.set_min_tens(v);
            assert_eq!(reg.0 & !mask(4, 3), raw & !mask(4, 3));
            assert_eq!(reg.get_min_tens(), v & (mask(4, 3) >> 4));
        }
    }
}

#[test]
fn rtc_hour_fields_follow_the_bit_layout() {
    for raw in 0u8..=255 {
        let reg = RtcHour(raw);
        assert_eq!(reg.get_hour_ones(), (raw & mask(0, 4)) >> 0);
        assert_eq!(reg.get_hour_tens_24(), (raw & mask(4, 2)) >> 4);
        assert_eq!(reg.get_hour_tens_12(), (raw & mask(4, 1)) >> 4);
        assert_eq!(reg.get_24fmt(), (raw & mask(6, 1)) >> 6);
        assert_eq!(reg.get_is_pm(), (raw & mask(5, 1)) >> 5);
        for v in 0u8..=255 {
            let mut reg = RtcHour(raw);
            reg.set_hour_ones(v);
            assert_eq!(reg.0 & !mask(0, 4), raw & !mask(0, 4));
            assert_eq!(reg.get_hour_ones(), v & (mask(0, 4) >> 0));
            let mut reg = RtcHour(raw);
            reg.set_hour_tens_24(v);
            assert_eq!(reg.0 & !mask(4, 2), raw & !mask(4, 2));
            assert_eq!(reg.get_hour_tens_24(), v & (mask(4, 2) >> 4));
            let mut reg = RtcHour(raw);
            reg.set_hour_tens_12(v);
            assert_eq!(reg.0 & !mask(4, 1), raw & !mask(4, 1));
            assert_eq!(reg.get_hour_tens_12(), v & (mask(4, 1) >> 4));
            let mut reg = RtcHour(raw);
            reg.set_24fmt(v);
            assert_eq!(reg.0 & !mask(6, 1), raw & !mask(6, 1));
            assert_eq!(reg.get_24fmt(), v & (mask(6, 1) >> 6));
            let mut reg = RtcHour(raw);
            reg.set_is_pm(v);
            assert_eq!(reg.0 & !mask(5, 1), raw & !mask(5, 1));
            assert_eq!(reg.get_is_pm(), v & (mask(5, 1) >> 5));
        }
    }
}

#[test]
fn rtc_wkday_fields_follow_the_bit_layout() {
    for raw in 0u8..=255 {
        let reg = RtcWkday(raw);
        assert_eq!(reg.get_wkday(), (raw & mask(0, 3)) >> 0);
        assert_eq!(reg.get_osc_run(), (raw & mask(5, 1)) >> 5);
        for v in 0u8..=255 {
            let mut reg = RtcWkday(raw);
            reg.set_wkday(v);
            assert_eq!(reg.0 & !mask(0, 3), raw & !mask(0, 3));
            assert_eq!(reg.get_wkday(), v & (mask(0, 3) >> 0));
        }
    }
}

#[test]
fn rtc_date_fields_follow_the_bit_layout() {
    for raw in 0u8..=255 {
        let reg = RtcDate(raw);
        assert_eq!(reg.get_date_ones(), (raw & mask(0, 4)) >> 0);
        assert_eq!(reg.get_date_tens(), (raw & mask(4, 2)) >> 4);
        for v in 0u8..=255 {
            let mut reg = RtcDate(raw);
            reg.set_date_ones(v);
            assert_eq!(reg.0 & !mask(0, 4), raw & !mask(0, 4));
            assert_eq!(reg.get_date_ones(), v & (mask(0, 4) >> 0));
            let mut reg = RtcDate(raw);
            reg.set_date_tens(v);
            assert_eq!(reg.0 & !mask(4, 2), raw & !mask(4, 2));
            assert_eq!(reg.get_date_tens(), v & (mask(4, 2) >> 4));
        }
    }
}

#[test]
fn rtc_mth_fields_follow_the_bit_layout() {
    for raw in 0u8..=255 {
        let reg = RtcMth(raw);
        assert_eq!(reg.get_month_ones(), (raw & mask(0, 4)) >> 0);
        assert_eq!(reg.get_month_tens(), (raw & mask(4, 1)) >> 4);
        assert_eq!(reg.get_leap_year(), (raw & mask(5, 1)) >> 5);
        for v in 0u8..=255 {
            let mut reg = RtcMth(raw);
            reg.set_month_ones(v);
            assert_eq!(reg.0 & !mask(0, 4), raw & !mask(0, 4));
            assert_eq!(reg.get_month_ones(), v & (mask(0, 4) >> 0));
            let mut reg = RtcMth(raw);
            reg.set_month_tens(v);
            assert_eq!(reg.0 & !mask(4, 1), raw & !mask(4, 1));
            assert_eq!(reg.get_month_tens(), v & (mask(4, 1) >> 4));
        }
    }
}

#[test]
fn rtc_year_fields_follow_the_bit_layout() {
    for raw in 0u8..=255 {
        let reg = RtcYear(raw);
        assert_eq!(reg.get_year_ones(), (raw & mask(0, 4)) >> 0);
        assert_eq!(reg.get_year_tens(), (raw & mask(4, 4)) >> 4);
        for v in 0u8..=255 {
            let mut reg = RtcYear(raw);
            reg.set_year_ones(v);
            assert_eq!(reg.0 & !mask(0, 4), raw & !mask(0, 4));
            assert_eq!(reg.get_year_ones(), v & (mask(0, 4) >> 0));
            let mut reg = RtcYear(raw);
            reg.set_year_tens(v);
            assert_eq!(reg.0 & !mask(4, 4), raw & !mask(4, 4));
            assert_eq!(reg.get_year_tens(), v & (mask(4, 4) >> 4));
        }
    }
}

#[test]
fn control_fields_follow_the_bit_layout() {
    for raw in 0u8..=255 {
        let reg = Control(raw);
        assert_eq!(reg.get_out(), (raw & mask(7, 1)) >> 7);
        assert_eq!(reg.get_sqw_enabled(), (raw & mask(6, 1)) >> 6);
        assert_eq!(reg.get_alm1_enabled(), (raw & mask(5, 1)) >> 5);
        assert_eq!(reg.get_alm0_enabled(), (raw & mask(4, 1)) >> 4);
        assert_eq!(reg.get_ext_osc(), (raw & mask(3, 1)) >> 3);
        assert_eq!(reg.get_coarse_trim(), (raw & mask(2, 1)) >> 2);
        for v in 0u8..=255 {
            let mut reg = Control(raw);
            reg.set_out(v);
            assert_eq!(reg.0 & !mask(7, 1), raw & !mask(7, 1));
            assert_eq!(reg.get_out(), v & (mask(7, 1) >> 7));
            let mut reg = Control(raw);
            reg.set_sqw_enabled(v);
            assert_eq!(reg.0 & !mask(6, 1), raw & !mask(6, 1));
            assert_eq!(reg.get_sqw_enabled(), v & (mask(6, 1) >> 6));
            let mut reg = Control(raw);
            reg.set_alm1_enabled(v);
            assert_eq!(reg.0 & !mask(5, 1), raw & !mask(5, 1));
            assert_eq!(reg.get_alm1_enabled(), v & (mask(5, 1) >> 5));
            let mut reg = Control(raw);
            reg.set_alm0_enabled(v);
            assert_eq!(reg.0 & !mask(4, 1), raw & !mask(4, 1));
            assert_eq!(reg.get_alm0_enabled(), v & (mask(4, 1) >> 4));
            let mut reg = Control(raw);
            reg.set_ext_osc(v);
            assert_eq!(reg.0 & !mask(3, 1), raw & !mask(3, 1));
            assert_eq!(reg.get_ext_osc(), v & (mask(3, 1) >> 3));
            let mut reg = Control(raw);
            reg.set_coarse_trim(v);
            assert_eq!(reg.0 & !mask(2, 1), raw & !mask(2, 1));
            assert_eq!(reg.get_coarse_trim(), v & (mask(2, 1) >> 2));
        }
    }
}

#[test]
fn osc_trim_fields_follow_the_bit_layout() {
    for raw in 0u8..=255 {
        let reg = OscTrim(raw);
        assert_eq!(reg.get_sign(), (raw & mask(7, 1)) >> 7);
        assert_eq!(reg.get_trim_val(), (raw & mask(0, 7)) >> 0);
    }
}

#[test]
fn alm0_sec_fields_follow_the_bit_layout() {
    for raw in 0u8..=255 {
        let reg = Alm0Sec(raw);
        assert_eq!(reg.get_sec_ones(), (raw & mask(0, 4)) >> 0);
        assert_eq!(reg.get_sec_tens(), (raw & mask(4, 3)) >> 4);
        for v in 0u8..=255 {
            let mut reg = Alm0Sec(raw);
            reg.set_sec_ones(v);
            assert_eq!(reg.0 & !mask(0, 4), raw & !mask(0, 4));
            assert_eq!(reg.get_sec_ones(), v & (mask(0, 4) >> 0));
            let mut reg = Alm0Sec(raw);
            reg.set_sec_tens(v);
            assert_eq!(reg.0 & !mask(4, 3), raw & !mask(4, 3));
            assert_eq!(reg.get_sec_tens(), v & (mask(4, 3) >> 4));
        }
    }
}

#[test]
fn alm0_min_fields_follow_the_bit_layout() {
    for raw in 0u8..=255 {
        let reg = Alm0Min(raw);
        assert_eq!(reg.get_min_ones(), (raw & mask(0, 4)) >> 0);
        assert_eq!(reg.get_min_tens(), (raw & mask(4, 3)) >> 4);
        for v in 0u8..=255 {
            let mut reg = Alm0Min(raw);
            reg.set_min_ones(v);
            assert_eq!(reg.0 & !mask(0, 4), raw & !mask(0, 4));
            assert_eq!(reg.get_min_ones(), v & (mask(0, 4) >> 0));
            let mut reg = Alm0Min(raw);
            reg.set_min_tens(v);
            assert_eq!(reg.0 & !mask(4, 3), raw & !mask(4, 3));
            assert_eq!(reg.get_min_tens(), v & (mask(4, 3) >> 4));
        }
    }
}

#[test]
fn alm0_hour_fields_follow_the_bit_layout() {
    for raw in 0u8..=255 {
        let reg = Alm0Hour(raw);
        assert_eq!(reg.get_hour_ones(), (raw & mask(0, 4)) >> 0);
        assert_eq!(reg.get_hour_tens_24(), (raw & mask(4, 2)) >> 4);
        assert_eq!(reg.get_hour_tens_12(), (raw & mask(4, 1)) >> 4);
        assert_eq!(reg.get_24fmt(), (raw & mask(6, 1)) >> 6);
        assert_eq!(reg.get_is_pm(), (raw & mask(5, 1)) >> 5);
        for v in 0u8..=255 {
            let mut reg = Alm0Hour(raw);
            reg.set_hour_ones(v);
            assert_eq!(reg.0 & !mask(0, 4), raw & !mask(0, 4));
            assert_eq!(reg.get_hour_ones(), v & (mask(0, 4) >> 0));
            let mut reg = Alm0Hour(raw);
            reg.set_hour_tens_24(v);
            assert_eq!(reg.0 & !mask(4, 2), raw & !mask(4, 2));
            assert_eq!(reg.get_hour_tens_24(), v & (mask(4, 2) >> 4));
            let mut reg = Alm0Hour(raw);
            reg.set_hour_tens_12(v);
            assert_eq!(reg.0 & !mask(4, 1), raw & !mask(4, 1));
            assert_eq!(reg.get_hour_tens_12(), v & (mask(4, 1) >> 4));
            let mut reg = Alm0Hour(raw);
            reg.set_24fmt(v);
            assert_eq!(reg.0 & !mask(6, 1), raw & !mask(6, 1));
            assert_eq!(reg.get_24fmt(), v & (mask(6, 1) >> 6));
            let mut reg = Alm0Hour(raw);
            reg.set_is_pm(v);
            assert_eq!(reg.0 & !mask(5, 1), raw & !mask(5, 1));
            assert_eq!(reg.get_is_pm(), v & (mask(5, 1) >> 5));
        }
    }
}

#[test]
fn alm0_wkday_fields_follow_the_bit_layout() {
    for raw in 0u8..=255 {
        let reg = Alm0Wkday(raw);
        assert_eq!(reg.get_wkday(), (raw & mask(0, 3)) >> 0);
        for v in 0u8..=255 {
            let mut reg = Alm0Wkday(raw);
            reg.set_wkday(v);
            assert_eq!(reg.0 & !mask(0, 3), raw & !mask(0, 3));
            assert_eq!(reg.get_wkday(), v & (mask(0, 3) >> 0));
        }
    }
}

#[test]
fn alm0_date_fields_follow_the_bit_layout() {
    for raw in 0u8..=255 {
        let reg = Alm0Date(raw);
        assert_eq!(reg.get_date_ones(), (raw & mask(0, 4)) >> 0);
        assert_eq!(reg.get_date_tens(), (raw & mask(4, 2)) >> 4);
        for v in 0u8..=255 {
            let mut reg = Alm0Date(raw);
            reg.set_date_ones(v);
            assert_eq!(reg.0 & !mask(0, 4), raw & !mask(0, 4));
            assert_eq!(reg.get_date_ones(), v & (mask(0, 4) >> 0));
            let mut reg = Alm0Date(raw);
            reg.set_date_tens(v);
            assert_eq!(reg.0 & !mask(4, 2), raw & !mask(4, 2));
            assert_eq!(reg.get_date_tens(), v & (mask(4, 2) >> 4));
        }
    }
}

#[test]
fn alm0_mth_fields_follow_the_bit_layout() {
    for raw in 0u8..=255 {
        let reg = Alm0Mth(raw);
        assert_eq!(reg.get_month_ones(), (raw & mask(0, 4)) >> 0);
        assert_eq!(reg.get_month_tens(), (raw & mask(4, 1)) >> 4);
        for v in 0u8..=255 {
            let mut reg = Alm0Mth(raw);
            reg.set_month_ones(v);
            assert_eq!(reg.0 & !mask(0, 4), raw & !mask(0, 4));
            assert_eq!(reg.get_month_ones(), v & (mask(0, 4) >> 0));
            let mut reg = Alm0Mth(raw);
            reg.set_month_tens(v);
            assert_eq!(reg.0 & !mask(4, 1), raw & !mask(4, 1));
            assert_eq!(reg.get_month_tens(), v & (mask(4, 1) >> 4));
        }
    }
}

#[test]
fn alm1_sec_fields_follow_the_bit_layout() {
    for raw in 0u8..=255 {
        let reg = Alm1Sec(raw);
        assert_eq!(reg.get_sec_ones(), (raw & mask(0, 4)) >> 0);
        assert_eq!(reg.get_sec_tens(), (raw & mask(4, 3)) >> 4);
        for v in 0u8..=255 {
            let mut reg = Alm1Sec(raw);
            reg.set_sec_ones(v);
            assert_eq!(reg.0 & !mask(0, 4), raw & !mask(0, 4));
            assert_eq!(reg.get_sec_ones(), v & (mask(0, 4) >> 0));
            let mut reg = Alm1Sec(raw);
            reg.set_sec_tens(v);
            assert_eq!(reg.0 & !mask(4, 3), raw & !mask(4, 3));
            assert_eq!(reg.get_sec_tens(), v & (mask(4, 3) >> 4));
        }
    }
}

#[test]
fn alm1_min_fields_follow_the_bit_layout() {
    for raw in 0u8..=255 {
        let reg = Alm1Min(raw);
        assert_eq!(reg.get_min_ones(), (raw & mask(0, 4)) >> 0);
        assert_eq!(reg.get_min_tens(), (raw & mask(4, 3)) >> 4);
        for v in 0u8..=255 {
            let mut reg = Alm1Min(raw);
            reg.set_min_ones(v);
            assert_eq!(reg.0 & !mask(0, 4), raw & !mask(0, 4));
            assert_eq!(reg.get_min_ones(), v & (mask(0, 4) >> 0));
            let mut reg = Alm1Min(raw);
            reg.set_min_tens(v);
            assert_eq!(reg.0 & !mask(4, 3), raw & !mask(4, 3));
            assert_eq!(reg.get_min_tens(), v & (mask(4, 3) >> 4));
        }
    }
}

#[test]
fn alm1_hour_fields_follow_the_bit_layout() {
    for raw in 0u8..=255 {
        let reg = Alm1Hour(raw);
        assert_eq!(reg.get_hour_ones(), (raw & mask(0, 4)) >> 0);
        assert_eq!(reg.get_hour_tens_24(), (raw & mask(4, 2)) >> 4);
        assert_eq!(reg.get_hour_tens_12(), (raw & mask(4, 1)) >> 4);
        assert_eq!(reg.get_24fmt(), (raw & mask(6, 1)) >> 6);
        assert_eq!(reg.get_is_pm(), (raw & mask(5, 1)) >> 5);
        for v in 0u8..=255 {
            let mut reg = Alm1Hour(raw);
            reg.set_hour_ones(v);
            assert_eq!(reg.0 & !mask(0, 4), raw & !mask(0, 4));
            assert_eq!(reg.get_hour_ones(), v & (mask(0, 4) >> 0));
            let mut reg = Alm1Hour(raw);
            reg.set_hour_tens_24(v);
            assert_eq!(reg.0 & !mask(4, 2), raw & !mask(4, 2));
            assert_eq!(reg.get_hour_tens_24(), v & (mask(4, 2) >> 4));
            let mut reg = Alm1Hour(raw);
            reg.set_hour_tens_12(v);
            assert_eq!(reg.0 & !mask(4, 1), raw & !mask(4, 1));
            assert_eq!(reg.get_hour_tens_12(), v & (mask(4, 1) >> 4));
            let mut reg = Alm1Hour(raw);
            reg.set_24fmt(v);
            assert_eq!(reg.0 & !mask(6, 1), raw & !mask(6, 1));
            assert_eq!(reg.get_24fmt(), v & (mask(6, 1) >> 6));
            let mut reg = Alm1Hour(raw);
            reg.set_is_pm(v);
            assert_eq!(reg.0 & !mask(5, 1), raw & !mask(5, 1));
            assert_eq!(reg.get_is_pm(), v & (mask(5, 1) >> 5));
        }
    }
}

#[test]
fn alm1_wkday_fields_follow_the_bit_layout() {
    for raw in 0u8..=255 {
        let reg = Alm1Wkday(raw);
        assert_eq!(reg.get_wkday(), (raw & mask(0, 3)) >> 0);
        for v in 0u8..=255 {
            let mut reg = Alm1Wkday(raw);
            reg.set_wkday(v);
            assert_eq!(reg.0 & !mask(0, 3), raw & !mask(0, 3));
            assert_eq!(reg.get_wkday(), v & (mask(0, 3) >> 0));
        }
    }
}

#[test]
fn alm1_date_fields_follow_the_bit_layout() {
    for raw in 0u8..=255 {
        let reg = Alm1Date(raw);
        assert_eq!(reg.get_date_ones(), (raw & mask(0, 4)) >> 0);
        assert_eq!(reg.get_date_tens(), (raw & mask(4, 2)) >> 4);
        for v in 0u8..=255 {
            let mut reg = Alm1Date(raw);
            reg.set_date_ones(v);
            assert_eq!(reg.0 & !mask(0, 4), raw & !mask(0, 4));
            assert_eq!(reg.get_date_ones(), v & (mask(0, 4) >> 0));
            let mut reg = Alm1Date(raw);
            reg.set_date_tens(v);
            assert_eq!(reg.0 & !mask(4, 2), raw & !mask(4, 2));
            assert_eq!(reg.get_date_tens(), v & (mask(4, 2) >> 4));
        }
    }
}

#[test]
fn alm1_mth_fields_follow_the_bit_layout() {
    for raw in 0u8..=255 {
        let reg = Alm1Mth(raw);
        assert_eq!(reg.get_month_ones(), (raw & mask(0, 4)) >> 0);
        assert_eq!(reg.get_month_tens(), (raw & mask(4, 1)) >> 4);
        for v in 0u8..=255 {
            let mut reg = Alm1Mth(raw);
            reg.set_month_ones(v);
            assert_eq!(reg.0 & !mask(0, 4), raw & !mask(0, 4));
            assert_eq!(reg.get_month_ones(), v & (mask(0, 4) >> 0));
            let mut reg = Alm1Mth(raw);
            reg.set_month_tens(v);
            assert_eq!(reg.0 & !mask(4, 1), raw & !mask(4, 1));
            assert_eq!(reg.get_month_tens(), v & (mask(4, 1) >> 4));
        }
    }
}

#[test]
fn seconds_minutes_date_and_year_digits_round_trip() {
    for raw in [0x00u8, 0xFF, 0x80, 0x5A] {
        for ones in 0u8..=9 {
            for tens in 0u8..=9 {
                if tens <= 7 {
                    let mut sec = RtcSec(raw);
                    sec.set_sec_tens(tens);
                    sec.set_sec_ones(ones);
                    assert_eq!((sec.get_sec_tens(), sec.get_sec_ones()), (tens, ones));
                    assert_eq!(sec.get_osc_enabled(), raw >> 7);
                    let mut min = Alm1Min(raw);
                    min.set_min_ones(ones);
                    min.set_min_tens(tens);
                    assert_eq!((min.get_min_tens(), min.get_min_ones()), (tens, ones));
                }
                if tens <= 3 {
                    let mut date = RtcDate(raw);
                    date.set_date_tens(tens);
                    date.set_date_ones(ones);
                    assert_eq!((date.get_date_tens(), date.get_date_ones()), (tens, ones));
                }
                let mut year = RtcYear(raw);
                year.set_year_tens(tens);
                year.set_year_ones(ones);
                assert_eq!((year.get_year_tens(), year.get_year_ones()), (tens, ones));
                assert_eq!(year.0, (tens << 4) | ones);
            }
        }
    }
}

#[test]
fn a_time_of_day_packs_as_binary_coded_decimal() {
    let mut sec = RtcSec(0x80);
    sec.set_sec_tens(5);
    sec.set_sec_ones(9);
    assert_eq!(sec.0, 0xD9);
    let mut hour = RtcHour(0x00);
    hour.set_hour_tens_24(2);
    hour.set_hour_ones(3);
    assert_eq!(hour.0, 0x23);
    let mut month = RtcMth(0x20);
    month.set_month_tens(1);
    month.set_month_ones(2);
    assert_eq!(month.0, 0x32);
    assert_eq!(month.get_leap_year(), 1);
}

#[test]
fn a_digit_too_large_for_its_field_is_cut_down() {
    let mut sec = RtcSec(0x00);
    sec.set_sec_ones(0x1F);
    assert_eq!(sec.0, 0x0F);
    sec.set_sec_tens(0x0F);
    assert_eq!(sec.0, 0x7F);
    assert_eq!(sec.get_osc_enabled(), 0);
    let mut date = RtcDate(0xC0);
    date.set_date_tens(7);
    assert_eq!(date.0, 0xF0);
    let mut wkday = RtcWkday(0x20);
    wkday.set_wkday(0x0F);
    assert_eq!(wkday.0, 0x27);
    assert_eq!(wkday.get_osc_run(), 1);
}

#[test]
fn setting_the_tens_of_the_seconds_keeps_ones_and_oscillator_bit() {
    let mut sec = RtcSec(0b1001_1001);
    sec.set_sec_tens(4);
    assert_eq!(sec.0, 0b1100_1001);
    sec.set_sec_tens(0);
    assert_eq!(sec.0, 0b1000_1001);
}

#[test]
fn oscillator_enable_is_bit_seven_of_the_seconds() {
    let mut sec = RtcSec(0x59);
    assert_eq!(sec.get_osc_enabled(), 0);
    sec.set_osc_enabled(1);
    assert_eq!(sec.0, 0xD9);
    assert_eq!(sec.get_osc_enabled(), 1);
    sec.set_osc_enabled(0);
    assert_eq!(sec.0, 0x59);
}

#[test]
fn square_wave_frequency_round_trips_for_all_four_values() {
    let all = [
        (SquareWaveFreq::Hz1, 0b00u8),
        (SquareWaveFreq::Hz4096, 0b01),
        (SquareWaveFreq::Hz8192, 0b10),
        (SquareWaveFreq::Hz32768, 0b11),
    ];
    for raw in 0u8..=255 {
        for (freq, pattern) in all {
            let mut control = Control(raw);
            control.set_sqw_freq(freq);
            assert_eq!(control.0, (raw & 0b1111_1100) | pattern);
            assert_eq!(control.get_sqw_freq(), freq);
        }
    }
}

#[test]
fn every_control_byte_decodes_to_one_of_the_four_frequencies() {
    for raw in 0u8..=255 {
        let expected = match raw & 0b11 {
            0b00 => SquareWaveFreq::Hz1,
            0b01 => SquareWaveFreq::Hz4096,
            0b10 => SquareWaveFreq::Hz8192,
            _ => SquareWaveFreq::Hz32768,
        };
        assert_eq!(Control(raw).get_sqw_freq(), expected);
    }
}

#[test]
fn square_wave_frequency_converts_to_hertz() {
    assert_eq!(u16::from(SquareWaveFreq::Hz1), 1);
    assert_eq!(u16::from(SquareWaveFreq::Hz4096), 4096);
    assert_eq!(u16::from(SquareWaveFreq::Hz8192), 8192);
    assert_eq!(u16::from(SquareWaveFreq::Hz32768), 32768);
    let hz: u16 = SquareWaveFreq::Hz8192.into();
    assert_eq!(hz, 8192);
}

#[test]
fn control_bits_sit_where_the_register_map_puts_them() {
    let control = Control(0b1010_0110);
    assert_eq!(control.get_out(), 1);
    assert_eq!(control.get_sqw_enabled(), 0);
    assert_eq!(control.get_alm1_enabled(), 1);
    assert_eq!(control.get_alm0_enabled(), 0);
    assert_eq!(control.get_ext_osc(), 0);
    assert_eq!(control.get_coarse_trim(), 1);
    assert_eq!(control.get_sqw_freq(), SquareWaveFreq::Hz8192);
    let mut control = Control(0x00);
    control.set_sqw_enabled(1);
    control.set_alm0_enabled(1);
    assert_eq!(control.0, 0b0101_0000);
    control.set_out(3);
    assert_eq!(control.0, 0b1101_0000);
    control.set_ext_osc(2);
    assert_eq!(control.0, 0b1101_0000);
}

#[test]
fn oscillator_trim_splits_into_sign_and_magnitude() {
    assert_eq!(OscTrim(0x85).get_sign(), 1);
    assert_eq!(OscTrim(0x85).get_trim_val(), 5);
    assert_eq!(OscTrim(0x7F).get_sign(), 0);
    assert_eq!(OscTrim(0x7F).get_trim_val(), 0x7F);
}

#[test]
fn hour_register_holds_both_hour_formats() {
    let hour = RtcHour(0b0111_0010);
    assert_eq!(hour.get_24fmt(), 1);
    assert_eq!(hour.get_is_pm(), 1);
    assert_eq!(hour.get_hour_tens_12(), 1);
    assert_eq!(hour.get_hour_tens_24(), 3);
    assert_eq!(hour.get_hour_ones(), 2);
    let mut hour = Alm0Hour(0x00);
    hour.set_24fmt(1);
    hour.set_is_pm(1);
    hour.set_hour_tens_12(1);
    hour.set_hour_ones(1);
    assert_eq!(hour.0, 0b0111_0001);
}
