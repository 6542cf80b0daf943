//! The clock's registers as typed views of one byte each.
//!
//! A view holds the raw register byte and reads or changes the fields packed
//! into it. Digits are binary-coded decimal: ones in the low nibble, tens in
//! the bits above. Nothing here touches the bus: a changed view reaches the
//! chip only when the driver writes it.
//!
//! A setter keeps as many low bits of its argument as the field is wide and
//! leaves the rest of the byte alone; a value too large for its field is cut
//! down, not refused.

use crate::bits;
use vstd::prelude::*;

verus! {

/// Frequency of the square-wave output.
#[derive(Clone, Copy, Debug, PartialEq, Eq)]
pub enum SquareWaveFreq {
    Hz1,
    Hz4096,
    Hz8192,
    Hz32768,
}

impl SquareWaveFreq {
    /// The two-bit pattern that selects the frequency.
    pub open spec fn bits(self) -> u8 {
        match self {
            SquareWaveFreq::Hz1 => 0b00,
            SquareWaveFreq::Hz4096 => 0b01,
            SquareWaveFreq::Hz8192 => 0b10,
            SquareWaveFreq::Hz32768 => 0b11,
        }
    }

    /// The frequency that a two-bit pattern selects.
    pub open spec fn from_bits(v: u8) -> SquareWaveFreq {
        if v == 0b00 {
            SquareWaveFreq::Hz1
        } else if v == 0b01 {
            SquareWaveFreq::Hz4096
        } else if v == 0b10 {
            SquareWaveFreq::Hz8192
        } else {
            SquareWaveFreq::Hz32768
        }
    }

    /// The frequency in hertz.
    pub open spec fn hertz(self) -> u16 {
        match self {
            SquareWaveFreq::Hz1 => 1,
            SquareWaveFreq::Hz4096 => 4096,
            SquareWaveFreq::Hz8192 => 8192,
            SquareWaveFreq::Hz32768 => 32768,
        }
    }
}

impl From<SquareWaveFreq> for u16 {
    fn from(f: SquareWaveFreq) -> (hz: u16) {
        match f {
            SquareWaveFreq::Hz1 => 1,
            SquareWaveFreq::Hz4096 => 4096,
            SquareWaveFreq::Hz8192 => 8192,
            SquareWaveFreq::Hz32768 => 32768,
        }
    }
}

impl vstd::std_specs::convert::FromSpecImpl<SquareWaveFreq> for u16 {
    open spec fn obeys_from_spec() -> bool {
        true
    }

    open spec fn from_spec(f: SquareWaveFreq) -> u16 {
        f.hertz()
    }
}

/// Seconds of the clock, with the oscillator enable bit.
#[derive(Clone, Copy, Debug, PartialEq, Eq)]
pub struct RtcSec(pub u8);

/// Minutes of the clock.
#[derive(Clone, Copy, Debug, PartialEq, Eq)]
pub struct RtcMin(pub u8);

/// Hour of the clock.
#[derive(Clone, Copy, Debug, PartialEq, Eq)]
pub struct RtcHour(pub u8);

/// Day of the week of the clock, with the oscillator status.
#[derive(Clone, Copy, Debug, PartialEq, Eq)]
pub struct RtcWkday(pub u8);

/// Day of the month of the clock.
#[derive(Clone, Copy, Debug, PartialEq, Eq)]
pub struct RtcDate(pub u8);

/// Month of the clock, with the leap year flag.
#[derive(Clone, Copy, Debug, PartialEq, Eq)]
pub struct RtcMth(pub u8);

/// Year of the clock, two digits.
#[derive(Clone, Copy, Debug, PartialEq, Eq)]
pub struct RtcYear(pub u8);

/// Control register: output pin, alarms, oscillator source and square wave.
#[derive(Clone, Copy, Debug, PartialEq, Eq)]
pub struct Control(pub u8);

/// Oscillator trim.
#[derive(Clone, Copy, Debug, PartialEq, Eq)]
pub struct OscTrim(pub u8);

/// Seconds of alarm 0.
#[derive(Clone, Copy, Debug, PartialEq, Eq)]
pub struct Alm0Sec(pub u8);

/// Minutes of alarm 0.
#[derive(Clone, Copy, Debug, PartialEq, Eq)]
pub struct Alm0Min(pub u8);

/// Hour of alarm 0.
#[derive(Clone, Copy, Debug, PartialEq, Eq)]
pub struct Alm0Hour(pub u8);

/// Day of the week of alarm 0.
#[derive(Clone, Copy, Debug, PartialEq, Eq)]
pub struct Alm0Wkday(pub u8);

/// Day of the month of alarm 0.
#[derive(Clone, Copy, Debug, PartialEq, Eq)]
pub struct Alm0Date(pub u8);

/// Month of alarm 0.
#[derive(Clone, Copy, Debug, PartialEq, Eq)]
pub struct Alm0Mth(pub u8);

/// Seconds of alarm 1.
#[derive(Clone, Copy, Debug, PartialEq, Eq)]
pub struct Alm1Sec(pub u8);

/// Minutes of alarm 1.
#[derive(Clone, Copy, Debug, PartialEq, Eq)]
pub struct Alm1Min(pub u8);

/// Hour of alarm 1.
#[derive(Clone, Copy, Debug, PartialEq, Eq)]
pub struct Alm1Hour(pub u8);

/// Day of the week of alarm 1.
#[derive(Clone, Copy, Debug, PartialEq, Eq)]
pub struct Alm1Wkday(pub u8);

/// Day of the month of alarm 1.
#[derive(Clone, Copy, Debug, PartialEq, Eq)]
pub struct Alm1Date(pub u8);

/// Month of alarm 1.
#[derive(Clone, Copy, Debug, PartialEq, Eq)]
pub struct Alm1Mth(pub u8);

impl RtcSec {
    /// Ones digit of the seconds (bits 3:0).
    pub fn get_sec_ones(&self) -> (v: u8)
        ensures
            v == bits::extract(self.0, 0, 4),
            v <= 15,
    {
        proof {
            bits::lemma_extract_bounded(self.0, 0, 4);
        }
        bits::get_bits(self.0, 0, 4)
    }

    /// Tens digit of the seconds (bits 6:4).
    pub fn get_sec_tens(&self) -> (v: u8)
        ensures
            v == bits::extract(self.0, 4, 3),
            v <= 7,
    {
        proof {
            bits::lemma_extract_bounded(self.0, 4, 3);
        }
        bits::get_bits(self.0, 4, 3)
    }

    /// Sets the ones digit of the seconds (bits 3:0).
    pub fn set_sec_ones(&mut self, v: u8)
        ensures
            final(self).0 == bits::insert(old(self).0, 0, 4, v),
            final(self).0 & 0b1111_0000 == old(self).0 & 0b1111_0000,
    {
        proof {
            lemma_kept_bits();
        }
        self.0 = bits::set_bits(self.0, 0, 4, v);
    }

    /// Sets the tens digit of the seconds (bits 6:4).
    pub fn set_sec_tens(&mut self, v: u8)
        ensures
            final(self).0 == bits::insert(old(self).0, 4, 3, v),
            final(self).0 & 0b1000_1111 == old(self).0 & 0b1000_1111,
    {
        proof {
            lemma_kept_bits();
        }
        self.0 = bits::set_bits(self.0, 4, 3, v);
    }

    /// Oscillator enable (bit 7).
    pub fn get_osc_enabled(&self) -> (v: u8)
        ensures
            v == bits::extract(self.0, 7, 1),
            v <= 1,
    {
        proof {
            bits::lemma_extract_bounded(self.0, 7, 1);
        }
        bits::get_bits(self.0, 7, 1)
    }

    /// Sets the oscillator enable (bit 7).
    pub fn set_osc_enabled(&mut self, v: u8)
        ensures
            final(self).0 == bits::insert(old(self).0, 7, 1, v),
            final(self).0 & 0b0111_1111 == old(self).0 & 0b0111_1111,
    {
        proof {
            lemma_kept_bits();
        }
        self.0 = bits::set_bits(self.0, 7, 1, v);
    }
}

impl RtcMin {
    /// Ones digit of the minutes (bits 3:0).
    pub fn get_min_ones(&self) -> (v: u8)
        ensures
            v == bits::extract(self.0, 0, 4),
            v <= 15,
    {
        proof {
            bits::lemma_extract_bounded(self.0, 0, 4);
        }
        bits::get_bits(self.0, 0, 4)
    }

    /// Tens digit of the minutes (bits 6:4).
    pub fn get_min_tens(&self) -> (v: u8)
        ensures
            v == bits::extract(self.0, 4, 3),
            v <= 7,
    {
        proof {
            bits::lemma_extract_bounded(self.0, 4, 3);
        }
        bits::get_bits(self.0, 4, 3)
    }

    /// Sets the ones digit of the minutes (bits 3:0).
    pub fn set_min_ones(&mut self, v: u8)
        ensures
            final(self).0 == bits::insert(old(self).0, 0, 4, v),
            final(self).0 & 0b1111_0000 == old(self).0 & 0b1111_0000,
    {
        proof {
            lemma_kept_bits();
        }
        self.0 = bits::set_bits(self.0, 0, 4, v);
    }

    /// Sets the tens digit of the minutes (bits 6:4).
    pub fn set_min_tens(&mut self, v: u8)
        ensures
            final(self).0 == bits::insert(old(self).0, 4, 3, v),
            final(self).0 & 0b1000_1111 == old(self).0 & 0b1000_1111,
    {
        proof {
            lemma_kept_bits();
        }
        self.0 = bits::set_bits(self.0, 4, 3, v);
    }
}

impl RtcHour {
    /// Ones digit of the hour (bits 3:0).
    pub fn get_hour_ones(&self) -> (v: u8)
        ensures
            v == bits::extract(self.0, 0, 4),
            v <= 15,
    {
        proof {
            bits::lemma_extract_bounded(self.0, 0, 4);
        }
        bits::get_bits(self.0, 0, 4)
    }

    /// Tens digit of the hour in 24-hour mode (bits 5:4).
    pub fn get_hour_tens_24(&self) -> (v: u8)
        ensures
            v == bits::extract(self.0, 4, 2),
            v <= 3,
    {
        proof {
            bits::lemma_extract_bounded(self.0, 4, 2);
        }
        bits::get_bits(self.0, 4, 2)
    }

    /// Tens digit of the hour in 12-hour mode (bit 4).
    pub fn get_hour_tens_12(&self) -> (v: u8)
        ensures
            v == bits::extract(self.0, 4, 1),
            v <= 1,
    {
        proof {
            bits::lemma_extract_bounded(self.0, 4, 1);
        }
        bits::get_bits(self.0, 4, 1)
    }

    /// Hour format select (bit 6).
    pub fn get_24fmt(&self) -> (v: u8)
        ensures
            v == bits::extract(self.0, 6, 1),
            v <= 1,
    {
        proof {
            bits::lemma_extract_bounded(self.0, 6, 1);
        }
        bits::get_bits(self.0, 6, 1)
    }

    /// AM/PM indicator of 12-hour mode (bit 5).
    pub fn get_is_pm(&self) -> (v: u8)
        ensures
            v == bits::extract(self.0, 5, 1),
            v <= 1,
    {
        proof {
            bits::lemma_extract_bounded(self.0, 5, 1);
        }
        bits::get_bits(self.0, 5, 1)
    }

    /// Sets the ones digit of the hour (bits 3:0).
    pub fn set_hour_ones(&mut self, v: u8)
        ensures
            final(self).0 == bits::insert(old(self).0, 0, 4, v),
            final(self).0 & 0b1111_0000 == old(self).0 & 0b1111_0000,
    {
        proof {
            lemma_kept_bits();
        }
        self.0 = bits::set_bits(self.0, 0, 4, v);
    }

    /// Sets the tens digit of the hour in 24-hour mode (bits 5:4).
    pub fn set_hour_tens_24(&mut self, v: u8)
        ensures
            final(self).0 == bits::insert(old(self).0, 4, 2, v),
            final(self).0 & 0b1100_1111 == old(self).0 & 0b1100_1111,
    {
        proof {
            lemma_kept_bits();
        }
        self.0 = bits::set_bits(self.0, 4, 2, v);
    }

    /// Sets the tens digit of the hour in 12-hour mode (bit 4).
    pub fn set_hour_tens_12(&mut self, v: u8)
        ensures
            final(self).0 == bits::insert(old(self).0, 4, 1, v),
            final(self).0 & 0b1110_1111 == old(self).0 & 0b1110_1111,
    {
        proof {
            lemma_kept_bits();
        }
        self.0 = bits::set_bits(self.0, 4, 1, v);
    }

    /// Sets the hour format select (bit 6).
    pub fn set_24fmt(&mut self, v: u8)
        ensures
            final(self).0 == bits::insert(old(self).0, 6, 1, v),
            final(self).0 & 0b1011_1111 == old(self).0 & 0b1011_1111,
    {
        proof {
            lemma_kept_bits();
        }
        self.0 = bits::set_bits(self.0, 6, 1, v);
    }

    /// Sets the AM/PM indicator of 12-hour mode (bit 5).
    pub fn set_is_pm(&mut self, v: u8)
        ensures
            final(self).0 == bits::insert(old(self).0, 5, 1, v),
            final(self).0 & 0b1101_1111 == old(self).0 & 0b1101_1111,
    {
        proof {
            lemma_kept_bits();
        }
        self.0 = bits::set_bits(self.0, 5, 1, v);
    }
}

impl RtcWkday {
    /// Day of the week (bits 2:0).
    pub fn get_wkday(&self) -> (v: u8)
        ensures
            v == bits::extract(self.0, 0, 3),
            v <= 7,
    {
        proof {
            bits::lemma_extract_bounded(self.0, 0, 3);
        }
        bits::get_bits(self.0, 0, 3)
    }

    /// Sets the day of the week (bits 2:0).
    pub fn set_wkday(&mut self, v: u8)
        ensures
            final(self).0 == bits::insert(old(self).0, 0, 3, v),
            final(self).0 & 0b1111_1000 == old(self).0 & 0b1111_1000,
    {
        proof {
            lemma_kept_bits();
        }
        self.0 = bits::set_bits(self.0, 0, 3, v);
    }

    /// Oscillator running status (bit 5).
    pub fn get_osc_run(&self) -> (v: u8)
        ensures
            v == bits::extract(self.0, 5, 1),
            v <= 1,
    {
        proof {
            bits::lemma_extract_bounded(self.0, 5, 1);
        }
        bits::get_bits(self.0, 5, 1)
    }
}

impl RtcDate {
    /// Ones digit of the day of the month (bits 3:0).
    pub fn get_date_ones(&self) -> (v: u8)
        ensures
            v == bits::extract(self.0, 0, 4),
            v <= 15,
    {
        proof {
            bits::lemma_extract_bounded(self.0, 0, 4);
        }
        bits::get_bits(self.0, 0, 4)
    }

    /// Tens digit of the day of the month (bits 5:4).
    pub fn get_date_tens(&self) -> (v: u8)
        ensures
            v == bits::extract(self.0, 4, 2),
            v <= 3,
    {
        proof {
            bits::lemma_extract_bounded(self.0, 4, 2);
        }
        bits::get_bits(self.0, 4, 2)
    }

    /// Sets the ones digit of the day of the month (bits 3:0).
    pub fn set_date_ones(&mut self, v: u8)
        ensures
            final(self).0 == bits::insert(old(self).0, 0, 4, v),
            final(self).0 & 0b1111_0000 == old(self).0 & 0b1111_0000,
    {
        proof {
            lemma_kept_bits();
        }
        self.0 = bits::set_bits(self.0, 0, 4, v);
    }

    /// Sets the tens digit of the day of the month (bits 5:4).
    pub fn set_date_tens(&mut self, v: u8)
        ensures
            final(self).0 == bits::insert(old(self).0, 4, 2, v),
            final(self).0 & 0b1100_1111 == old(self).0 & 0b1100_1111,
    {
        proof {
            lemma_kept_bits();
        }
        self.0 = bits::set_bits(self.0, 4, 2, v);
    }
}

impl RtcMth {
    /// Ones digit of the month (bits 3:0).
    pub fn get_month_ones(&self) -> (v: u8)
        ensures
            v == bits::extract(self.0, 0, 4),
            v <= 15,
    {
        proof {
            bits::lemma_extract_bounded(self.0, 0, 4);
        }
        bits::get_bits(self.0, 0, 4)
    }

    /// Tens digit of the month (bit 4).
    pub fn get_month_tens(&self) -> (v: u8)
        ensures
            v == bits::extract(self.0, 4, 1),
            v <= 1,
    {
        proof {
            bits::lemma_extract_bounded(self.0, 4, 1);
        }
        bits::get_bits(self.0, 4, 1)
    }

    /// Sets the ones digit of the month (bits 3:0).
    pub fn set_month_ones(&mut self, v: u8)
        ensures
            final(self).0 == bits::insert(old(self).0, 0, 4, v),
            final(self).0 & 0b1111_0000 == old(self).0 & 0b1111_0000,
    {
        proof {
            lemma_kept_bits();
        }
        self.0 = bits::set_bits(self.0, 0, 4, v);
    }

    /// Sets the tens digit of the month (bit 4).
    pub fn set_month_tens(&mut self, v: u8)
        ensures
            final(self).0 == bits::insert(old(self).0, 4, 1, v),
            final(self).0 & 0b1110_1111 == old(self).0 & 0b1110_1111,
    {
        proof {
            lemma_kept_bits();
        }
        self.0 = bits::set_bits(self.0, 4, 1, v);
    }

    /// Leap year flag (bit 5).
    pub fn get_leap_year(&self) -> (v: u8)
        ensures
            v == bits::extract(self.0, 5, 1),
            v <= 1,
    {
        proof {
            bits::lemma_extract_bounded(self.0, 5, 1);
        }
        bits::get_bits(self.0, 5, 1)
    }
}

impl RtcYear {
    /// Ones digit of the year (bits 3:0).
    pub fn get_year_ones(&self) -> (v: u8)
        ensures
            v == bits::extract(self.0, 0, 4),
            v <= 15,
    {
        proof {
            bits::lemma_extract_bounded(self.0, 0, 4);
        }
        bits::get_bits(self.0, 0, 4)
    }

    /// Tens digit of the year (bits 7:4).
    pub fn get_year_tens(&self) -> (v: u8)
        ensures
            v == bits::extract(self.0, 4, 4),
            v <= 15,
    {
        proof {
            bits::lemma_extract_bounded(self.0, 4, 4);
        }
        bits::get_bits(self.0, 4, 4)
    }

    /// Sets the ones digit of the year (bits 3:0).
    pub fn set_year_ones(&mut self, v: u8)
        ensures
            final(self).0 == bits::insert(old(self).0, 0, 4, v),
            final(self).0 & 0b1111_0000 == old(self).0 & 0b1111_0000,
    {
        proof {
            lemma_kept_bits();
        }
        self.0 = bits::set_bits(self.0, 0, 4, v);
    }

    /// Sets the tens digit of the year (bits 7:4).
    pub fn set_year_tens(&mut self, v: u8)
        ensures
            final(self).0 == bits::insert(old(self).0, 4, 4, v),
            final(self).0 & 0b0000_1111 == old(self).0 & 0b0000_1111,
    {
        proof {
            lemma_kept_bits();
        }
        self.0 = bits::set_bits(self.0, 4, 4, v);
    }
}

impl Control {
    /// Level of the output pin (bit 7).
    pub fn get_out(&self) -> (v: u8)
        ensures
            v == bits::extract(self.0, 7, 1),
            v <= 1,
    {
        proof {
            bits::lemma_extract_bounded(self.0, 7, 1);
        }
        bits::get_bits(self.0, 7, 1)
    }

    /// Square-wave output enable (bit 6).
    pub fn get_sqw_enabled(&self) -> (v: u8)
        ensures
            v == bits::extract(self.0, 6, 1),
            v <= 1,
    {
        proof {
            bits::lemma_extract_bounded(self.0, 6, 1);
        }
        bits::get_bits(self.0, 6, 1)
    }

    /// Alarm 1 enable (bit 5).
    pub fn get_alm1_enabled(&self) -> (v: u8)
        ensures
            v == bits::extract(self.0, 5, 1),
            v <= 1,
    {
        proof {
            bits::lemma_extract_bounded(self.0, 5, 1);
        }
        bits::get_bits(self.0, 5, 1)
    }

    /// Alarm 0 enable (bit 4).
    pub fn get_alm0_enabled(&self) -> (v: u8)
        ensures
            v == bits::extract(self.0, 4, 1),
            v <= 1,
    {
        proof {
            bits::lemma_extract_bounded(self.0, 4, 1);
        }
        bits::get_bits(self.0, 4, 1)
    }

    /// External oscillator select (bit 3).
    pub fn get_ext_osc(&self) -> (v: u8)
        ensures
            v == bits::extract(self.0, 3, 1),
            v <= 1,
    {
        proof {
            bits::lemma_extract_bounded(self.0, 3, 1);
        }
        bits::get_bits(self.0, 3, 1)
    }

    /// Coarse trim enable (bit 2).
    pub fn get_coarse_trim(&self) -> (v: u8)
        ensures
            v == bits::extract(self.0, 2, 1),
            v <= 1,
    {
        proof {
            bits::lemma_extract_bounded(self.0, 2, 1);
        }
        bits::get_bits(self.0, 2, 1)
    }

    /// Frequency of the square-wave output (bits 1:0).
    pub fn get_sqw_freq(&self) -> (f: SquareWaveFreq)
        ensures
            f == SquareWaveFreq::from_bits(bits::extract(self.0, 0, 2)),
    {
        let v: u8 = bits::get_bits(self.0, 0, 2);
        match v {
            0b00 => SquareWaveFreq::Hz1,
            0b01 => SquareWaveFreq::Hz4096,
            0b10 => SquareWaveFreq::Hz8192,
            _ => SquareWaveFreq::Hz32768,
        }
    }

    /// Sets the level of the output pin (bit 7).
    pub fn set_out(&mut self, v: u8)
        ensures
            final(self).0 == bits::insert(old(self).0, 7, 1, v),
            final(self).0 & 0b0111_1111 == old(self).0 & 0b0111_1111,
    {
        proof {
            lemma_kept_bits();
        }
        self.0 = bits::set_bits(self.0, 7, 1, v);
    }

    /// Sets the square-wave output enable (bit 6).
    pub fn set_sqw_enabled(&mut self, v: u8)
        ensures
            final(self).0 == bits::insert(old(self).0, 6, 1, v),
            final(self).0 & 0b1011_1111 == old(self).0 & 0b1011_1111,
    {
        proof {
            lemma_kept_bits();
        }
        self.0 = bits::set_bits(self.0, 6, 1, v);
    }

    /// Sets the alarm 1 enable (bit 5).
    pub fn set_alm1_enabled(&mut self, v: u8)
        ensures
            final(self).0 == bits::insert(old(self).0, 5, 1, v),
            final(self).0 & 0b1101_1111 == old(self).0 & 0b1101_1111,
    {
        proof {
            lemma_kept_bits();
        }
        self.0 = bits::set_bits(self.0, 5, 1, v);
    }

    /// Sets the alarm 0 enable (bit 4).
    pub fn set_alm0_enabled(&mut self, v: u8)
        ensures
            final(self).0 == bits::insert(old(self).0, 4, 1, v),
            final(self).0 & 0b1110_1111 == old(self).0 & 0b1110_1111,
    {
        proof {
            lemma_kept_bits();
        }
        self.0 = bits::set_bits(self.0, 4, 1, v);
    }

    /// Sets the external oscillator select (bit 3).
    pub fn set_ext_osc(&mut self, v: u8)
        ensures
            final(self).0 == bits::insert(old(self).0, 3, 1, v),
            final(self).0 & 0b1111_0111 == old(self).0 & 0b1111_0111,
    {
        proof {
            lemma_kept_bits();
        }
        self.0 = bits::set_bits(self.0, 3, 1, v);
    }

    /// Sets the coarse trim enable (bit 2).
    pub fn set_coarse_trim(&mut self, v: u8)
        ensures
            final(self).0 == bits::insert(old(self).0, 2, 1, v),
            final(self).0 & 0b1111_1011 == old(self).0 & 0b1111_1011,
    {
        proof {
            lemma_kept_bits();
        }
        self.0 = bits::set_bits(self.0, 2, 1, v);
    }

    /// Sets the frequency of the square-wave output (bits 1:0). The other
    /// bits of the register keep their values.
    pub fn set_sqw_freq(&mut self, f: SquareWaveFreq)
        ensures
            final(self).0 == bits::insert(old(self).0, 0, 2, f.bits()),
            final(self).0 & 0b1111_1100 == old(self).0 & 0b1111_1100,
    {
        proof {
            lemma_kept_bits();
        }
        let pattern: u8 = match f {
            SquareWaveFreq::Hz1 => 0b00,
            SquareWaveFreq::Hz4096 => 0b01,
            SquareWaveFreq::Hz8192 => 0b10,
            SquareWaveFreq::Hz32768 => 0b11,
        };
        self.0 = bits::set_bits(self.0, 0, 2, pattern);
    }
}

impl OscTrim {
    /// Sign of the trim (bit 7).
    pub fn get_sign(&self) -> (v: u8)
        ensures
            v == bits::extract(self.0, 7, 1),
            v <= 1,
    {
        proof {
            bits::lemma_extract_bounded(self.0, 7, 1);
        }
        bits::get_bits(self.0, 7, 1)
    }

    /// Magnitude of the trim (bits 6:0).
    pub fn get_trim_val(&self) -> (v: u8)
        ensures
            v == bits::extract(self.0, 0, 7),
            v <= 127,
    {
        proof {
            bits::lemma_extract_bounded(self.0, 0, 7);
        }
        bits::get_bits(self.0, 0, 7)
    }
}

impl Alm0Sec {
    /// Ones digit of the seconds (bits 3:0).
    pub fn get_sec_ones(&self) -> (v: u8)
        ensures
            v == bits::extract(self.0, 0, 4),
            v <= 15,
    {
        proof {
            bits::lemma_extract_bounded(self.0, 0, 4);
        }
        bits::get_bits(self.0, 0, 4)
    }

    /// Tens digit of the seconds (bits 6:4).
    pub fn get_sec_tens(&self) -> (v: u8)
        ensures
            v == bits::extract(self.0, 4, 3),
            v <= 7,
    {
        proof {
            bits::lemma_extract_bounded(self.0, 4, 3);
        }
        bits::get_bits(self.0, 4, 3)
    }

    /// Sets the ones digit of the seconds (bits 3:0).
    pub fn set_sec_ones(&mut self, v: u8)
        ensures
            final(self).0 == bits::insert(old(self).0, 0, 4, v),
            final(self).0 & 0b1111_0000 == old(self).0 & 0b1111_0000,
    {
        proof {
            lemma_kept_bits();
        }
        self.0 = bits::set_bits(self.0, 0, 4, v);
    }

    /// Sets the tens digit of the seconds (bits 6:4).
    pub fn set_sec_tens(&mut self, v: u8)
        ensures
            final(self).0 == bits::insert(old(self).0, 4, 3, v),
            final(self).0 & 0b1000_1111 == old(self).0 & 0b1000_1111,
    {
        proof {
            lemma_kept_bits();
        }
        self.0 = bits::set_bits(self.0, 4, 3, v);
    }
}

impl Alm0Min {
    /// Ones digit of the minutes (bits 3:0).
    pub fn get_min_ones(&self) -> (v: u8)
        ensures
            v == bits::extract(self.0, 0, 4),
            v <= 15,
    {
        proof {
            bits::lemma_extract_bounded(self.0, 0, 4);
        }
        bits::get_bits(self.0, 0, 4)
    }

    /// Tens digit of the minutes (bits 6:4).
    pub fn get_min_tens(&self) -> (v: u8)
        ensures
            v == bits::extract(self.0, 4, 3),
            v <= 7,
    {
        proof {
            bits::lemma_extract_bounded(self.0, 4, 3);
        }
        bits::get_bits(self.0, 4, 3)
    }

    /// Sets the ones digit of the minutes (bits 3:0).
    pub fn set_min_ones(&mut self, v: u8)
        ensures
            final(self).0 == bits::insert(old(self).0, 0, 4, v),
            final(self).0 & 0b1111_0000 == old(self).0 & 0b1111_0000,
    {
        proof {
            lemma_kept_bits();
        }
        self.0 = bits::set_bits(self.0, 0, 4, v);
    }

    /// Sets the tens digit of the minutes (bits 6:4).
    pub fn set_min_tens(&mut self, v: u8)
        ensures
            final(self).0 == bits::insert(old(self).0, 4, 3, v),
            final(self).0 & 0b1000_1111 == old(self).0 & 0b1000_1111,
    {
        proof {
            lemma_kept_bits();
        }
        self.0 = bits::set_bits(self.0, 4, 3, v);
    }
}

impl Alm0Hour {
    /// Ones digit of the hour (bits 3:0).
    pub fn get_hour_ones(&self) -> (v: u8)
        ensures
            v == bits::extract(self.0, 0, 4),
            v <= 15,
    {
        proof {
            bits::lemma_extract_bounded(self.0, 0, 4);
        }
        bits::get_bits(self.0, 0, 4)
    }

    /// Tens digit of the hour in 24-hour mode (bits 5:4).
    pub fn get_hour_tens_24(&self) -> (v: u8)
        ensures
            v == bits::extract(self.0, 4, 2),
            v <= 3,
    {
        proof {
            bits::lemma_extract_bounded(self.0, 4, 2);
        }
        bits::get_bits(self.0, 4, 2)
    }

    /// Tens digit of the hour in 12-hour mode (bit 4).
    pub fn get_hour_tens_12(&self) -> (v: u8)
        ensures
            v == bits::extract(self.0, 4, 1),
            v <= 1,
    {
        proof {
            bits::lemma_extract_bounded(self.0, 4, 1);
        }
        bits::get_bits(self.0, 4, 1)
    }

    /// Hour format select (bit 6).
    pub fn get_24fmt(&self) -> (v: u8)
        ensures
            v == bits::extract(self.0, 6, 1),
            v <= 1,
    {
        proof {
            bits::lemma_extract_bounded(self.0, 6, 1);
        }
        bits::get_bits(self.0, 6, 1)
    }

    /// AM/PM indicator of 12-hour mode (bit 5).
    pub fn get_is_pm(&self) -> (v: u8)
        ensures
            v == bits::extract(self.0, 5, 1),
            v <= 1,
    {
        proof {
            bits::lemma_extract_bounded(self.0, 5, 1);
        }
        bits::get_bits(self.0, 5, 1)
    }

    /// Sets the ones digit of the hour (bits 3:0).
    pub fn set_hour_ones(&mut self, v: u8)
        ensures
            final(self).0 == bits::insert(old(self).0, 0, 4, v),
            final(self).0 & 0b1111_0000 == old(self).0 & 0b1111_0000,
    {
        proof {
            lemma_kept_bits();
        }
        self.0 = bits::set_bits(self.0, 0, 4, v);
    }

    /// Sets the tens digit of the hour in 24-hour mode (bits 5:4).
    pub fn set_hour_tens_24(&mut self, v: u8)
        ensures
            final(self).0 == bits::insert(old(self).0, 4, 2, v),
            final(self).0 & 0b1100_1111 == old(self).0 & 0b1100_1111,
    {
        proof {
            lemma_kept_bits();
        }
        self.0 = bits::set_bits(self.0, 4, 2, v);
    }

    /// Sets the tens digit of the hour in 12-hour mode (bit 4).
    pub fn set_hour_tens_12(&mut self, v: u8)
        ensures
            final(self).0 == bits::insert(old(self).0, 4, 1, v),
            final(self).0 & 0b1110_1111 == old(self).0 & 0b1110_1111,
    {
        proof {
            lemma_kept_bits();
        }
        self.0 = bits::set_bits(self.0, 4, 1, v);
    }

    /// Sets the hour format select (bit 6).
    pub fn set_24fmt(&mut self, v: u8)
        ensures
            final(self).0 == bits::insert(old(self).0, 6, 1, v),
            final(self).0 & 0b1011_1111 == old(self).0 & 0b1011_1111,
    {
        proof {
            lemma_kept_bits();
        }
        self.0 = bits::set_bits(self.0, 6, 1, v);
    }

    /// Sets the AM/PM indicator of 12-hour mode (bit 5).
    pub fn set_is_pm(&mut self, v: u8)
        ensures
            final(self).0 == bits::insert(old(self).0, 5, 1, v),
            final(self).0 & 0b1101_1111 == old(self).0 & 0b1101_1111,
    {
        proof {
            lemma_kept_bits();
        }
        self.0 = bits::set_bits(self.0, 5, 1, v);
    }
}

impl Alm0Wkday {
    /// Day of the week (bits 2:0).
    pub fn get_wkday(&self) -> (v: u8)
        ensures
            v == bits::extract(self.0, 0, 3),
            v <= 7,
    {
        proof {
            bits::lemma_extract_bounded(self.0, 0, 3);
        }
        bits::get_bits(self.0, 0, 3)
    }

    /// Sets the day of the week (bits 2:0).
    pub fn set_wkday(&mut self, v: u8)
        ensures
            final(self).0 == bits::insert(old(self).0, 0, 3, v),
            final(self).0 & 0b1111_1000 == old(self).0 & 0b1111_1000,
    {
        proof {
            lemma_kept_bits();
        }
        self.0 = bits::set_bits(self.0, 0, 3, v);
    }
}

impl Alm0Date {
    /// Ones digit of the day of the month (bits 3:0).
    pub fn get_date_ones(&self) -> (v: u8)
        ensures
            v == bits::extract(self.0, 0, 4),
            v <= 15,
    {
        proof {
            bits::lemma_extract_bounded(self.0, 0, 4);
        }
        bits::get_bits(self.0, 0, 4)
    }

    /// Tens digit of the day of the month (bits 5:4).
    pub fn get_date_tens(&self) -> (v: u8)
        ensures
            v == bits::extract(self.0, 4, 2),
            v <= 3,
    {
        proof {
            bits::lemma_extract_bounded(self.0, 4, 2);
        }
        bits::get_bits(self.0, 4, 2)
    }

    /// Sets the ones digit of the day of the month (bits 3:0).
    pub fn set_date_ones(&mut self, v: u8)
        ensures
            final(self).0 == bits::insert(old(self).0, 0, 4, v),
            final(self).0 & 0b1111_0000 == old(self).0 & 0b1111_0000,
    {
        proof {
            lemma_kept_bits();
        }
        self.0 = bits::set_bits(self.0, 0, 4, v);
    }

    /// Sets the tens digit of the day of the month (bits 5:4).
    pub fn set_date_tens(&mut self, v: u8)
        ensures
            final(self).0 == bits::insert(old(self).0, 4, 2, v),
            final(self).0 & 0b1100_1111 == old(self).0 & 0b1100_1111,
    {
        proof {
            lemma_kept_bits();
        }
        self.0 = bits::set_bits(self.0, 4, 2, v);
    }
}

impl Alm0Mth {
    /// Ones digit of the month (bits 3:0).
    pub fn get_month_ones(&self) -> (v: u8)
        ensures
            v == bits::extract(self.0, 0, 4),
            v <= 15,
    {
        proof {
            bits::lemma_extract_bounded(self.0, 0, 4);
        }
        bits::get_bits(self.0, 0, 4)
    }

    /// Tens digit of the month (bit 4).
    pub fn get_month_tens(&self) -> (v: u8)
        ensures
            v == bits::extract(self.0, 4, 1),
            v <= 1,
    {
        proof {
            bits::lemma_extract_bounded(self.0, 4, 1);
        }
        bits::get_bits(self.0, 4, 1)
    }

    /// Sets the ones digit of the month (bits 3:0).
    pub fn set_month_ones(&mut self, v: u8)
        ensures
            final(self).0 == bits::insert(old(self).0, 0, 4, v),
            final(self).0 & 0b1111_0000 == old(self).0 & 0b1111_0000,
    {
        proof {
            lemma_kept_bits();
        }
        self.0 = bits::set_bits(self.0, 0, 4, v);
    }

    /// Sets the tens digit of the month (bit 4).
    pub fn set_month_tens(&mut self, v: u8)
        ensures
            final(self).0 == bits::insert(old(self).0, 4, 1, v),
            final(self).0 & 0b1110_1111 == old(self).0 & 0b1110_1111,
    {
        proof {
            lemma_kept_bits();
        }
        self.0 = bits::set_bits(self.0, 4, 1, v);
    }
}

impl Alm1Sec {
    /// Ones digit of the seconds (bits 3:0).
    pub fn get_sec_ones(&self) -> (v: u8)
        ensures
            v == bits::extract(self.0, 0, 4),
            v <= 15,
    {
        proof {
            bits::lemma_extract_bounded(self.0, 0, 4);
        }
        bits::get_bits(self.0, 0, 4)
    }

    /// Tens digit of the seconds (bits 6:4).
    pub fn get_sec_tens(&self) -> (v: u8)
        ensures
            v == bits::extract(self.0, 4, 3),
            v <= 7,
    {
        proof {
            bits::lemma_extract_bounded(self.0, 4, 3);
        }
        bits::get_bits(self.0, 4, 3)
    }

    /// Sets the ones digit of the seconds (bits 3:0).
    pub fn set_sec_ones(&mut self, v: u8)
        ensures
            final(self).0 == bits::insert(old(self).0, 0, 4, v),
            final(self).0 & 0b1111_0000 == old(self).0 & 0b1111_0000,
    {
        proof {
            lemma_kept_bits();
        }
        self.0 = bits::set_bits(self.0, 0, 4, v);
    }

    /// Sets the tens digit of the seconds (bits 6:4).
    pub fn set_sec_tens(&mut self, v: u8)
        ensures
            final(self).0 == bits::insert(old(self).0, 4, 3, v),
            final(self).0 & 0b1000_1111 == old(self).0 & 0b1000_1111,
    {
        proof {
            lemma_kept_bits();
        }
        self.0 = bits::set_bits(self.0, 4, 3, v);
    }
}

impl Alm1Min {
    /// Ones digit of the minutes (bits 3:0).
    pub fn get_min_ones(&self) -> (v: u8)
        ensures
            v == bits::extract(self.0, 0, 4),
            v <= 15,
    {
        proof {
            bits::lemma_extract_bounded(self.0, 0, 4);
        }
        bits::get_bits(self.0, 0, 4)
    }

    /// Tens digit of the minutes (bits 6:4).
    pub fn get_min_tens(&self) -> (v: u8)
        ensures
            v == bits::extract(self.0, 4, 3),
            v <= 7,
    {
        proof {
            bits::lemma_extract_bounded(self.0, 4, 3);
        }
        bits::get_bits(self.0, 4, 3)
    }

    /// Sets the ones digit of the minutes (bits 3:0).
    pub fn set_min_ones(&mut self, v: u8)
        ensures
            final(self).0 == bits::insert(old(self).0, 0, 4, v),
            final(self).0 & 0b1111_0000 == old(self).0 & 0b1111_0000,
    {
        proof {
            lemma_kept_bits();
        }
        self.0 = bits::set_bits(self.0, 0, 4, v);
    }

    /// Sets the tens digit of the minutes (bits 6:4).
    pub fn set_min_tens(&mut self, v: u8)
        ensures
            final(self).0 == bits::insert(old(self).0, 4, 3, v),
            final(self).0 & 0b1000_1111 == old(self).0 & 0b1000_1111,
    {
        proof {
            lemma_kept_bits();
        }
        self.0 = bits::set_bits(self.0, 4, 3, v);
    }
}

impl Alm1Hour {
    /// Ones digit of the hour (bits 3:0).
    pub fn get_hour_ones(&self) -> (v: u8)
        ensures
            v == bits::extract(self.0, 0, 4),
            v <= 15,
    {
        proof {
            bits::lemma_extract_bounded(self.0, 0, 4);
        }
        bits::get_bits(self.0, 0, 4)
    }

    /// Tens digit of the hour in 24-hour mode (bits 5:4).
    pub fn get_hour_tens_24(&self) -> (v: u8)
        ensures
            v == bits::extract(self.0, 4, 2),
            v <= 3,
    {
        proof {
            bits::lemma_extract_bounded(self.0, 4, 2);
        }
        bits::get_bits(self.0, 4, 2)
    }

    /// Tens digit of the hour in 12-hour mode (bit 4).
    pub fn get_hour_tens_12(&self) -> (v: u8)
        ensures
            v == bits::extract(self.0, 4, 1),
            v <= 1,
    {
        proof {
            bits::lemma_extract_bounded(self.0, 4, 1);
        }
        bits::get_bits(self.0, 4, 1)
    }

    /// Hour format select (bit 6).
    pub fn get_24fmt(&self) -> (v: u8)
        ensures
            v == bits::extract(self.0, 6, 1),
            v <= 1,
    {
        proof {
            bits::lemma_extract_bounded(self.0, 6, 1);
        }
        bits::get_bits(self.0, 6, 1)
    }

    /// AM/PM indicator of 12-hour mode (bit 5).
    pub fn get_is_pm(&self) -> (v: u8)
        ensures
            v == bits::extract(self.0, 5, 1),
            v <= 1,
    {
        proof {
            bits::lemma_extract_bounded(self.0, 5, 1);
        }
        bits::get_bits(self.0, 5, 1)
    }

    /// Sets the ones digit of the hour (bits 3:0).
    pub fn set_hour_ones(&mut self, v: u8)
        ensures
            final(self).0 == bits::insert(old(self).0, 0, 4, v),
            final(self).0 & 0b1111_0000 == old(self).0 & 0b1111_0000,
    {
        proof {
            lemma_kept_bits();
        }
        self.0 = bits::set_bits(self.0, 0, 4, v);
    }

    /// Sets the tens digit of the hour in 24-hour mode (bits 5:4).
    pub fn set_hour_tens_24(&mut self, v: u8)
        ensures
            final(self).0 == bits::insert(old(self).0, 4, 2, v),
            final(self).0 & 0b1100_1111 == old(self).0 & 0b1100_1111,
    {
        proof {
            lemma_kept_bits();
        }
        self.0 = bits::set_bits(self.0, 4, 2, v);
    }

    /// Sets the tens digit of the hour in 12-hour mode (bit 4).
    pub fn set_hour_tens_12(&mut self, v: u8)
        ensures
            final(self).0 == bits::insert(old(self).0, 4, 1, v),
            final(self).0 & 0b1110_1111 == old(self).0 & 0b1110_1111,
    {
        proof {
            lemma_kept_bits();
        }
        self.0 = bits::set_bits(self.0, 4, 1, v);
    }

    /// Sets the hour format select (bit 6).
    pub fn set_24fmt(&mut self, v: u8)
        ensures
            final(self).0 == bits::insert(old(self).0, 6, 1, v),
            final(self).0 & 0b1011_1111 == old(self).0 & 0b1011_1111,
    {
        proof {
            lemma_kept_bits();
        }
        self.0 = bits::set_bits(self.0, 6, 1, v);
    }

    /// Sets the AM/PM indicator of 12-hour mode (bit 5).
    pub fn set_is_pm(&mut self, v: u8)
        ensures
            final(self).0 == bits::insert(old(self).0, 5, 1, v),
            final(self).0 & 0b1101_1111 == old(self).0 & 0b1101_1111,
    {
        proof {
            lemma_kept_bits();
        }
        self.0 = bits::set_bits(self.0, 5, 1, v);
    }
}

impl Alm1Wkday {
    /// Day of the week (bits 2:0).
    pub fn get_wkday(&self) -> (v: u8)
        ensures
            v == bits::extract(self.0, 0, 3),
            v <= 7,
    {
        proof {
            bits::lemma_extract_bounded(self.0, 0, 3);
        }
        bits::get_bits(self.0, 0, 3)
    }

    /// Sets the day of the week (bits 2:0).
    pub fn set_wkday(&mut self, v: u8)
        ensures
            final(self).0 == bits::insert(old(self).0, 0, 3, v),
            final(self).0 & 0b1111_1000 == old(self).0 & 0b1111_1000,
    {
        proof {
            lemma_kept_bits();
        }
        self.0 = bits::set_bits(self.0, 0, 3, v);
    }
}

impl Alm1Date {
    /// Ones digit of the day of the month (bits 3:0).
    pub fn get_date_ones(&self) -> (v: u8)
        ensures
            v == bits::extract(self.0, 0, 4),
            v <= 15,
    {
        proof {
            bits::lemma_extract_bounded(self.0, 0, 4);
        }
        bits::get_bits(self.0, 0, 4)
    }

    /// Tens digit of the day of the month (bits 5:4).
    pub fn get_date_tens(&self) -> (v: u8)
        ensures
            v == bits::extract(self.0, 4, 2),
            v <= 3,
    {
        proof {
            bits::lemma_extract_bounded(self.0, 4, 2);
        }
        bits::get_bits(self.0, 4, 2)
    }

    /// Sets the ones digit of the day of the month (bits 3:0).
    pub fn set_date_ones(&mut self, v: u8)
        ensures
            final(self).0 == bits::insert(old(self).0, 0, 4, v),
            final(self).0 & 0b1111_0000 == old(self).0 & 0b1111_0000,
    {
        proof {
            lemma_kept_bits();
        }
        self.0 = bits::set_bits(self.0, 0, 4, v);
    }

    /// Sets the tens digit of the day of the month (bits 5:4).
    pub fn set_date_tens(&mut self, v: u8)
        ensures
            final(self).0 == bits::insert(old(self).0, 4, 2, v),
            final(self).0 & 0b1100_1111 == old(self).0 & 0b1100_1111,
    {
        proof {
            lemma_kept_bits();
        }
        self.0 = bits::set_bits(self.0, 4, 2, v);
    }
}

impl Alm1Mth {
    /// Ones digit of the month (bits 3:0).
    pub fn get_month_ones(&self) -> (v: u8)
        ensures
            v == bits::extract(self.0, 0, 4),
            v <= 15,
    {
        proof {
            bits::lemma_extract_bounded(self.0, 0, 4);
        }
        bits::get_bits(self.0, 0, 4)
    }

    /// Tens digit of the month (bit 4).
    pub fn get_month_tens(&self) -> (v: u8)
        ensures
            v == bits::extract(self.0, 4, 1),
            v <= 1,
    {
        proof {
            bits::lemma_extract_bounded(self.0, 4, 1);
        }
        bits::get_bits(self.0, 4, 1)
    }

    /// Sets the ones digit of the month (bits 3:0).
    pub fn set_month_ones(&mut self, v: u8)
        ensures
            final(self).0 == bits::insert(old(self).0, 0, 4, v),
            final(self).0 & 0b1111_0000 == old(self).0 & 0b1111_0000,
    {
        proof {
            lemma_kept_bits();
        }
        self.0 = bits::set_bits(self.0, 0, 4, v);
    }

    /// Sets the tens digit of the month (bit 4).
    pub fn set_month_tens(&mut self, v: u8)
        ensures
            final(self).0 == bits::insert(old(self).0, 4, 1, v),
            final(self).0 & 0b1110_1111 == old(self).0 & 0b1110_1111,
    {
        proof {
            lemma_kept_bits();
        }
        self.0 = bits::set_bits(self.0, 4, 1, v);
    }
}

/// The bits that a write leaves alone, for each field of the register map.
proof fn lemma_kept_bits()
    ensures
        !bits::field_mask(0, 2) == 0b1111_1100,
        !bits::field_mask(0, 3) == 0b1111_1000,
        !bits::field_mask(0, 4) == 0b1111_0000,
        !bits::field_mask(2, 1) == 0b1111_1011,
        !bits::field_mask(3, 1) == 0b1111_0111,
        !bits::field_mask(4, 1) == 0b1110_1111,
        !bits::field_mask(4, 2) == 0b1100_1111,
        !bits::field_mask(4, 3) == 0b1000_1111,
        !bits::field_mask(4, 4) == 0b0000_1111,
        !bits::field_mask(5, 1) == 0b1101_1111,
        !bits::field_mask(6, 1) == 0b1011_1111,
        !bits::field_mask(7, 1) == 0b0111_1111,
{
    assert(!((0xFFu8 >> 6u8) << 0u8) == 0b1111_1100 && !((0xFFu8 >> 5u8) << 0u8) == 0b1111_1000
        && !((0xFFu8 >> 4u8) << 0u8) == 0b1111_0000 && !((0xFFu8 >> 7u8) << 2u8) == 0b1111_1011
        && !((0xFFu8 >> 7u8) << 3u8) == 0b1111_0111 && !((0xFFu8 >> 7u8) << 4u8) == 0b1110_1111
        && !((0xFFu8 >> 6u8) << 4u8) == 0b1100_1111 && !((0xFFu8 >> 5u8) << 4u8) == 0b1000_1111
        && !((0xFFu8 >> 4u8) << 4u8) == 0b0000_1111 && !((0xFFu8 >> 7u8) << 5u8) == 0b1101_1111
        && !((0xFFu8 >> 7u8) << 6u8) == 0b1011_1111 && !((0xFFu8 >> 7u8) << 7u8) == 0b0111_1111)
        by (bit_vector);
}

/// Each frequency written to the two-bit field of the control register is
/// the frequency read back, whatever the register held before.
pub proof fn lemma_sqw_freq_round_trip(raw: u8, f: SquareWaveFreq)
    ensures
        SquareWaveFreq::from_bits(bits::extract(bits::insert(raw, 0, 2, f.bits()), 0, 2)) == f,
{
    bits::lemma_insert_then_extract(raw, 0, 2, f.bits());
    bits::lemma_extract_bounded(raw, 0, 2);
}

/// The four frequencies and the four patterns of the field match one to one:
/// whatever the register holds, the frequency read from it selects exactly
/// the pattern found there, so no content stands for a fifth frequency.
pub proof fn lemma_sqw_freq_patterns(raw: u8)
    ensures
        SquareWaveFreq::from_bits(bits::extract(raw, 0, 2)).bits() == bits::extract(raw, 0, 2),
{
    bits::lemma_extract_bounded(raw, 0, 2);
}

/// Seconds and minutes: any ones digit with any tens digit up to 7, written
/// in either order over any earlier content, are the digits read back.
pub proof fn lemma_sec_min_digits_round_trip(raw: u8, tens: u8, ones: u8)
    requires
        tens <= 7,
        ones <= 9,
    ensures
        bits::extract(bits::insert(bits::insert(raw, 4, 3, tens), 0, 4, ones), 4, 3) == tens,
        bits::extract(bits::insert(bits::insert(raw, 4, 3, tens), 0, 4, ones), 0, 4) == ones,
        bits::extract(bits::insert(bits::insert(raw, 0, 4, ones), 4, 3, tens), 4, 3) == tens,
        bits::extract(bits::insert(bits::insert(raw, 0, 4, ones), 4, 3, tens), 0, 4) == ones,
{
    bits::lemma_extract_bounded(raw, 4, 3);
    bits::lemma_digits_round_trip(raw, 3, tens, ones);
}

/// Day of the month: any ones digit with any tens digit up to 3, written in
/// either order over any earlier content, are the digits read back.
pub proof fn lemma_date_digits_round_trip(raw: u8, tens: u8, ones: u8)
    requires
        tens <= 3,
        ones <= 9,
    ensures
        bits::extract(bits::insert(bits::insert(raw, 4, 2, tens), 0, 4, ones), 4, 2) == tens,
        bits::extract(bits::insert(bits::insert(raw, 4, 2, tens), 0, 4, ones), 0, 4) == ones,
        bits::extract(bits::insert(bits::insert(raw, 0, 4, ones), 4, 2, tens), 4, 2) == tens,
        bits::extract(bits::insert(bits::insert(raw, 0, 4, ones), 4, 2, tens), 0, 4) == ones,
{
    bits::lemma_extract_bounded(raw, 4, 2);
    bits::lemma_digits_round_trip(raw, 2, tens, ones);
}

/// Year: any two decimal digits, written in either order over any earlier
/// content, are the digits read back, and they fill the register.
pub proof fn lemma_year_digits_round_trip(raw: u8, tens: u8, ones: u8)
    requires
        tens <= 9,
        ones <= 9,
    ensures
        bits::extract(bits::insert(bits::insert(raw, 4, 4, tens), 0, 4, ones), 4, 4) == tens,
        bits::extract(bits::insert(bits::insert(raw, 4, 4, tens), 0, 4, ones), 0, 4) == ones,
        bits::extract(bits::insert(bits::insert(raw, 0, 4, ones), 4, 4, tens), 4, 4) == tens,
        bits::extract(bits::insert(bits::insert(raw, 0, 4, ones), 4, 4, tens), 0, 4) == ones,
        bits::insert(bits::insert(raw, 4, 4, tens), 0, 4, ones) == 16 * tens + ones,
{
    bits::lemma_extract_bounded(raw, 4, 4);
    bits::lemma_digits_round_trip(raw, 4, tens, ones);
    let packed = bits::insert(bits::insert(raw, 4, 4, tens), 0, 4, ones);
    assert(packed == 16 * tens + ones) by (bit_vector)
        requires
            tens <= 9,
            ones <= 9,
            packed == (((raw & !((0xFFu8 >> 4u8) << 4u8)) | ((tens << 4u8) & ((0xFFu8 >> 4u8)
                << 4u8))) & !((0xFFu8 >> 4u8) << 0u8)) | ((ones << 0u8) & ((0xFFu8 >> 4u8)
                << 0u8)),
    ;
}

} // verus!
