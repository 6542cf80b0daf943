//! MCP7940M battery-backed real-time clock.
//!
//! Every register is one byte at a fixed address. A register is read with a
//! combined transaction: the register address is written, then one byte is
//! read back. It is written with a plain transaction of two bytes: the
//! register address shifted left by one bit, then the value.

pub mod registers;

use crate::bus;
use crate::bus::{Logged, Transport};
pub use registers::{
    Alm0Date, Alm0Hour, Alm0Min, Alm0Mth, Alm0Sec, Alm0Wkday, Alm1Date, Alm1Hour, Alm1Min, Alm1Mth,
    Alm1Sec, Alm1Wkday, Control, OscTrim, RtcDate, RtcHour, RtcMin, RtcMth, RtcSec, RtcWkday,
    RtcYear, SquareWaveFreq,
};
use vstd::prelude::*;

verus! {

/// Address of the clock chip, fixed in hardware.
pub const DEFAULT_DEVICE_ADDR: u8 = 0x6f;

/// The registers of the clock.
#[derive(Clone, Copy, Debug, PartialEq, Eq)]
pub enum Reg {
    RtcSec,
    RtcMin,
    RtcHour,
    RtcWkday,
    RtcDate,
    RtcMth,
    RtcYear,
    Control,
    OscTrim,
    Alm0Sec,
    Alm0Min,
    Alm0Hour,
    Alm0Wkday,
    Alm0Date,
    Alm0Mth,
    Alm1Sec,
    Alm1Min,
    Alm1Hour,
    Alm1Wkday,
    Alm1Date,
    Alm1Mth,
}

impl Reg {
    /// Where the register lies in the chip's address space.
    pub open spec fn address(self) -> u8 {
        match self {
            Reg::RtcSec => 0x00,
            Reg::RtcMin => 0x01,
            Reg::RtcHour => 0x02,
            Reg::RtcWkday => 0x03,
            Reg::RtcDate => 0x04,
            Reg::RtcMth => 0x05,
            Reg::RtcYear => 0x06,
            Reg::Control => 0x07,
            Reg::OscTrim => 0x08,
            Reg::Alm0Sec => 0x0A,
            Reg::Alm0Min => 0x0B,
            Reg::Alm0Hour => 0x0C,
            Reg::Alm0Wkday => 0x0D,
            Reg::Alm0Date => 0x0E,
            Reg::Alm0Mth => 0x0F,
            Reg::Alm1Sec => 0x11,
            Reg::Alm1Min => 0x12,
            Reg::Alm1Hour => 0x13,
            Reg::Alm1Wkday => 0x14,
            Reg::Alm1Date => 0x15,
            Reg::Alm1Mth => 0x16,
        }
    }

    /// Where the register lies in the chip's address space.
    pub fn addr(self) -> (a: u8)
        ensures
            a == self.address(),
    {
        match self {
            Reg::RtcSec => 0x00,
            Reg::RtcMin => 0x01,
            Reg::RtcHour => 0x02,
            Reg::RtcWkday => 0x03,
            Reg::RtcDate => 0x04,
            Reg::RtcMth => 0x05,
            Reg::RtcYear => 0x06,
            Reg::Control => 0x07,
            Reg::OscTrim => 0x08,
            Reg::Alm0Sec => 0x0A,
            Reg::Alm0Min => 0x0B,
            Reg::Alm0Hour => 0x0C,
            Reg::Alm0Wkday => 0x0D,
            Reg::Alm0Date => 0x0E,
            Reg::Alm0Mth => 0x0F,
            Reg::Alm1Sec => 0x11,
            Reg::Alm1Min => 0x12,
            Reg::Alm1Hour => 0x13,
            Reg::Alm1Wkday => 0x14,
            Reg::Alm1Date => 0x15,
            Reg::Alm1Mth => 0x16,
        }
    }
}

/// The bytes that ask for the content of `reg`: its address as it is.
pub open spec fn read_frame(reg: Reg) -> Seq<u8> {
    seq![reg.address()]
}

/// The bytes that store `byte` in `reg`: its address shifted left by one bit,
/// then the value.
pub open spec fn write_frame(reg: Reg, byte: u8) -> Seq<u8> {
    seq![reg.address() << 1, byte]
}

/// The entry that a read of `reg` leaves in the journal when it ends with
/// `r`: the byte that came back, or the transport's error.
pub open spec fn read_event<E>(address: u8, reg: Reg, r: Result<u8, E>) -> bus::Event<E> {
    bus::Event::Transfer {
        request: bus::Request::WriteThenRead { address, bytes: read_frame(reg), len: 1 },
        reply: match r {
            Ok(byte) => Ok(seq![byte]),
            Err(e) => Err(e),
        },
    }
}

/// The entry that a write of `byte` to `reg` leaves in the journal when it
/// ends with `r`.
pub open spec fn write_event<E>(address: u8, reg: Reg, byte: u8, r: Result<(), E>) -> bus::Event<E> {
    bus::Event::Transfer {
        request: bus::Request::Write { address, bytes: write_frame(reg, byte) },
        reply: bus::write_reply(r),
    }
}

/// Handle on one clock chip. It owns the transport until `destroy` gives it
/// back, and keeps nothing else but the chip's bus address.
pub struct Device<I2C: Transport> {
    line: Logged<I2C>,
    addr: u8,
}

impl<I2C: Transport> Device<I2C> {
    /// The transport the handle owns.
    pub closed spec fn bus(self) -> I2C {
        self.line.transport()
    }

    /// The transfers the handle has made since it was made, each with its
    /// outcome, oldest first.
    pub closed spec fn log(self) -> Seq<bus::Event<I2C::Error>> {
        self.line.log()
    }

    /// Bus address of the chip.
    pub closed spec fn address(self) -> u8 {
        self.addr
    }

    /// The handle became `after` by one read of `reg` that ended with `r`,
    /// and by nothing else.
    pub open spec fn did_read(self, after: Self, reg: Reg, r: Result<u8, I2C::Error>) -> bool {
        &&& after.address() == self.address()
        &&& after.log() == self.log().push(read_event(self.address(), reg, r))
    }

    /// The handle became `after` by one write of `byte` to `reg` that ended
    /// with `r`, and by nothing else.
    pub open spec fn did_write(self, after: Self, reg: Reg, byte: u8, r: Result<(), I2C::Error>) -> bool {
        &&& after.address() == self.address()
        &&& after.log() == self.log().push(write_event(self.address(), reg, byte, r))
    }

    /// Takes the transport. Nothing is sent.
    pub fn new(i2c: I2C, addr: u8) -> (d: Self)
        ensures
            d.bus() == i2c,
            d.log() == Seq::<bus::Event<I2C::Error>>::empty(),
            d.address() == addr,
    {
        Device { line: Logged::new(i2c), addr }
    }

    /// Gives the transport back.
    pub fn destroy(self) -> (i2c: I2C)
        ensures
            i2c == self.bus(),
    {
        self.line.release()
    }

    /// Reads the byte held in `reg`.
    pub fn read(&mut self, reg: Reg) -> (r: Result<u8, I2C::Error>)
        ensures
            old(self).did_read(*final(self), reg, r),
    {
        let mut buf = [0u8];
        let out = [reg.addr()];
        proof {
            assert(out@ =~= read_frame(reg));
        }
        match self.line.write_then_read(self.addr, &out, &mut buf) {
            Ok(()) => {
                proof {
                    assert(buf@ =~= seq![buf[0]]);
                }
                Ok(buf[0])
            },
            Err(e) => Err(e),
        }
    }

    /// Stores `byte` in `reg`.
    pub fn write(&mut self, reg: Reg, byte: u8) -> (r: Result<(), I2C::Error>)
        ensures
            old(self).did_write(*final(self), reg, byte, r),
    {
        let bytes = [reg.addr() << 1, byte];
        proof {
            assert(bytes@ =~= write_frame(reg, byte));
        }
        self.line.write(self.addr, &bytes)
    }

    /// Reads the seconds register.
    pub fn read_rtcsec(&mut self) -> (r: Result<RtcSec, I2C::Error>)
        ensures
            old(self).did_read(
                *final(self),
                Reg::RtcSec,
                match r {
                    Ok(view) => Ok(view.0),
                    Err(e) => Err(e),
                },
            ),
    {
        match self.read(Reg::RtcSec) {
            Ok(byte) => Ok(RtcSec(byte)),
            Err(e) => Err(e),
        }
    }

    /// Writes the seconds register.
    pub fn write_rtcsec(&mut self, reg: &RtcSec) -> (r: Result<(), I2C::Error>)
        ensures
            old(self).did_write(*final(self), Reg::RtcSec, reg.0, r),
    {
        self.write(Reg::RtcSec, reg.0)
    }

    /// Reads the minutes register.
    pub fn read_rtcmin(&mut self) -> (r: Result<RtcMin, I2C::Error>)
        ensures
            old(self).did_read(
                *final(self),
                Reg::RtcMin,
                match r {
                    Ok(view) => Ok(view.0),
                    Err(e) => Err(e),
                },
            ),
    {
        match self.read(Reg::RtcMin) {
            Ok(byte) => Ok(RtcMin(byte)),
            Err(e) => Err(e),
        }
    }

    /// Writes the minutes register.
    pub fn write_rtcmin(&mut self, reg: &RtcMin) -> (r: Result<(), I2C::Error>)
        ensures
            old(self).did_write(*final(self), Reg::RtcMin, reg.0, r),
    {
        self.write(Reg::RtcMin, reg.0)
    }

    /// Reads the hour register.
    pub fn read_rtchour(&mut self) -> (r: Result<RtcHour, I2C::Error>)
        ensures
            old(self).did_read(
                *final(self),
                Reg::RtcHour,
                match r {
                    Ok(view) => Ok(view.0),
                    Err(e) => Err(e),
                },
            ),
    {
        match self.read(Reg::RtcHour) {
            Ok(byte) => Ok(RtcHour(byte)),
            Err(e) => Err(e),
        }
    }

    /// Writes the hour register.
    pub fn write_rtchour(&mut self, reg: &RtcHour) -> (r: Result<(), I2C::Error>)
        ensures
            old(self).did_write(*final(self), Reg::RtcHour, reg.0, r),
    {
        self.write(Reg::RtcHour, reg.0)
    }

    /// Reads the day-of-week register.
    pub fn read_rtcwkday(&mut self) -> (r: Result<RtcWkday, I2C::Error>)
        ensures
            old(self).did_read(
                *final(self),
                Reg::RtcWkday,
                match r {
                    Ok(view) => Ok(view.0),
                    Err(e) => Err(e),
                },
            ),
    {
        match self.read(Reg::RtcWkday) {
            Ok(byte) => Ok(RtcWkday(byte)),
            Err(e) => Err(e),
        }
    }

    /// Writes the day-of-week register.
    pub fn write_rtcwkday(&mut self, reg: &RtcWkday) -> (r: Result<(), I2C::Error>)
        ensures
            old(self).did_write(*final(self), Reg::RtcWkday, reg.0, r),
    {
        self.write(Reg::RtcWkday, reg.0)
    }

    /// Reads the date register.
    pub fn read_rtcdate(&mut self) -> (r: Result<RtcDate, I2C::Error>)
        ensures
            old(self).did_read(
                *final(self),
                Reg::RtcDate,
                match r {
                    Ok(view) => Ok(view.0),
                    Err(e) => Err(e),
                },
            ),
    {
        match self.read(Reg::RtcDate) {
            Ok(byte) => Ok(RtcDate(byte)),
            Err(e) => Err(e),
        }
    }

    /// Writes the date register.
    pub fn write_rtcdate(&mut self, reg: &RtcDate) -> (r: Result<(), I2C::Error>)
        ensures
            old(self).did_write(*final(self), Reg::RtcDate, reg.0, r),
    {
        self.write(Reg::RtcDate, reg.0)
    }

    /// Reads the month register.
    pub fn read_rtcmth(&mut self) -> (r: Result<RtcMth, I2C::Error>)
        ensures
            old(self).did_read(
                *final(self),
                Reg::RtcMth,
                match r {
                    Ok(view) => Ok(view.0),
                    Err(e) => Err(e),
                },
            ),
    {
        match self.read(Reg::RtcMth) {
            Ok(byte) => Ok(RtcMth(byte)),
            Err(e) => Err(e),
        }
    }

    /// Writes the month register.
    pub fn write_rtcmth(&mut self, reg: &RtcMth) -> (r: Result<(), I2C::Error>)
        ensures
            old(self).did_write(*final(self), Reg::RtcMth, reg.0, r),
    {
        self.write(Reg::RtcMth, reg.0)
    }

    /// Reads the year register.
    pub fn read_rtcyear(&mut self) -> (r: Result<RtcYear, I2C::Error>)
        ensures
            old(self).did_read(
                *final(self),
                Reg::RtcYear,
                match r {
                    Ok(view) => Ok(view.0),
                    Err(e) => Err(e),
                },
            ),
    {
        match self.read(Reg::RtcYear) {
            Ok(byte) => Ok(RtcYear(byte)),
            Err(e) => Err(e),
        }
    }

    /// Writes the year register.
    pub fn write_rtcyear(&mut self, reg: &RtcYear) -> (r: Result<(), I2C::Error>)
        ensures
            old(self).did_write(*final(self), Reg::RtcYear, reg.0, r),
    {
        self.write(Reg::RtcYear, reg.0)
    }

    /// Reads the control register.
    pub fn read_control(&mut self) -> (r: Result<Control, I2C::Error>)
        ensures
            old(self).did_read(
                *final(self),
                Reg::Control,
                match r {
                    Ok(view) => Ok(view.0),
                    Err(e) => Err(e),
                },
            ),
    {
        match self.read(Reg::Control) {
            Ok(byte) => Ok(Control(byte)),
            Err(e) => Err(e),
        }
    }

    /// Writes the control register.
    pub fn write_control(&mut self, reg: &Control) -> (r: Result<(), I2C::Error>)
        ensures
            old(self).did_write(*final(self), Reg::Control, reg.0, r),
    {
        self.write(Reg::Control, reg.0)
    }

    /// Reads the oscillator trim register.
    pub fn read_osctrim(&mut self) -> (r: Result<OscTrim, I2C::Error>)
        ensures
            old(self).did_read(
                *final(self),
                Reg::OscTrim,
                match r {
                    Ok(view) => Ok(view.0),
                    Err(e) => Err(e),
                },
            ),
    {
        match self.read(Reg::OscTrim) {
            Ok(byte) => Ok(OscTrim(byte)),
            Err(e) => Err(e),
        }
    }

    /// Writes the oscillator trim register.
    pub fn write_osctrim(&mut self, reg: &OscTrim) -> (r: Result<(), I2C::Error>)
        ensures
            old(self).did_write(*final(self), Reg::OscTrim, reg.0, r),
    {
        self.write(Reg::OscTrim, reg.0)
    }

    /// Reads the seconds register of alarm 0.
    pub fn read_alm0sec(&mut self) -> (r: Result<Alm0Sec, I2C::Error>)
        ensures
            old(self).did_read(
                *final(self),
                Reg::Alm0Sec,
                match r {
                    Ok(view) => Ok(view.0),
                    Err(e) => Err(e),
                },
            ),
    {
        match self.read(Reg::Alm0Sec) {
            Ok(byte) => Ok(Alm0Sec(byte)),
            Err(e) => Err(e),
        }
    }

    /// Writes the seconds register of alarm 0.
    pub fn write_alm0sec(&mut self, reg: &Alm0Sec) -> (r: Result<(), I2C::Error>)
        ensures
            old(self).did_write(*final(self), Reg::Alm0Sec, reg.0, r),
    {
        self.write(Reg::Alm0Sec, reg.0)
    }

    /// Reads the minutes register of alarm 0.
    pub fn read_alm0min(&mut self) -> (r: Result<Alm0Min, I2C::Error>)
        ensures
            old(self).did_read(
                *final(self),
                Reg::Alm0Min,
                match r {
                    Ok(view) => Ok(view.0),
                    Err(e) => Err(e),
                },
            ),
    {
        match self.read(Reg::Alm0Min) {
            Ok(byte) => Ok(Alm0Min(byte)),
            Err(e) => Err(e),
        }
    }

    /// Writes the minutes register of alarm 0.
    pub fn write_alm0min(&mut self, reg: &Alm0Min) -> (r: Result<(), I2C::Error>)
        ensures
            old(self).did_write(*final(self), Reg::Alm0Min, reg.0, r),
    {
        self.write(Reg::Alm0Min, reg.0)
    }

    /// Reads the hour register of alarm 0.
    pub fn read_alm0hour(&mut self) -> (r: Result<Alm0Hour, I2C::Error>)
        ensures
            old(self).did_read(
                *final(self),
                Reg::Alm0Hour,
                match r {
                    Ok(view) => Ok(view.0),
                    Err(e) => Err(e),
                },
            ),
    {
        match self.read(Reg::Alm0Hour) {
            Ok(byte) => Ok(Alm0Hour(byte)),
            Err(e) => Err(e),
        }
    }

    /// Writes the hour register of alarm 0.
    pub fn write_alm0hour(&mut self, reg: &Alm0Hour) -> (r: Result<(), I2C::Error>)
        ensures
            old(self).did_write(*final(self), Reg::Alm0Hour, reg.0, r),
    {
        self.write(Reg::Alm0Hour, reg.0)
    }

    /// Reads the day-of-week register of alarm 0.
    pub fn read_alm0wkday(&mut self) -> (r: Result<Alm0Wkday, I2C::Error>)
        ensures
            old(self).did_read(
                *final(self),
                Reg::Alm0Wkday,
                match r {
                    Ok(view) => Ok(view.0),
                    Err(e) => Err(e),
                },
            ),
    {
        match self.read(Reg::Alm0Wkday) {
            Ok(byte) => Ok(Alm0Wkday(byte)),
            Err(e) => Err(e),
        }
    }

    /// Writes the day-of-week register of alarm 0.
    pub fn write_alm0wkday(&mut self, reg: &Alm0Wkday) -> (r: Result<(), I2C::Error>)
        ensures
            old(self).did_write(*final(self), Reg::Alm0Wkday, reg.0, r),
    {
        self.write(Reg::Alm0Wkday, reg.0)
    }

    /// Reads the date register of alarm 0.
    pub fn read_alm0date(&mut self) -> (r: Result<Alm0Date, I2C::Error>)
        ensures
            old(self).did_read(
                *final(self),
                Reg::Alm0Date,
                match r {
                    Ok(view) => Ok(view.0),
                    Err(e) => Err(e),
                },
            ),
    {
        match self.read(Reg::Alm0Date) {
            Ok(byte) => Ok(Alm0Date(byte)),
            Err(e) => Err(e),
        }
    }

    /// Writes the date register of alarm 0.
    pub fn write_alm0date(&mut self, reg: &Alm0Date) -> (r: Result<(), I2C::Error>)
        ensures
            old(self).did_write(*final(self), Reg::Alm0Date, reg.0, r),
    {
        self.write(Reg::Alm0Date, reg.0)
    }

    /// Reads the month register of alarm 0.
    pub fn read_alm0mth(&mut self) -> (r: Result<Alm0Mth, I2C::Error>)
        ensures
            old(self).did_read(
                *final(self),
                Reg::Alm0Mth,
                match r {
                    Ok(view) => Ok(view.0),
                    Err(e) => Err(e),
                },
            ),
    {
        match self.read(Reg::Alm0Mth) {
            Ok(byte) => Ok(Alm0Mth(byte)),
            Err(e) => Err(e),
        }
    }

    /// Writes the month register of alarm 0.
    pub fn write_alm0mth(&mut self, reg: &Alm0Mth) -> (r: Result<(), I2C::Error>)
        ensures
            old(self).did_write(*final(self), Reg::Alm0Mth, reg.0, r),
    {
        self.write(Reg::Alm0Mth, reg.0)
    }

    /// Reads the seconds register of alarm 1.
    pub fn read_alm1sec(&mut self) -> (r: Result<Alm1Sec, I2C::Error>)
        ensures
            old(self).did_read(
                *final(self),
                Reg::Alm1Sec,
                match r {
                    Ok(view) => Ok(view.0),
                    Err(e) => Err(e),
                },
            ),
    {
        match self.read(Reg::Alm1Sec) {
            Ok(byte) => Ok(Alm1Sec(byte)),
            Err(e) => Err(e),
        }
    }

    /// Writes the seconds register of alarm 1.
    pub fn write_alm1sec(&mut self, reg: &Alm1Sec) -> (r: Result<(), I2C::Error>)
        ensures
            old(self).did_write(*final(self), Reg::Alm1Sec, reg.0, r),
    {
        self.write(Reg::Alm1Sec, reg.0)
    }

    /// Reads the minutes register of alarm 1.
    pub fn read_alm1min(&mut self) -> (r: Result<Alm1Min, I2C::Error>)
        ensures
            old(self).did_read(
                *final(self),
                Reg::Alm1Min,
                match r {
                    Ok(view) => Ok(view.0),
                    Err(e) => Err(e),
                },
            ),
    {
        match self.read(Reg::Alm1Min) {
            Ok(byte) => Ok(Alm1Min(byte)),
            Err(e) => Err(e),
        }
    }

    /// Writes the minutes register of alarm 1.
    pub fn write_alm1min(&mut self, reg: &Alm1Min) -> (r: Result<(), I2C::Error>)
        ensures
            old(self).did_write(*final(self), Reg::Alm1Min, reg.0, r),
    {
        self.write(Reg::Alm1Min, reg.0)
    }

    /// Reads the hour register of alarm 1.
    pub fn read_alm1hour(&mut self) -> (r: Result<Alm1Hour, I2C::Error>)
        ensures
            old(self).did_read(
                *final(self),
                Reg::Alm1Hour,
                match r {
                    Ok(view) => Ok(view.0),
                    Err(e) => Err(e),
                },
            ),
    {
        match self.read(Reg::Alm1Hour) {
            Ok(byte) => Ok(Alm1Hour(byte)),
            Err(e) => Err(e),
        }
    }

    /// Writes the hour register of alarm 1.
    pub fn write_alm1hour(&mut self, reg: &Alm1Hour) -> (r: Result<(), I2C::Error>)
        ensures
            old(self).did_write(*final(self), Reg::Alm1Hour, reg.0, r),
    {
        self.write(Reg::Alm1Hour, reg.0)
    }

    /// Reads the day-of-week register of alarm 1.
    pub fn read_alm1wkday(&mut self) -> (r: Result<Alm1Wkday, I2C::Error>)
        ensures
            old(self).did_read(
                *final(self),
                Reg::Alm1Wkday,
                match r {
                    Ok(view) => Ok(view.0),
                    Err(e) => Err(e),
                },
            ),
    {
        match self.read(Reg::Alm1Wkday) {
            Ok(byte) => Ok(Alm1Wkday(byte)),
            Err(e) => Err(e),
        }
    }

    /// Writes the day-of-week register of alarm 1.
    pub fn write_alm1wkday(&mut self, reg: &Alm1Wkday) -> (r: Result<(), I2C::Error>)
        ensures
            old(self).did_write(*final(self), Reg::Alm1Wkday, reg.0, r),
    {
        self.write(Reg::Alm1Wkday, reg.0)
    }

    /// Reads the date register of alarm 1.
    pub fn read_alm1date(&mut self) -> (r: Result<Alm1Date, I2C::Error>)
        ensures
            old(self).did_read(
                *final(self),
                Reg::Alm1Date,
                match r {
                    Ok(view) => Ok(view.0),
                    Err(e) => Err(e),
                },
            ),
    {
        match self.read(Reg::Alm1Date) {
            Ok(byte) => Ok(Alm1Date(byte)),
            Err(e) => Err(e),
        }
    }

    /// Writes the date register of alarm 1.
    pub fn write_alm1date(&mut self, reg: &Alm1Date) -> (r: Result<(), I2C::Error>)
        ensures
            old(self).did_write(*final(self), Reg::Alm1Date, reg.0, r),
    {
        self.write(Reg::Alm1Date, reg.0)
    }

    /// Reads the month register of alarm 1.
    pub fn read_alm1mth(&mut self) -> (r: Result<Alm1Mth, I2C::Error>)
        ensures
            old(self).did_read(
                *final(self),
                Reg::Alm1Mth,
                match r {
                    Ok(view) => Ok(view.0),
                    Err(e) => Err(e),
                },
            ),
    {
        match self.read(Reg::Alm1Mth) {
            Ok(byte) => Ok(Alm1Mth(byte)),
            Err(e) => Err(e),
        }
    }

    /// Writes the month register of alarm 1.
    pub fn write_alm1mth(&mut self, reg: &Alm1Mth) -> (r: Result<(), I2C::Error>)
        ensures
            old(self).did_write(*final(self), Reg::Alm1Mth, reg.0, r),
    {
        self.write(Reg::Alm1Mth, reg.0)
    }
}

/// The shift in a write frame loses no bit of any register's address: the
/// first byte of the frame is twice the address.
pub proof fn lemma_write_frame_address(reg: Reg, byte: u8)
    ensures
        reg.address() <= 0x16,
        write_frame(reg, byte) == seq![(2 * reg.address()) as u8, byte],
        read_frame(reg) == seq![reg.address()],
{
    let a = reg.address();
    assert(a <= 0x16 ==> a << 1 == 2 * a) by (bit_vector);
}

} // verus!
