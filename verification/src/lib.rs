//! Drivers for a battery-backed real-time clock and for a character display
//! behind an 8-bit port expander, both reached over one two-wire serial bus.
//!
//! - `bits`: bit fields inside one byte, and the laws of reading and writing
//!   them.
//! - `bus`: the transport and the timing source a driver is given, and the
//!   journal that the contracts of the drivers speak of.
//! - `mcp7940m`: the clock, with a typed view for each of its registers.
//! - `pcf8574lcd`: the display, written to four bits at a time.
//! - `readout`: a clock reading as a line of text.
//! - `scripted`: a bus and a timing source for use without hardware.

pub mod bits;
pub mod bus;
pub mod mcp7940m;
pub mod pcf8574lcd;
pub mod readout;
pub mod scripted;
