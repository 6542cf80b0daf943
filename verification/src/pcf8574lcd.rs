//! Character display with an HD44780-compatible controller behind a PCF8574
//! port expander.
//!
//! The expander gives the controller four data lines, so every command or
//! data byte travels as two nibbles, high nibble first. Each nibble is put on
//! the bus twice: once with the enable line high and once with it low. The
//! controller samples the data lines on that falling edge.
//!
//! Expander byte layout: bits 7:4 data lines, bit 3 backlight, bit 2 enable,
//! bit 0 register select.

use crate::bus;
use crate::bus::{Delay, Logged, Transport};
use vstd::prelude::*;

verus! {

/// Address of the expander as strapped on common display modules.
pub const DEFAULT_DEVICE_ADDR: u8 = 0x27;

/// Register select: the byte is display data, not a command.
pub const REG_DATA: u8 = 0x01;

/// The controller's enable line.
pub const FLAG_ENABLE: u8 = 0x04;

/// Flag: backlight on.
pub const FLAG_BACKLIGHT: u8 = 0x08;

/// Flag: backlight off.
pub const FLAG_NOBACKLIGHT: u8 = 0x00;

/// Entry mode: the cursor moves left after a character.
pub const ENTRY_MODE_SET_LEFT: u8 = 0x00;

/// Entry mode: the cursor moves right after a character.
pub const ENTRY_MODE_SET_RIGHT: u8 = 0x02;

/// Entry mode: the display stays where it is.
pub const ENTRY_MODE_SET_NOSHIFT: u8 = 0x00;

/// Entry mode: the display shifts with each character.
pub const ENTRY_MODE_SET_SHIFT: u8 = 0x01;

/// Display control: display off.
pub const DISPLAY_CONTROL_OFF: u8 = 0x00;

/// Display control: display on.
pub const DISPLAY_CONTROL_ON: u8 = 0x04;

/// Display control: cursor hidden.
pub const DISPLAY_CONTROL_NOCURSOR: u8 = 0x00;

/// Display control: cursor shown.
pub const DISPLAY_CONTROL_CURSOR: u8 = 0x02;

/// Display control: cursor steady.
pub const DISPLAY_CONTROL_NOBLINK: u8 = 0x00;

/// Display control: cursor blinking.
pub const DISPLAY_CONTROL_BLINK: u8 = 0x02;

/// Shift: move the cursor.
pub const SHIFT_MODE_CURSOR: u8 = 0x00;

/// Shift: move the display.
pub const SHIFT_MODE_DISPLAY: u8 = 0x08;

/// Shift: to the left.
pub const SHIFT_MODE_LEFT: u8 = 0x00;

/// Shift: to the right.
pub const SHIFT_MODE_RIGHT: u8 = 0x04;

/// Function set: one display line.
pub const FUNC_SET_1LINE: u8 = 0x00;

/// Function set: two display lines.
pub const FUNC_SET_2LINE: u8 = 0x08;

/// Function set: characters of 5 by 8 dots.
pub const FUNC_SET_5X8FONT: u8 = 0x00;

/// Function set: characters of 5 by 10 dots.
pub const FUNC_SET_5X10FONT: u8 = 0x04;

/// The two bytes that carry the low four bits of `nibble` to the controller:
/// enable high, then enable low.
pub open spec fn nibble_frames(nibble: u8, flags: u8) -> Seq<u8> {
    seq![(nibble << 4) | flags | FLAG_ENABLE, (nibble << 4) | flags]
}

/// The four bytes that carry `data` to the controller: high nibble first.
pub open spec fn byte_frames(data: u8, flags: u8) -> Seq<u8> {
    nibble_frames(data >> 4, flags) + nibble_frames(data, flags)
}

/// The bytes that carry the characters of `text`, first character first.
pub open spec fn text_frames(text: Seq<u8>, flags: u8) -> Seq<u8>
    decreases text.len(),
{
    if text.len() == 0 {
        Seq::empty()
    } else {
        text_frames(text.drop_last(), flags) + byte_frames(text.last(), flags)
    }
}

/// Display address of the first cell of `row` on a display `columns` wide.
/// Rows other than 1 and 2 start where row 0 does.
pub open spec fn row_base(columns: u8, row: u8) -> u8 {
    if row == 1 {
        0x40
    } else if row == 2 {
        columns
    } else {
        0x00
    }
}

/// The command that moves the cursor to `col` in `row`. The cell address is
/// the row's base plus the column, kept to eight bits.
pub open spec fn cursor_command(columns: u8, col: u8, row: u8) -> u8 {
    0x80u8 | (((row_base(columns, row) + col) % 256) as u8)
}

/// The reset procedure, step by step: a pause of 20 ms, the nibble 3, a
/// pause of 5 ms, the nibble 3, a pause of 150 us, the nibble 3, and the
/// nibble 2 that selects four-bit mode. The nibbles go out with the flags
/// clear.
pub open spec fn init_steps() -> Seq<bus::Step> {
    seq![bus::Step::Wait { us: 20_000 }] + bus::sends(nibble_frames(0x03, 0x00))
        + seq![bus::Step::Wait { us: 5_000 }] + bus::sends(nibble_frames(0x03, 0x00))
        + seq![bus::Step::Wait { us: 150 }] + bus::sends(nibble_frames(0x03, 0x00)) + bus::sends(
        nibble_frames(0x02, 0x00),
    )
}

/// Handle on one display. It owns the transport until `destroy` gives it back.
pub struct Device<I2C: Transport> {
    line: Logged<I2C>,
    addr: u8,
    display_cols: u8,
    flags: u8,
}

impl<I2C: Transport> Device<I2C> {
    /// The transport the handle owns.
    pub closed spec fn bus(self) -> I2C {
        self.line.transport()
    }

    /// What the handle has done since it was made: every transfer with its
    /// outcome and every pause, oldest first.
    pub closed spec fn log(self) -> Seq<bus::Event<I2C::Error>> {
        self.line.log()
    }

    /// Bus address of the expander.
    pub closed spec fn address(self) -> u8 {
        self.addr
    }

    /// Width of the display in characters.
    pub closed spec fn columns(self) -> u8 {
        self.display_cols
    }

    /// The stored flag byte.
    pub closed spec fn flags(self) -> u8 {
        self.flags
    }

    /// The handle became `after` by taking `steps` in order and up to the
    /// first failure, with the writes going to the expander, and by nothing
    /// else.
    pub open spec fn ran(self, after: Self, steps: Seq<bus::Step>, r: Result<(), I2C::Error>) -> bool {
        &&& after.address() == self.address()
        &&& after.columns() == self.columns()
        &&& after.flags() == self.flags()
        &&& bus::ran_in_order(self.log(), after.log(), self.address(), steps, r)
    }

    /// The handle became `after` by sending `frames` to the expander, one
    /// byte per write, in order and up to the first failure, and by nothing
    /// else.
    pub open spec fn sent(self, after: Self, frames: Seq<u8>, r: Result<(), I2C::Error>) -> bool {
        self.ran(after, bus::sends(frames), r)
    }

    /// Takes the transport. Nothing is sent; the flags start out clear.
    pub fn new(i2c: I2C, addr: u8, display_cols: u8) -> (d: Self)
        ensures
            d.bus() == i2c,
            d.log() == Seq::<bus::Event<I2C::Error>>::empty(),
            d.address() == addr,
            d.columns() == display_cols,
            d.flags() == 0,
    {
        Device { line: Logged::new(i2c), addr, display_cols, flags: 0 }
    }

    /// Gives the transport back.
    pub fn destroy(self) -> (i2c: I2C)
        ensures
            i2c == self.bus(),
    {
        self.line.release()
    }

    /// Sends the low four bits of `nibble` with one enable pulse.
    pub fn write_nibble(&mut self, nibble: u8, flags: u8) -> (r: Result<(), I2C::Error>)
        ensures
            old(self).sent(*final(self), nibble_frames(nibble, flags), r),
    {
        let high: u8 = (nibble << 4) | flags | FLAG_ENABLE;
        let low: u8 = (nibble << 4) | flags;
        let ghost steps = bus::sends(nibble_frames(nibble, flags));
        let ghost before = self.line.log();
        proof {
            assert([high]@ =~= seq![high]);
            assert([low]@ =~= seq![low]);
        }
        match self.line.write(self.addr, &[high]) {
            Ok(()) => {},
            Err(e) => {
                proof {
                    assert(self.line.log() =~= before + bus::answered(
                        self.addr,
                        steps,
                        1,
                        Err::<(), I2C::Error>(e),
                    ));
                }
                return Err(e);
            },
        }
        let r = self.line.write(self.addr, &[low]);
        proof {
            assert(self.line.log() =~= before + bus::answered(self.addr, steps, 2, r));
        }
        r
    }

    /// Sends `data` as two nibbles, high nibble first, both with `flags`.
    pub fn write(&mut self, data: u8, flags: u8) -> (r: Result<(), I2C::Error>)
        ensures
            old(self).sent(*final(self), byte_frames(data, flags), r),
    {
        let ghost before = self.line.log();
        let ghost high = nibble_frames(data >> 4, flags);
        let ghost low = nibble_frames(data, flags);
        proof {
            bus::lemma_sends_concat(high, low);
        }
        match self.write_nibble(data >> 4, flags) {
            Ok(()) => {},
            Err(e) => {
                proof {
                    bus::lemma_ran_failed(
                        before,
                        self.line.log(),
                        self.addr,
                        bus::sends(high),
                        bus::sends(low),
                        e,
                    );
                }
                return Err(e);
            },
        }
        let ghost between = self.line.log();
        let r = self.write_nibble(data, flags);
        proof {
            bus::lemma_ran_twice(
                before,
                between,
                self.line.log(),
                self.addr,
                bus::sends(high),
                bus::sends(low),
                r,
            );
        }
        r
    }

    /// Replaces the stored flag byte. Nothing is sent.
    pub fn set_flags(&mut self, flags: u8)
        ensures
            final(self).flags() == flags,
            final(self).bus() == old(self).bus(),
            final(self).log() == old(self).log(),
            final(self).address() == old(self).address(),
            final(self).columns() == old(self).columns(),
    {
        self.flags = flags;
    }

    /// The stored flag byte.
    pub fn get_flags(&self) -> (flags: u8)
        ensures
            flags == self.flags(),
    {
        self.flags
    }

    /// Command 0x01: blanks the display.
    pub fn clear_display(&mut self) -> (r: Result<(), I2C::Error>)
        ensures
            old(self).sent(*final(self), byte_frames(0x01, old(self).flags()), r),
    {
        let flags = self.flags;
        self.write(0x01, flags)
    }

    /// Command 0x02: cursor and shift back to the start.
    pub fn return_home(&mut self) -> (r: Result<(), I2C::Error>)
        ensures
            old(self).sent(*final(self), byte_frames(0x02, old(self).flags()), r),
    {
        let flags = self.flags;
        self.write(0x02, flags)
    }

    /// Command 0x04 with the direction and shift options in `mode`.
    pub fn entry_mode_set(&mut self, mode: u8) -> (r: Result<(), I2C::Error>)
        ensures
            old(self).sent(*final(self), byte_frames(0x04 | mode, old(self).flags()), r),
    {
        let flags = self.flags;
        self.write(0x04 | mode, flags)
    }

    /// Command 0x08 with the display, cursor and blink options in `mode`.
    pub fn display_control(&mut self, mode: u8) -> (r: Result<(), I2C::Error>)
        ensures
            old(self).sent(*final(self), byte_frames(0x08 | mode, old(self).flags()), r),
    {
        let flags = self.flags;
        self.write(0x08 | mode, flags)
    }

    /// Command 0x10 with the target and direction options in `mode`.
    pub fn shift_mode(&mut self, mode: u8) -> (r: Result<(), I2C::Error>)
        ensures
            old(self).sent(*final(self), byte_frames(0x10 | mode, old(self).flags()), r),
    {
        let flags = self.flags;
        self.write(0x10 | mode, flags)
    }

    /// Command 0x20 with the line-count and font options in `mode`.
    pub fn func_set(&mut self, mode: u8) -> (r: Result<(), I2C::Error>)
        ensures
            old(self).sent(*final(self), byte_frames(0x20 | mode, old(self).flags()), r),
    {
        let flags = self.flags;
        self.write(0x20 | mode, flags)
    }

    /// Writes one character at the cursor: the stored flags with register
    /// select set to data.
    pub fn write_char(&mut self, ch: u8) -> (r: Result<(), I2C::Error>)
        ensures
            old(self).sent(*final(self), byte_frames(ch, REG_DATA | old(self).flags()), r),
    {
        let flags = REG_DATA | self.flags;
        self.write(ch, flags)
    }

    /// Writes the characters of `s` at the cursor, first character first, each
    /// as `write_char` does. A failed transfer ends the call at once: what was
    /// sent before it stays sent, and nothing after it is tried.
    pub fn write_str(&mut self, s: &[u8]) -> (r: Result<(), I2C::Error>)
        ensures
            old(self).sent(*final(self), text_frames(s@, REG_DATA | old(self).flags()), r),
    {
        let ghost before = self.line.log();
        let ghost flags = REG_DATA | self.flags;
        let mut i: usize = 0;
        while i < s.len()
            invariant
                i <= s.len(),
                flags == REG_DATA | old(self).flags(),
                before == old(self).log(),
                old(self).sent(*self, text_frames(s@.take(i as int), flags), Ok(())),
            decreases s.len() - i,
        {
            let ghost between = self.line.log();
            let ghost done = text_frames(s@.take(i as int), flags);
            let ghost next = byte_frames(s@[i as int], flags);
            let sent = self.write_char(s[i]);
            proof {
                assert(s@.take(i + 1).drop_last() =~= s@.take(i as int));
                bus::lemma_sends_concat(done, next);
                bus::lemma_ran_twice(
                    before,
                    between,
                    self.line.log(),
                    self.addr,
                    bus::sends(done),
                    bus::sends(next),
                    sent,
                );
            }
            match sent {
                Ok(()) => {},
                Err(e) => {
                    proof {
                        let rest = text_frames(s@.skip(i + 1), flags);
                        lemma_text_frames_concat(s@.take(i + 1), s@.skip(i + 1), flags);
                        assert(s@.take(i + 1) + s@.skip(i + 1) =~= s@);
                        bus::lemma_sends_concat(done + next, rest);
                        bus::lemma_ran_failed(
                            before,
                            self.line.log(),
                            self.addr,
                            bus::sends(done + next),
                            bus::sends(rest),
                            e,
                        );
                    }
                    return Err(e);
                },
            }
            i += 1;
        }
        proof {
            assert(s@.take(i as int) =~= s@);
        }
        Ok(())
    }

    /// Runs the controller's reset procedure and leaves it in four-bit mode.
    ///
    /// In order: a pause of 20 ms, the nibble 3, a pause of 5 ms, the nibble 3,
    /// a pause of 150 us, the nibble 3, the nibble 2. The pauses are taken on
    /// `delay`. A failed transfer ends the procedure at once.
    pub fn init<D: Delay>(&mut self, delay: &mut D) -> (r: Result<(), I2C::Error>)
        ensures
            old(self).ran(*final(self), init_steps(), r),
    {
        let ghost log0 = self.line.log();
        let ghost three = bus::sends(nibble_frames(0x03, 0x00));
        let ghost two = bus::sends(nibble_frames(0x02, 0x00));
        let ghost settle = seq![bus::Step::Wait { us: 20_000 }];
        let ghost long = seq![bus::Step::Wait { us: 5_000 }];
        let ghost short = seq![bus::Step::Wait { us: 150 }];
        let ghost first = settle + three;
        let ghost second = first + long + three;
        let ghost third = second + short + three;

        self.line.pause(delay, 20_000);
        let ghost log1 = self.line.log();
        let sent = self.write_nibble(0x03, 0x00);
        proof {
            lemma_paused(log0, log1, self.addr, 20_000);
            bus::lemma_ran_twice(log0, log1, self.line.log(), self.addr, settle, three, sent);
        }
        match sent {
            Ok(()) => {},
            Err(e) => {
                proof {
                    bus::lemma_ran_failed(
                        log0,
                        self.line.log(),
                        self.addr,
                        first,
                        long + three + short + three + two,
                        e,
                    );
                    assert(first + (long + three + short + three + two) =~= init_steps());
                }
                return Err(e);
            },
        }
        let ghost log2 = self.line.log();
        self.line.pause(delay, 5_000);
        let ghost log3 = self.line.log();
        let sent = self.write_nibble(0x03, 0x00);
        proof {
            lemma_paused(log2, log3, self.addr, 5_000);
            bus::lemma_ran_twice(log0, log2, log3, self.addr, first, long, Ok(()));
            bus::lemma_ran_twice(log0, log3, self.line.log(), self.addr, first + long, three, sent);
        }
        match sent {
            Ok(()) => {},
            Err(e) => {
                proof {
                    bus::lemma_ran_failed(
                        log0,
                        self.line.log(),
                        self.addr,
                        second,
                        short + three + two,
                        e,
                    );
                    assert(second + (short + three + two) =~= init_steps());
                }
                return Err(e);
            },
        }
        let ghost log4 = self.line.log();
        self.line.pause(delay, 150);
        let ghost log5 = self.line.log();
        let sent = self.write_nibble(0x03, 0x00);
        proof {
            lemma_paused(log4, log5, self.addr, 150);
            bus::lemma_ran_twice(log0, log4, log5, self.addr, second, short, Ok(()));
            bus::lemma_ran_twice(log0, log5, self.line.log(), self.addr, second + short, three, sent);
        }
        match sent {
            Ok(()) => {},
            Err(e) => {
                proof {
                    bus::lemma_ran_failed(log0, self.line.log(), self.addr, third, two, e);
                }
                return Err(e);
            },
        }
        let ghost log6 = self.line.log();
        let sent = self.write_nibble(0x02, 0x00);
        proof {
            bus::lemma_ran_twice(log0, log6, self.line.log(), self.addr, third, two, sent);
        }
        sent
    }

    /// Moves the cursor to `col` in `row`.
    pub fn set_cursor(&mut self, col: u8, row: u8) -> (r: Result<(), I2C::Error>)
        ensures
            old(self).sent(
                *final(self),
                byte_frames(cursor_command(old(self).columns(), col, row), old(self).flags()),
                r,
            ),
    {
        let base_addr: u8 = match row {
            1 => 0x40,
            2 => self.display_cols,
            _ => 0x00,
        };
        let command: u8 = 0x80 | base_addr.wrapping_add(col);
        let flags = self.flags;
        self.write(command, flags)
    }
}

/// The frames of a text are those of its first part followed by those of the
/// rest.
pub proof fn lemma_text_frames_concat(head: Seq<u8>, tail: Seq<u8>, flags: u8)
    ensures
        text_frames(head + tail, flags) == text_frames(head, flags) + text_frames(tail, flags),
    decreases tail.len(),
{
    if tail.len() == 0 {
        assert(head + tail =~= head);
        assert(text_frames(head, flags) + text_frames(tail, flags) =~= text_frames(head, flags));
    } else {
        lemma_text_frames_concat(head, tail.drop_last(), flags);
        assert((head + tail).drop_last() =~= head + tail.drop_last());
        assert((head + tail).last() == tail.last());
        assert(text_frames(head + tail, flags) =~= text_frames(head, flags) + text_frames(
            tail,
            flags,
        ));
    }
}

/// A nibble is framed by two bytes. The first has the enable line high and
/// is otherwise the second. Where the flags leave the enable line alone, the
/// second has it low, so the two differ in that bit and in no other.
pub proof fn lemma_nibble_frames(nibble: u8, flags: u8)
    ensures
        nibble_frames(nibble, flags).len() == 2,
        nibble_frames(nibble, flags)[0] == nibble_frames(nibble, flags)[1] | FLAG_ENABLE,
        nibble_frames(nibble, flags)[0] & FLAG_ENABLE == FLAG_ENABLE,
        flags & FLAG_ENABLE == 0 ==> nibble_frames(nibble, flags)[1] & FLAG_ENABLE == 0,
        flags & FLAG_ENABLE == 0 ==> nibble_frames(nibble, flags)[0] ^ nibble_frames(
            nibble,
            flags,
        )[1] == FLAG_ENABLE,
        flags & 0xF0 == 0 ==> nibble_frames(nibble, flags)[1] >> 4 == nibble & 0x0F,
        nibble_frames(nibble, flags)[1] & flags == flags,
{
    let high: u8 = (nibble << 4) | flags | 0x04;
    let low: u8 = (nibble << 4) | flags;
    assert(high == low | 0x04 && high & 0x04 == 0x04 && low & flags == flags) by (bit_vector)
        requires
            high == (nibble << 4) | flags | 0x04,
            low == (nibble << 4) | flags,
    ;
    assert(flags & 0x04 == 0 ==> low & 0x04 == 0 && high ^ low == 0x04) by (bit_vector)
        requires
            high == (nibble << 4) | flags | 0x04,
            low == (nibble << 4) | flags,
    ;
    assert(flags & 0xF0 == 0 ==> low >> 4 == nibble & 0x0F) by (bit_vector)
        requires
            low == (nibble << 4) | flags,
    ;
}

/// A byte is framed by four bytes: the two of its high nibble, then the two
/// of its low nibble, all with the same flags.
pub proof fn lemma_byte_frames(data: u8, flags: u8)
    ensures
        byte_frames(data, flags) == seq![
            (data & 0xF0) | flags | FLAG_ENABLE,
            (data & 0xF0) | flags,
            (data << 4) | flags | FLAG_ENABLE,
            (data << 4) | flags,
        ],
{
    assert((data >> 4) << 4 == data & 0xF0) by (bit_vector);
    assert(byte_frames(data, flags) =~= seq![
        (data & 0xF0) | flags | FLAG_ENABLE,
        (data & 0xF0) | flags,
        (data << 4) | flags | FLAG_ENABLE,
        (data << 4) | flags,
    ]);
}

/// The reset procedure spelled out: eleven steps, of which eight are bytes
/// on the bus.
pub proof fn lemma_init_steps()
    ensures
        init_steps() == seq![
            bus::Step::Wait { us: 20_000 },
            bus::Step::Send { byte: 0x34 },
            bus::Step::Send { byte: 0x30 },
            bus::Step::Wait { us: 5_000 },
            bus::Step::Send { byte: 0x34 },
            bus::Step::Send { byte: 0x30 },
            bus::Step::Wait { us: 150 },
            bus::Step::Send { byte: 0x34 },
            bus::Step::Send { byte: 0x30 },
            bus::Step::Send { byte: 0x24 },
            bus::Step::Send { byte: 0x20 },
        ],
{
    assert((0x03u8 << 4) | 0x00 | 0x04 == 0x34 && (0x03u8 << 4) | 0x00 == 0x30 && (0x02u8 << 4)
        | 0x00 | 0x04 == 0x24 && (0x02u8 << 4) | 0x00 == 0x20) by (bit_vector);
    assert(init_steps() =~= seq![
        bus::Step::Wait { us: 20_000 },
        bus::Step::Send { byte: 0x34 },
        bus::Step::Send { byte: 0x30 },
        bus::Step::Wait { us: 5_000 },
        bus::Step::Send { byte: 0x34 },
        bus::Step::Send { byte: 0x30 },
        bus::Step::Wait { us: 150 },
        bus::Step::Send { byte: 0x34 },
        bus::Step::Send { byte: 0x30 },
        bus::Step::Send { byte: 0x24 },
        bus::Step::Send { byte: 0x20 },
    ]);
}

/// A pause alone is a run of one step.
proof fn lemma_paused<E>(before: Seq<bus::Event<E>>, after: Seq<bus::Event<E>>, address: u8, us: u16)
    requires
        after == before.push(bus::Event::Pause { us }),
    ensures
        bus::ran_in_order(before, after, address, seq![bus::Step::Wait { us }], Ok(())),
{
    assert(after =~= before + bus::answered(
        address,
        seq![bus::Step::Wait { us }],
        1,
        Ok::<(), E>(()),
    ));
}

/// A nibble transfer that goes through is exactly two writes to the
/// expander, of one byte each: enable high, then enable low.
pub proof fn lemma_nibble_transfer<E>(
    before: Seq<bus::Event<E>>,
    after: Seq<bus::Event<E>>,
    address: u8,
    nibble: u8,
    flags: u8,
)
    requires
        bus::sent_in_order(before, after, address, nibble_frames(nibble, flags), Ok(())),
    ensures
        after == before.push(
            bus::byte_write(address, (nibble << 4) | flags | FLAG_ENABLE, Ok(())),
        ).push(bus::byte_write(address, (nibble << 4) | flags, Ok(()))),
{
    let steps = bus::sends(nibble_frames(nibble, flags));
    let run = bus::answered(address, steps, 2, Ok::<(), E>(()));
    assert(after =~= before.push(run[0]).push(run[1]));
}

/// A byte transfer that goes through is exactly four writes to the
/// expander: the high nibble's two, then the low nibble's two.
pub proof fn lemma_byte_transfer<E>(
    before: Seq<bus::Event<E>>,
    after: Seq<bus::Event<E>>,
    address: u8,
    data: u8,
    flags: u8,
)
    requires
        bus::sent_in_order(before, after, address, byte_frames(data, flags), Ok(())),
    ensures
        after.len() == before.len() + 4,
        bus::sent_in_order(
            before,
            after.take(before.len() as int + 2),
            address,
            nibble_frames(data >> 4, flags),
            Ok(()),
        ),
        bus::sent_in_order(
            after.take(before.len() as int + 2),
            after,
            address,
            nibble_frames(data, flags),
            Ok(()),
        ),
{
    let high = bus::sends(nibble_frames(data >> 4, flags));
    let low = bus::sends(nibble_frames(data, flags));
    let middle = after.take(before.len() as int + 2);
    bus::lemma_sends_concat(nibble_frames(data >> 4, flags), nibble_frames(data, flags));
    assert(middle =~= before + bus::answered(address, high, 2, Ok::<(), E>(())));
    assert(after =~= middle + bus::answered(address, low, 2, Ok::<(), E>(())));
}

/// A text of `n` characters is framed by `4 * n` bytes, and the four that
/// belong to the character at `i` are its byte frames.
pub proof fn lemma_text_frames_layout(text: Seq<u8>, flags: u8)
    ensures
        text_frames(text, flags).len() == 4 * text.len(),
        forall|i: int, j: int|
            0 <= i < text.len() && 0 <= j < 4 ==> text_frames(text, flags)[4 * i + j]
                == #[trigger] byte_frames(text[i], flags)[j],
    decreases text.len(),
{
    if text.len() > 0 {
        lemma_text_frames_layout(text.drop_last(), flags);
        let head = text_frames(text.drop_last(), flags);
        assert forall|i: int, j: int| 0 <= i < text.len() && 0 <= j < 4 implies text_frames(
            text,
            flags,
        )[4 * i + j] == #[trigger] byte_frames(text[i], flags)[j] by {
            if i < text.len() - 1 {
                assert(text.drop_last()[i] == text[i]);
                assert(byte_frames(text.drop_last()[i], flags)[j] == head[4 * i + j]);
            }
        }
    }
}

/// When writing a text fails, the failed transfer is the last entry of the
/// journal and its error is the one returned. Every transfer before it went
/// through, and every character before the one it belongs to was sent whole.
pub proof fn lemma_text_failure<E>(
    before: Seq<bus::Event<E>>,
    after: Seq<bus::Event<E>>,
    address: u8,
    text: Seq<u8>,
    flags: u8,
    e: E,
)
    requires
        bus::sent_in_order(before, after, address, text_frames(text, flags), Err(e)),
    ensures
        ({
            let transfers = after.len() - before.len();
            let whole = (transfers - 1) / 4;
            &&& 1 <= transfers <= 4 * text.len()
            &&& 0 <= whole < text.len()
            &&& after.last() == bus::byte_write(
                address,
                text_frames(text, flags)[transfers - 1],
                Err(e),
            )
            &&& forall|i: int|
                0 <= i < transfers - 1 ==> #[trigger] after[before.len() + i] == bus::byte_write::<
                    E,
                >(address, text_frames(text, flags)[i], Ok(()))
            &&& bus::sent_in_order(
                before,
                after.take(before.len() + 4 * whole),
                address,
                text_frames(text.take(whole), flags),
                Ok(()),
            )
        }),
{
    let frames = text_frames(text, flags);
    let transfers = after.len() - before.len();
    let whole = (transfers - 1) / 4;
    lemma_text_frames_layout(text, flags);
    lemma_text_frames_layout(text.take(whole), flags);
    lemma_text_frames_concat(text.take(whole), text.skip(whole), flags);
    assert(text.take(whole) + text.skip(whole) =~= text);
    let run = bus::answered(address, bus::sends(frames), transfers, Err::<(), E>(e));
    assert forall|i: int| 0 <= i < transfers - 1 implies #[trigger] after[before.len() + i]
        == bus::byte_write::<E>(address, frames[i], Ok(())) by {
        assert(after[before.len() + i] == run[i]);
    }
    assert(after.last() == run[transfers - 1]);
    let part = text_frames(text.take(whole), flags);
    assert(after.take(before.len() + 4 * whole) =~= before + bus::answered(
        address,
        bus::sends(part),
        4 * whole,
        Ok::<(), E>(()),
    )) by {
        assert forall|i: int| 0 <= i < 4 * whole implies (#[trigger] after[before.len() + i])
            == bus::answered(address, bus::sends(part), 4 * whole, Ok::<(), E>(()))[i] by {
            assert(after[before.len() + i] == run[i]);
            assert(frames[i] == part[i]);
        }
    }
}

} // verus!
