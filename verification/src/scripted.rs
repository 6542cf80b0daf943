//! A bus and a timing source that need no hardware.
//!
//! `ScriptedBus` keeps every transfer it is asked for, answers reads from a
//! list of bytes prepared in advance, and can be told to fail one transfer.
//! `RecordedDelay` keeps the pauses it is asked for and returns at once.
//! What a driver is proved to do on any transport can be watched on these.

use crate::bus::{Delay, Transport};
use vstd::prelude::*;
use vstd::slice::slice_to_vec;

verus! {

/// The error of the scripted bus. It names the transfer that was made to
/// fail, counted from 0 over the life of the bus.
#[derive(Clone, Copy, Debug, PartialEq, Eq)]
pub struct BusFault {
    pub transfer: usize,
}

/// One transfer as the scripted bus saw it.
#[derive(Debug, PartialEq, Eq)]
pub struct Transfer {
    /// Device address the transfer went to.
    pub address: u8,
    /// The bytes sent.
    pub written: Vec<u8>,
    /// How many bytes were asked back; `None` for a plain write.
    pub asked: Option<usize>,
    /// The bytes handed back (none for a plain write), or the fault.
    pub reply: Result<Vec<u8>, BusFault>,
}

/// A bus that records and follows a script.
pub struct ScriptedBus {
    /// Every transfer so far, oldest first.
    pub transfers: Vec<Transfer>,
    /// The bytes that reads hand out, in order. Once they are used up a read
    /// hands out zeros.
    pub answers: Vec<u8>,
    /// How many of `answers` have been handed out.
    pub used: usize,
    /// The transfer that fails, counted from 0; `None` if none does.
    pub fail_at: Option<usize>,
}

impl ScriptedBus {
    /// A bus with nothing recorded yet.
    pub fn new(answers: Vec<u8>, fail_at: Option<usize>) -> (bus: Self)
        ensures
            bus.transfers@ == Seq::<Transfer>::empty(),
            bus.answers == answers,
            bus.used == 0,
            bus.fail_at == fail_at,
    {
        ScriptedBus { transfers: Vec::new(), answers, used: 0, fail_at }
    }

    /// The next transfer is the one that the script makes fail.
    pub open spec fn fails_next(self) -> bool {
        self.fail_at == Some(self.transfers.len())
    }

    /// The byte that the script hands out at position `i` of its answers.
    pub open spec fn answer(self, i: int) -> u8 {
        if 0 <= i < self.answers.len() {
            self.answers[i]
        } else {
            0
        }
    }

    /// The fault for the next transfer, if the script makes it fail.
    fn fault(&self) -> (fault: Option<BusFault>)
        ensures
            self.fails_next() ==> fault == Some(BusFault { transfer: self.transfers.len() }),
            !self.fails_next() ==> fault.is_none(),
    {
        match self.fail_at {
            Some(n) => {
                if n == self.transfers.len() {
                    Some(BusFault { transfer: n })
                } else {
                    None
                }
            },
            None => None,
        }
    }

    /// Takes the next answer off the script.
    fn next_answer(&mut self) -> (byte: u8)
        ensures
            byte == old(self).answer(old(self).used as int),
            final(self).used == if old(self).used < old(self).answers.len() {
                old(self).used + 1
            } else {
                old(self).used as int
            },
            final(self).answers == old(self).answers,
            final(self).transfers == old(self).transfers,
            final(self).fail_at == old(self).fail_at,
    {
        if self.used < self.answers.len() {
            let byte = self.answers[self.used];
            self.used = self.used + 1;
            byte
        } else {
            0
        }
    }
}

impl Transport for ScriptedBus {
    type Error = BusFault;

    /// Records the write. It fails if the script says so and succeeds
    /// otherwise.
    fn write(&mut self, address: u8, bytes: &[u8]) -> (r: Result<(), BusFault>)
        ensures
            r is Err <==> old(self).fails_next(),
            r matches Err(fault) ==> fault.transfer == old(self).transfers.len(),
            final(self).transfers@.len() == old(self).transfers@.len() + 1,
            final(self).transfers@.drop_last() == old(self).transfers@,
            final(self).transfers@.last().address == address,
            final(self).transfers@.last().written@ == bytes@,
            final(self).transfers@.last().asked.is_none(),
            match final(self).transfers@.last().reply {
                Ok(data) => r is Ok && data@ == Seq::<u8>::empty(),
                Err(fault) => r == Err::<(), BusFault>(fault),
            },
            final(self).answers == old(self).answers,
            final(self).used == old(self).used,
            final(self).fail_at == old(self).fail_at,
    {
        let fault = self.fault();
        let reply: Result<Vec<u8>, BusFault> = match fault {
            Some(f) => Err(f),
            None => Ok(Vec::new()),
        };
        let r: Result<(), BusFault> = match fault {
            Some(f) => Err(f),
            None => Ok(()),
        };
        let transfer = Transfer { address, written: slice_to_vec(bytes), asked: None, reply };
        self.transfers.push(transfer);
        proof {
            assert(self.transfers@.drop_last() =~= old(self).transfers@);
        }
        r
    }

    /// Records the transfer. Unless the script makes it fail, it fills
    /// `buffer` with the next answers of the script.
    fn write_then_read(&mut self, address: u8, bytes: &[u8], buffer: &mut [u8]) -> (r: Result<
        (),
        BusFault,
    >)
        ensures
            r is Err <==> old(self).fails_next(),
            r matches Err(fault) ==> fault.transfer == old(self).transfers.len(),
            r is Err ==> final(buffer)@ == old(buffer)@ && final(self).used == old(self).used,
            r is Ok ==> forall|i: int|
                0 <= i < old(buffer)@.len() ==> final(buffer)@[i] == old(self).answer(
                    old(self).used + i,
                ),
            final(self).transfers@.len() == old(self).transfers@.len() + 1,
            final(self).transfers@.drop_last() == old(self).transfers@,
            final(self).transfers@.last().address == address,
            final(self).transfers@.last().written@ == bytes@,
            final(self).transfers@.last().asked == Some(old(buffer)@.len() as usize),
            match final(self).transfers@.last().reply {
                Ok(data) => r is Ok && data@ == final(buffer)@,
                Err(fault) => r == Err::<(), BusFault>(fault),
            },
            final(self).answers == old(self).answers,
            final(self).fail_at == old(self).fail_at,
    {
        let ghost start = self.used as int;
        let fault = self.fault();
        let asked = buffer.len();
        let mut data: Vec<u8> = Vec::new();
        if fault.is_none() {
            let mut i: usize = 0;
            while i < asked
                invariant
                    i <= asked,
                    asked == buffer@.len(),
                    asked == old(buffer)@.len(),
                    data@.len() == i,
                    self.answers == old(self).answers,
                    self.transfers == old(self).transfers,
                    self.fail_at == old(self).fail_at,
                    start == old(self).used,
                    start <= self.used <= start + i,
                    forall|k: int| 0 <= k < i ==> buffer@[k] == old(self).answer(start + k),
                    forall|k: int| 0 <= k < i ==> data@[k] == buffer@[k],
                    self.used < self.answers.len() ==> self.used == start + i,
                decreases asked - i,
            {
                let byte = self.next_answer();
                buffer[i] = byte;
                data.push(byte);
                i = i + 1;
            }
        }
        let reply: Result<Vec<u8>, BusFault> = match fault {
            Some(f) => Err(f),
            None => Ok(data),
        };
        let r: Result<(), BusFault> = match fault {
            Some(f) => Err(f),
            None => Ok(()),
        };
        let transfer = Transfer { address, written: slice_to_vec(bytes), asked: Some(asked), reply };
        self.transfers.push(transfer);
        proof {
            assert(self.transfers@.drop_last() =~= old(self).transfers@);
            if r is Ok {
                assert(data@ =~= buffer@);
            }
        }
        r
    }
}

/// A timing source that does not wait and keeps what it was asked for.
pub struct RecordedDelay {
    /// The pauses asked for, in microseconds, oldest first.
    pub pauses: Vec<u16>,
}

impl RecordedDelay {
    /// A timing source with nothing recorded yet.
    pub fn new() -> (delay: Self)
        ensures
            delay.pauses@ == Seq::<u16>::empty(),
    {
        RecordedDelay { pauses: Vec::new() }
    }
}

impl Delay for RecordedDelay {
    /// Records the pause and returns at once.
    fn delay_us(&mut self, us: u16)
        ensures
            final(self).pauses@ == old(self).pauses@.push(us),
    {
        self.pauses.push(us);
    }
}

} // verus!
