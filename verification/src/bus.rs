//! The two-wire serial bus as the drivers see it.
//!
//! A driver owns a transport and asks it for one blocking transfer after
//! another. What the bus answers is not for the driver to decide, so the
//! transport's methods promise nothing. Instead every call goes through
//! `Logged`, which keeps a ghost journal of what was asked and what came
//! back. The drivers' contracts are stated over that journal and hold for
//! whatever the transport answers.

use vstd::prelude::*;

verus! {

/// A blocking, single-shot byte transport keyed by a 7-bit device address.
pub trait Transport {
    /// What the transport reports when a transfer fails.
    type Error;

    /// Sends `bytes` to the device at `address`.
    fn write(&mut self, address: u8, bytes: &[u8]) -> Result<(), Self::Error>;

    /// Sends `bytes` to the device at `address` and then fills `buffer` with
    /// what the device answers, in a single transaction.
    fn write_then_read(&mut self, address: u8, bytes: &[u8], buffer: &mut [u8]) -> Result<
        (),
        Self::Error,
    >;
}

/// A blocking timing source.
pub trait Delay {
    /// Returns once at least `us` microseconds have passed.
    fn delay_us(&mut self, us: u16);
}

/// What a driver asks of the bus in one transaction.
pub enum Request {
    /// Send `bytes` to the device at `address`.
    Write { address: u8, bytes: Seq<u8> },
    /// Send `bytes` to the device at `address`, then read `len` bytes back
    /// without releasing the bus in between.
    WriteThenRead { address: u8, bytes: Seq<u8>, len: nat },
}

/// One thing a driver did, as the journal keeps it.
pub enum Event<E> {
    /// A finished transaction: the request, and the bytes that were read
    /// back (none for a plain write) or the transport's error.
    Transfer { request: Request, reply: Result<Seq<u8>, E> },
    /// A pause of `us` microseconds.
    Pause { us: u16 },
}

/// The reply to a plain write that ended with `r`.
pub open spec fn write_reply<E>(r: Result<(), E>) -> Result<Seq<u8>, E> {
    match r {
        Ok(_) => Ok(Seq::empty()),
        Err(e) => Err(e),
    }
}

/// The reply to a read that ended with `r` and left `data` in the buffer.
pub open spec fn read_reply<E>(r: Result<(), E>, data: Seq<u8>) -> Result<Seq<u8>, E> {
    match r {
        Ok(_) => Ok(data),
        Err(e) => Err(e),
    }
}

/// A transport together with the journal of what was done through it.
///
/// The transport is reached through the three methods below and in no other
/// way, and each of them makes exactly one call and adds exactly one entry.
pub struct Logged<B: Transport> {
    bus: B,
    journal: Ghost<Seq<Event<B::Error>>>,
}

impl<B: Transport> Logged<B> {
    /// The transport.
    pub closed spec fn transport(self) -> B {
        self.bus
    }

    /// Everything done through this value so far, oldest first.
    pub closed spec fn log(self) -> Seq<Event<B::Error>> {
        self.journal@
    }

    /// Takes the transport and starts an empty journal.
    pub fn new(bus: B) -> (line: Self)
        ensures
            line.transport() == bus,
            line.log() == Seq::<Event<B::Error>>::empty(),
    {
        Logged { bus, journal: Ghost(Seq::empty()) }
    }

    /// Gives the transport back.
    pub fn release(self) -> (bus: B)
        ensures
            bus == self.transport(),
    {
        self.bus
    }

    /// One plain write.
    pub fn write(&mut self, address: u8, bytes: &[u8]) -> (r: Result<(), B::Error>)
        ensures
            final(self).log() == old(self).log().push(
                Event::Transfer {
                    request: Request::Write { address, bytes: bytes@ },
                    reply: write_reply(r),
                },
            ),
    {
        let r = self.bus.write(address, bytes);
        self.journal = Ghost(
            self.journal@.push(
                Event::Transfer {
                    request: Request::Write { address, bytes: bytes@ },
                    reply: write_reply(r),
                },
            ),
        );
        r
    }

    /// One write followed by a read into `buffer`.
    pub fn write_then_read(&mut self, address: u8, bytes: &[u8], buffer: &mut [u8]) -> (r: Result<
        (),
        B::Error,
    >)
        ensures
            final(self).log() == old(self).log().push(
                Event::Transfer {
                    request: Request::WriteThenRead {
                        address,
                        bytes: bytes@,
                        len: old(buffer)@.len(),
                    },
                    reply: read_reply(r, final(buffer)@),
                },
            ),
    {
        let ghost len = buffer@.len();
        let r = self.bus.write_then_read(address, bytes, buffer);
        self.journal = Ghost(
            self.journal@.push(
                Event::Transfer {
                    request: Request::WriteThenRead { address, bytes: bytes@, len },
                    reply: read_reply(r, buffer@),
                },
            ),
        );
        r
    }

    /// One pause, taken on `delay`.
    pub fn pause<D: Delay>(&mut self, delay: &mut D, us: u16)
        ensures
            final(self).log() == old(self).log().push(Event::Pause { us }),
            final(self).transport() == old(self).transport(),
    {
        delay.delay_us(us);
        self.journal = Ghost(self.journal@.push(Event::Pause { us }));
    }
}

/// What a driver means to do next: put one byte on the bus, or wait.
pub enum Step {
    /// A write of this one byte.
    Send { byte: u8 },
    /// A pause of so many microseconds.
    Wait { us: u16 },
}

/// The journal entry of a write of the one byte `byte` to `address` that
/// ended with `r`.
pub open spec fn byte_write<E>(address: u8, byte: u8, r: Result<(), E>) -> Event<E> {
    Event::Transfer { request: Request::Write { address, bytes: seq![byte] }, reply: write_reply(r) }
}

/// One write per byte of `frames`.
pub open spec fn sends(frames: Seq<u8>) -> Seq<Step> {
    Seq::new(frames.len(), |i: int| Step::Send { byte: frames[i] })
}

/// The journal entries left by the first `n` of `steps`, with the writes
/// going to `address`, where every write succeeded but the last step, which
/// ended with `r` if it was a write.
pub open spec fn answered<E>(address: u8, steps: Seq<Step>, n: int, r: Result<(), E>) -> Seq<
    Event<E>,
> {
    Seq::new(
        n as nat,
        |i: int|
            match steps[i] {
                Step::Send { byte } => Event::Transfer {
                    request: Request::Write { address, bytes: seq![byte] },
                    reply: if i == n - 1 {
                        write_reply(r)
                    } else {
                        Ok(Seq::empty())
                    },
                },
                Step::Wait { us } => Event::Pause { us },
            },
    )
}

/// Between `before` and `after` the `steps` were taken in order, and nothing
/// else was done. With `r` a success all of them were taken and every write
/// went through. With `r` an error the steps stopped at the first write that
/// failed: it is the last entry of `after`, and its error is `r`'s.
pub open spec fn ran_in_order<E>(
    before: Seq<Event<E>>,
    after: Seq<Event<E>>,
    address: u8,
    steps: Seq<Step>,
    r: Result<(), E>,
) -> bool {
    let n = after.len() - before.len();
    &&& match r {
        Ok(_) => n == steps.len(),
        Err(_) => 1 <= n <= steps.len() && steps[n - 1] is Send,
    }
    &&& after == before + answered(address, steps, n, r)
}

/// Between `before` and `after` the `frames` went to `address` one byte per
/// write, in order and up to the first failure, and nothing else was done.
pub open spec fn sent_in_order<E>(
    before: Seq<Event<E>>,
    after: Seq<Event<E>>,
    address: u8,
    frames: Seq<u8>,
    r: Result<(), E>,
) -> bool {
    ran_in_order(before, after, address, sends(frames), r)
}

/// A run of steps that went through, followed by a second run, is one run
/// over both lists of steps; it ends as the second did.
pub proof fn lemma_ran_twice<E>(
    a: Seq<Event<E>>,
    b: Seq<Event<E>>,
    c: Seq<Event<E>>,
    address: u8,
    first: Seq<Step>,
    second: Seq<Step>,
    r: Result<(), E>,
)
    requires
        ran_in_order(a, b, address, first, Ok(())),
        ran_in_order(b, c, address, second, r),
    ensures
        ran_in_order(a, c, address, first + second, r),
{
    let n1 = b.len() - a.len();
    let n2 = c.len() - b.len();
    assert(c =~= a + answered(address, first + second, n1 + n2, r));
}

/// A run of steps that failed is also a failed run over any longer list
/// that starts with the same steps: nothing after the failure is done.
pub proof fn lemma_ran_failed<E>(
    a: Seq<Event<E>>,
    b: Seq<Event<E>>,
    address: u8,
    first: Seq<Step>,
    rest: Seq<Step>,
    e: E,
)
    requires
        ran_in_order(a, b, address, first, Err(e)),
    ensures
        ran_in_order(a, b, address, first + rest, Err(e)),
{
    let n = b.len() - a.len();
    assert(b =~= a + answered(address, first + rest, n, Err(e)));
}

/// The writes for two lists of frames, one after the other, are the writes
/// for the joined list.
pub proof fn lemma_sends_concat(first: Seq<u8>, second: Seq<u8>)
    ensures
        sends(first + second) == sends(first) + sends(second),
{
    assert(sends(first + second) =~= sends(first) + sends(second));
}

} // verus!
