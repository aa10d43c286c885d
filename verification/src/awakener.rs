//! The cross-thread wakeup primitive: a self-pipe whose read end is a
//! pollable resource.

use vstd::prelude::*;

use crate::epoll::Selector;
use crate::error::{OsErr, EAGAIN};
use crate::event::{EventSet, PollOpt, Token};
use crate::io::{pipe, Evented, Io};

verus! {

/// How many reads one drain performs at most. Each read takes up to 128
/// bytes, so the drain covers far more than the largest configurable kernel
/// pipe buffer before stopping; termination of the drain is proved against
/// this bound.
const DRAIN_ROUNDS: usize = 1048576;

/// A wakeup signal between threads: writing to the pipe's write end makes
/// the read end — the registered, pollable side — readable, which forces a
/// blocked wait on the owning selector to return.
pub struct Awakener {
    reader: Io,
    writer: Io,
}

impl Awakener {
    /// The descriptor of the pipe's read end, the pollable side.
    pub closed spec fn spec_reader_fd(&self) -> i32 {
        self.reader.spec_fd()
    }

    /// The descriptor of the pipe's write end, the side a wakeup writes to.
    pub closed spec fn spec_writer_fd(&self) -> i32 {
        self.writer.spec_fd()
    }

    /// Creates the underlying pipe, or surfaces the OS error when the
    /// kernel call fails. On success the awakener owns the fresh pipe's two
    /// independent endpoints: the read end it registers as the pollable
    /// resource, and a distinct write end that is never registered.
    pub fn new() -> (r: Result<Awakener, OsErr>)
        ensures
            r matches Ok(a) ==> a.spec_reader_fd() >= 0 && a.spec_writer_fd() >= 0
                && a.spec_reader_fd() != a.spec_writer_fd(),
    {
        match pipe() {
            Ok((rd, wr)) => Ok(Awakener { reader: rd, writer: wr }),
            Err(e) => Err(e),
        }
    }

    /// Writes one marker byte to the write end, making the read end
    /// readable. Several wakeups may coalesce into a single readiness
    /// notification. A full pipe is not a failure: the pipe being full
    /// already implies a pending readable event, so no wakeup is lost.
    pub fn wakeup(&self) -> (r: Result<(), OsErr>)
        ensures
            r matches Err(e) ==> e.code != EAGAIN,
    {
        let marker: [u8; 1] = [1];
        match self.writer.try_write(marker.as_slice()) {
            Ok(_) => Ok(()),
            Err(e) => Err(e),
        }
    }

    /// Drains and discards every currently buffered byte from the read end,
    /// reading until the non-blocking read reports no more data, and
    /// returns the awakener to its idle state. The consumer must drain
    /// rather than assume one byte per wakeup, since wakeups coalesce.
    pub fn cleanup(&self) {
        let mut buf: Vec<u8> = Vec::new();
        let mut i: usize = 0;
        while i < 128
            invariant
                buf@.len() == i,
                i <= 128,
            decreases 128 - i,
        {
            buf.push(0u8);
            i = i + 1;
        }
        let mut budget: usize = DRAIN_ROUNDS;
        while budget > 0
            invariant
                buf@.len() == 128,
            decreases budget,
        {
            match self.reader.try_read(&mut buf) {
                Ok(Some(n)) => {
                    if n == 0 {
                        return ;
                    }
                },
                _ => {
                    return ;
                },
            }
            budget = budget - 1;
        }
    }

    /// The pollable side: only the read end is ever registered.
    fn reader(&self) -> &Io {
        &self.reader
    }
}

impl Evented for Awakener {
    fn register(
        &self,
        selector: &mut Selector,
        token: Token,
        interest: EventSet,
        opts: PollOpt,
    ) -> Result<(), OsErr> {
        self.reader().register(selector, token, interest, opts)
    }

    fn reregister(
        &self,
        selector: &mut Selector,
        token: Token,
        interest: EventSet,
        opts: PollOpt,
    ) -> Result<(), OsErr> {
        self.reader().reregister(selector, token, interest, opts)
    }

    fn deregister(&self, selector: &mut Selector) -> Result<(), OsErr> {
        self.reader().deregister(selector)
    }
}

} // verus!
