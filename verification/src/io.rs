//! A thin owned-descriptor wrapper, the pollable-resource capability, and
//! pipe creation.

use vstd::prelude::*;

use crate::epoll::Selector;
use crate::error::{from_nix_error, OsErr, EAGAIN};
use crate::event::{EventSet, PollOpt, Token};

verus! {

/// An owned file descriptor: ownership transfers in at construction and the
/// descriptor is closed when the owner drops it.
#[derive(Debug)]
pub struct Io {
    fd: i32,
}

/// The capability every registerable resource satisfies: it can be
/// registered with, reregistered with and deregistered from a `Selector`.
///
/// A resource registered with one selector should not later be registered
/// with a different one; a descriptor is registered with at most one
/// selector at a time.
pub trait Evented {
    /// Registers the resource's descriptor under `token`; the selector
    /// value itself is preserved.
    fn register(
        &self,
        selector: &mut Selector,
        token: Token,
        interest: EventSet,
        opts: PollOpt,
    ) -> (r: Result<(), OsErr>)
        ensures
            *final(selector) == *old(selector),
    ;

    /// Replaces the registered interest of the resource's descriptor; the
    /// selector value itself is preserved.
    fn reregister(
        &self,
        selector: &mut Selector,
        token: Token,
        interest: EventSet,
        opts: PollOpt,
    ) -> (r: Result<(), OsErr>)
        ensures
            *final(selector) == *old(selector),
    ;

    /// Removes any registered interest of the resource's descriptor; the
    /// selector value itself is preserved.
    fn deregister(&self, selector: &mut Selector) -> (r: Result<(), OsErr>)
        ensures
            *final(selector) == *old(selector),
    ;
}

impl Io {
    /// The wrapped descriptor.
    pub closed spec fn spec_fd(&self) -> i32 {
        self.fd
    }

    /// Takes ownership of a raw descriptor; the new `Io` will close it.
    pub fn from_fd(fd: i32) -> (r: Io)
        ensures
            r.spec_fd() == fd,
    {
        Io { fd }
    }

    /// The raw descriptor, still owned by this `Io`.
    pub fn as_raw_fd(&self) -> (r: i32)
        ensures
            r == self.spec_fd(),
    {
        self.fd
    }

    /// Reads into the front of `buf`. `Ok(Some(n))` reports `n` bytes read
    /// (0 at end of stream), and only those first `n` bytes are written;
    /// the would-block condition of a non-blocking descriptor is the
    /// expected `Ok(None)` outcome, not a failure, leaving the buffer
    /// untouched; every other error surfaces unchanged.
    pub fn try_read(&self, buf: &mut Vec<u8>) -> (r: Result<Option<usize>, OsErr>)
        ensures
            final(buf)@.len() == old(buf)@.len(),
            r matches Ok(Some(n)) ==> n <= final(buf)@.len() && final(buf)@.skip(n as int) == old(
                buf,
            )@.skip(n as int),
            r matches Ok(None::<usize>) ==> final(buf)@ == old(buf)@,
            r matches Err(e) ==> e.code != EAGAIN && final(buf)@ == old(buf)@,
    {
        match sys_read(self.fd, buf) {
            Ok(n) => Ok(Some(n)),
            Err(code) => if code == EAGAIN {
                Ok(None)
            } else {
                Err(from_nix_error(code))
            },
        }
    }

    /// Writes from `buf`. `Ok(Some(n))` reports `n` bytes written; the
    /// would-block condition is the expected `Ok(None)` outcome, not a
    /// failure; every other error surfaces unchanged.
    pub fn try_write(&self, buf: &[u8]) -> (r: Result<Option<usize>, OsErr>)
        ensures
            r matches Ok(Some(n)) ==> n <= buf@.len(),
            r matches Err(e) ==> e.code != EAGAIN,
    {
        match sys_write(self.fd, buf) {
            Ok(n) => Ok(Some(n)),
            Err(code) => if code == EAGAIN {
                Ok(None)
            } else {
                Err(from_nix_error(code))
            },
        }
    }
}

impl Evented for Io {
    fn register(
        &self,
        selector: &mut Selector,
        token: Token,
        interest: EventSet,
        opts: PollOpt,
    ) -> (r: Result<(), OsErr>) {
        selector.register(self.as_raw_fd(), token, interest, opts)
    }

    fn reregister(
        &self,
        selector: &mut Selector,
        token: Token,
        interest: EventSet,
        opts: PollOpt,
    ) -> (r: Result<(), OsErr>) {
        selector.reregister(self.as_raw_fd(), token, interest, opts)
    }

    fn deregister(&self, selector: &mut Selector) -> (r: Result<(), OsErr>) {
        selector.deregister(self.as_raw_fd())
    }
}

impl Drop for Io {
    /// Relies on nix::unistd::close: closes the owned descriptor exactly
    /// once; an error from the close of a descriptor about to be discarded
    /// is not actionable and is deliberately dropped.
    #[verifier::external_body]
    fn drop(&mut self)
        opens_invariants none
        no_unwind
    {
        let _ = nix::unistd::close(self.fd);
    }
}

/// Creates a unidirectional pipe and returns (read end, write end): two
/// fresh, distinct descriptors, both non-blocking and close-on-exec from
/// the moment they exist; or surfaces the OS error when the kernel call
/// fails.
pub fn pipe() -> (r: Result<(Io, Io), OsErr>)
    ensures
        r matches Ok(ends) ==> ends.0.spec_fd() >= 0 && ends.1.spec_fd() >= 0
            && ends.0.spec_fd() != ends.1.spec_fd(),
{
    match sys_pipe() {
        Ok((rd, wr)) => Ok((Io::from_fd(rd), Io::from_fd(wr))),
        Err(code) => Err(from_nix_error(code)),
    }
}

/// Relies on nix::unistd::pipe2: creates a pipe whose two descriptors are
/// made non-blocking and close-on-exec atomically with creation, returning
/// (read end, write end) — two fresh, therefore distinct, descriptors,
/// both non-negative on success — or the raw error code.
#[verifier::external_body]
fn sys_pipe() -> (r: Result<(i32, i32), i32>)
    ensures
        r matches Ok(fds) ==> fds.0 >= 0 && fds.1 >= 0 && fds.0 != fds.1,
{
    let flags = nix::fcntl::OFlag::O_NONBLOCK | nix::fcntl::OFlag::O_CLOEXEC;
    nix::unistd::pipe2(flags).map_err(|e| e as i32)
}

/// Relies on nix::unistd::read: reads at most `buf.len()` bytes from `fd`
/// into the front of `buf`, returning how many were read (0 at end of
/// stream), or the raw error code; a non-blocking descriptor with nothing
/// buffered fails with the would-block code. Only the first `n` bytes are
/// written: the rest of the buffer is untouched, as is all of it on
/// failure.
#[verifier::external_body]
fn sys_read(fd: i32, buf: &mut Vec<u8>) -> (r: Result<usize, i32>)
    ensures
        final(buf)@.len() == old(buf)@.len(),
        r matches Ok(n) ==> n <= final(buf)@.len() && final(buf)@.skip(n as int) == old(
            buf,
        )@.skip(n as int),
        r matches Err(_) ==> final(buf)@ == old(buf)@,
{
    nix::unistd::read(fd, buf.as_mut_slice()).map_err(|e| e as i32)
}

/// Relies on nix::unistd::write: writes at most `buf.len()` bytes from
/// `buf` to `fd`, returning how many were written, or the raw error code;
/// a non-blocking descriptor with no room fails with the would-block code.
#[verifier::external_body]
fn sys_write(fd: i32, buf: &[u8]) -> (r: Result<usize, i32>)
    ensures
        r matches Ok(n) ==> n <= buf@.len(),
{
    nix::unistd::write(fd, buf).map_err(|e| e as i32)
}

} // verus!
