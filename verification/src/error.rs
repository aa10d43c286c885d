//! The error model: a kernel call failure carrying the host error code
//! verbatim, with the expected non-failure conditions distinguishable.

use vstd::prelude::*;

verus! {

/// The Linux error code for "operation would block" (`EAGAIN`, which equals
/// `EWOULDBLOCK` on Linux).
pub const EAGAIN: i32 = 11;

/// The Linux error code for "operation now in progress" (`EINPROGRESS`).
pub const EINPROGRESS: i32 = 115;

/// The Linux error code for "file exists" (`EEXIST`), which the kernel
/// returns when an already registered descriptor is registered again.
pub const EEXIST: i32 = 17;

/// The Linux error code for "no such file or directory" (`ENOENT`), which
/// the kernel returns when a never-registered descriptor is modified.
pub const ENOENT: i32 = 2;

/// An operating-system error: the raw error code of a failed kernel call,
/// propagated to the caller unchanged.
#[derive(Clone, Copy, Debug, PartialEq, Eq, Structural, Hash)]
pub struct OsErr {
    /// The host error code, verbatim.
    pub code: i32,
}

impl OsErr {
    /// The raw host error code.
    pub fn raw_os_error(&self) -> (r: i32)
        ensures
            r == self.code,
    {
        self.code
    }

    /// True when the error is the expected "nothing available yet" outcome
    /// of a non-blocking operation, to be retried rather than reported.
    pub fn is_would_block(&self) -> (r: bool)
        ensures
            r == (self.code == EAGAIN),
    {
        self.code == EAGAIN
    }
}

/// Turns a raw error code, as the kernel bindings hand it back, into the
/// library's error value. The code is preserved verbatim.
pub fn from_nix_error(errno: i32) -> (r: OsErr)
    ensures
        r.code == errno,
{
    OsErr { code: errno }
}

/// The propagation policy in one place: a kernel success passes through
/// unchanged, and a kernel failure surfaces to the caller with the
/// originating code preserved verbatim — never swallowed, never reworded.
pub fn os_result<T>(res: Result<T, i32>) -> (r: Result<T, OsErr>)
    ensures
        res matches Ok(v) ==> r == Ok::<T, OsErr>(v),
        res matches Err(c) ==> r == Err::<T, OsErr>((OsErr { code: c })),
{
    match res {
        Ok(v) => Ok(v),
        Err(code) => Err(from_nix_error(code)),
    }
}

} // verus!
