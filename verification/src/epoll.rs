//! The epoll backend: translation between the readiness model and native
//! event flags, the `Selector` owning one kernel poll instance, and the
//! `Events` buffer that a wait call fills.

use vstd::prelude::*;

use nix::sys::epoll::{epoll_create, epoll_ctl, epoll_wait, EpollEvent, EpollFlags, EpollOp};

use crate::error::{from_nix_error, os_result, OsErr};
use crate::event::{
    lemma_eventset_ext, lemma_from_kinds, lemma_union_kinds, spec_from_kinds, EventSet, IoEvent,
    PollOpt, Token,
};

verus! {

/// Native flag: data other than high-priority data may be read.
pub const EPOLLIN: u32 = 0x001;

/// Native flag: writing is possible.
pub const EPOLLOUT: u32 = 0x004;

/// Native flag: an error condition happened; reported by the kernel even
/// when not requested.
pub const EPOLLERR: u32 = 0x008;

/// Native flag: hangup happened; reported by the kernel even when not
/// requested.
pub const EPOLLHUP: u32 = 0x010;

/// Native flag: the peer closed its end of the connection.
pub const EPOLLRDHUP: u32 = 0x2000;

/// Native flag: oneshot delivery; the kernel retires the interest after the
/// first event.
pub const EPOLLONESHOT: u32 = 0x4000_0000;

/// Native flag: edge-triggered delivery.
pub const EPOLLET: u32 = 0x8000_0000;

/// The most ready records one wait call can report.
pub const MAX_EVENTS: usize = 1024;

/// The native flags that a readiness interest and an option pair translate
/// to: one flag per set bit, with edge-triggered delivery suppressed when
/// level-triggered delivery is also requested.
pub open spec fn spec_ioevent_to_epoll(interest: EventSet, opts: PollOpt) -> u32 {
    (if interest.spec_readable() {
        EPOLLIN
    } else {
        0
    }) | (if interest.spec_writable() {
        EPOLLOUT
    } else {
        0
    }) | (if interest.spec_hup() {
        EPOLLRDHUP
    } else {
        0
    }) | (if opts.spec_edge() && !opts.spec_level() {
        EPOLLET
    } else {
        0
    }) | (if opts.spec_oneshot() {
        EPOLLONESHOT
    } else {
        0
    })
}

/// Translates a readiness interest and an option pair to native flags.
///
/// Each modeled kind maps to exactly one native flag. Level and edge are
/// mutually exclusive in the emitted flags: when both are requested, edge
/// is suppressed in favor of level, the safe default semantics.
pub fn ioevent_to_epoll(interest: EventSet, opts: PollOpt) -> (r: u32)
    ensures
        r == spec_ioevent_to_epoll(interest, opts),
{
    let rd: u32 = if interest.is_readable() {
        EPOLLIN
    } else {
        0
    };
    let wr: u32 = if interest.is_writable() {
        EPOLLOUT
    } else {
        0
    };
    let hp: u32 = if interest.is_hup() {
        EPOLLRDHUP
    } else {
        0
    };
    let et: u32 = if opts.is_edge() && !opts.is_level() {
        EPOLLET
    } else {
        0
    };
    let os: u32 = if opts.is_oneshot() {
        EPOLLONESHOT
    } else {
        0
    };
    rd | wr | hp | et | os
}

/// The readiness value folded out of native flags: the four modeled kinds
/// are kept, the native hangup and peer-closed flags fold into the single
/// modeled hangup kind, and every other native flag is ignored.
pub open spec fn spec_epoll_to_eventset(flags: u32) -> EventSet {
    spec_from_kinds(
        flags & EPOLLIN != 0,
        flags & EPOLLOUT != 0,
        flags & EPOLLERR != 0,
        flags & (EPOLLRDHUP | EPOLLHUP) != 0,
    )
}

/// Folds native flags back into the readiness model, ignoring native flags
/// outside the modeled set.
pub fn epoll_to_eventset(flags: u32) -> (r: EventSet)
    ensures
        r == spec_epoll_to_eventset(flags),
        r.wf(),
{
    let rd = EventSet::readable();
    let wr = EventSet::writable();
    let er = EventSet::error();
    let hp = EventSet::hup();
    let mut kind = EventSet::none();
    if flags & EPOLLIN != 0 {
        proof {
            lemma_union_kinds(kind, rd);
        }
        kind = kind.union(rd);
    }
    if flags & EPOLLOUT != 0 {
        proof {
            lemma_union_kinds(kind, wr);
        }
        kind = kind.union(wr);
    }
    if flags & EPOLLERR != 0 {
        proof {
            lemma_union_kinds(kind, er);
        }
        kind = kind.union(er);
    }
    if flags & EPOLLRDHUP != 0 || flags & EPOLLHUP != 0 {
        proof {
            lemma_union_kinds(kind, hp);
        }
        kind = kind.union(hp);
    }
    proof {
        assert((flags & (EPOLLRDHUP | EPOLLHUP) != 0) == (flags & EPOLLRDHUP != 0 || flags
            & EPOLLHUP != 0)) by (bit_vector);
        lemma_from_kinds(
            flags & EPOLLIN != 0,
            flags & EPOLLOUT != 0,
            flags & EPOLLERR != 0,
            flags & (EPOLLRDHUP | EPOLLHUP) != 0,
        );
        lemma_eventset_ext(kind, spec_epoll_to_eventset(flags));
    }
    kind
}

/// Translating an interest and an option pair to native flags and folding
/// the flags back yields the readable, writable and hangup bits that were
/// set as interest, and never a spurious error bit: the error kind only
/// ever arises from the kernel, not from caller-set interest.
pub proof fn lemma_interest_round_trip(interest: EventSet, opts: PollOpt)
    ensures
        spec_epoll_to_eventset(spec_ioevent_to_epoll(interest, opts)).spec_readable()
            == interest.spec_readable(),
        spec_epoll_to_eventset(spec_ioevent_to_epoll(interest, opts)).spec_writable()
            == interest.spec_writable(),
        !spec_epoll_to_eventset(spec_ioevent_to_epoll(interest, opts)).spec_error(),
        spec_epoll_to_eventset(spec_ioevent_to_epoll(interest, opts)).spec_hup()
            == interest.spec_hup(),
{
    let a: u32 = if interest.spec_readable() {
        EPOLLIN
    } else {
        0
    };
    let b: u32 = if interest.spec_writable() {
        EPOLLOUT
    } else {
        0
    };
    let c: u32 = if interest.spec_hup() {
        EPOLLRDHUP
    } else {
        0
    };
    let d: u32 = if opts.spec_edge() && !opts.spec_level() {
        EPOLLET
    } else {
        0
    };
    let e: u32 = if opts.spec_oneshot() {
        EPOLLONESHOT
    } else {
        0
    };
    assert(((a | b | c | d | e) & EPOLLIN != 0) == (a == EPOLLIN) && ((a | b | c | d | e) & EPOLLOUT
        != 0) == (b == EPOLLOUT) && (a | b | c | d | e) & EPOLLERR == 0 && ((a | b | c | d | e)
        & (EPOLLRDHUP | EPOLLHUP) != 0) == (c == EPOLLRDHUP)) by (bit_vector)
        requires
            (a == EPOLLIN || a == 0) && (b == EPOLLOUT || b == 0) && (c == EPOLLRDHUP || c == 0)
                && (d == EPOLLET || d == 0) && (e == EPOLLONESHOT || e == 0),
    ;
    lemma_from_kinds(
        spec_ioevent_to_epoll(interest, opts) & EPOLLIN != 0,
        spec_ioevent_to_epoll(interest, opts) & EPOLLOUT != 0,
        spec_ioevent_to_epoll(interest, opts) & EPOLLERR != 0,
        spec_ioevent_to_epoll(interest, opts) & (EPOLLRDHUP | EPOLLHUP) != 0,
    );
}

/// A ready record whose native flags are exactly what the translation
/// emitted for an interest and option pair decodes — along the same path
/// `Events::get` takes — to the readable, writable and hangup interest the
/// caller set, and never to a spurious error kind.
pub proof fn lemma_record_decode_round_trip(rec: NativeEvent, interest: EventSet, opts: PollOpt)
    requires
        rec.flags == spec_ioevent_to_epoll(interest, opts),
    ensures
        spec_epoll_to_eventset(rec.flags).spec_readable() == interest.spec_readable(),
        spec_epoll_to_eventset(rec.flags).spec_writable() == interest.spec_writable(),
        !spec_epoll_to_eventset(rec.flags).spec_error(),
        spec_epoll_to_eventset(rec.flags).spec_hup() == interest.spec_hup(),
{
    lemma_interest_round_trip(interest, opts);
}

/// A token survives the trip through the kernel payload bit-for-bit: the
/// 64-bit payload a registration attaches decodes back to the token it was
/// made from, as `Events::get` reads it.
pub proof fn lemma_token_round_trip(t: Token)
    ensures
        (Token((t.0 as u64) as usize)) == t,
{
}

/// One native ready record as the kernel reports it: the native flags and
/// the opaque payload given at registration.
#[derive(Clone, Copy, Debug, PartialEq, Eq, Structural)]
pub struct NativeEvent {
    /// The native readiness flags of this record.
    pub flags: u32,
    /// The payload attached at registration, returned verbatim.
    pub data: u64,
}

/// An owned, reusable buffer of ready records, pre-sized to the most one
/// wait call can report. Its logical length is set only by the most recent
/// wait; slots beyond that length are not readable.
pub struct Events {
    records: Vec<NativeEvent>,
}

impl View for Events {
    type V = Seq<NativeEvent>;

    closed spec fn view(&self) -> Seq<NativeEvent> {
        self.records@
    }
}

impl Events {
    /// An empty buffer, to be filled by a wait call; its backing storage is
    /// pre-sized to the fixed capacity a wait can fill, so waits reuse it
    /// rather than grow it.
    pub fn new() -> (r: Events)
        ensures
            r@.len() == 0,
    {
        Events { records: Vec::with_capacity(MAX_EVENTS) }
    }

    /// The number of ready records from the last wait call.
    pub fn len(&self) -> (r: usize)
        ensures
            r == self@.len(),
    {
        self.records.len()
    }

    /// Decodes the record at `idx`: the native flags are folded into the
    /// readiness model and the payload is reinterpreted as the original
    /// token bit-for-bit. Only indices below `len()` are valid.
    pub fn get(&self, idx: usize) -> (r: IoEvent)
        requires
            idx < self@.len(),
        ensures
            r.kind == spec_epoll_to_eventset(self@[idx as int].flags),
            r.kind.wf(),
            r.token == (Token(self@[idx as int].data as usize)),
    {
        let kind = epoll_to_eventset(self.records[idx].flags);
        let token = Token(self.records[idx].data as usize);
        IoEvent::new(kind, token)
    }
}

/// Which change a registration call asks of the kernel.
enum CtlOp {
    /// Add a new registration; the kernel refuses a descriptor that is
    /// already registered.
    Add,
    /// Modify an existing registration; the kernel refuses a descriptor
    /// that is not registered.
    Mod,
    /// Remove a registration.
    Del,
}

/// Relies on nix::sys::epoll::epoll_create: creates a new kernel poll
/// instance and returns its descriptor, non-negative on success, or the
/// raw error code.
#[verifier::external_body]
fn sys_epoll_create() -> (r: Result<i32, i32>)
    ensures
        r matches Ok(fd) ==> fd >= 0,
{
    epoll_create().map_err(|e| e as i32)
}

/// Relies on nix::sys::epoll::epoll_ctl: adds, modifies or removes the
/// registration of `fd` on the poll instance `epfd`, attaching the given
/// native flags and payload. A well-formed event record is always passed,
/// even for a removal whose record the kernel ignores.
#[verifier::external_body]
fn sys_epoll_ctl(epfd: i32, op: CtlOp, fd: i32, flags: u32, data: u64) -> (r: Result<(), i32>) {
    let nix_op = match op {
        CtlOp::Add => EpollOp::EpollCtlAdd,
        CtlOp::Mod => EpollOp::EpollCtlMod,
        CtlOp::Del => EpollOp::EpollCtlDel,
    };
    let mut record = EpollEvent::new(EpollFlags::from_bits_truncate(flags as i32), data);
    epoll_ctl(epfd, nix_op, fd, &mut record).map_err(|e| e as i32)
}

/// Relies on nix::sys::epoll::epoll_wait: blocks for at most `timeout_ms`
/// milliseconds (indefinitely when negative) and refills `buf` in place
/// with at most `max` ready records, each carrying the native flags and
/// the payload that was given at registration; on failure `buf` is left
/// untouched and the raw error code is returned.
#[verifier::external_body]
fn sys_epoll_wait(epfd: i32, max: usize, timeout_ms: i32, buf: &mut Vec<NativeEvent>) -> (r: Result<
    (),
    i32,
>)
    ensures
        r matches Ok(()) ==> final(buf)@.len() <= max,
        r matches Err(_) ==> final(buf)@ == old(buf)@,
{
    let mut scratch = vec![EpollEvent::empty(); max];
    match epoll_wait(epfd, &mut scratch, timeout_ms as isize) {
        Ok(n) => {
            buf.clear();
            for record in scratch[..n].iter() {
                buf.push(NativeEvent { flags: record.events().bits() as u32, data: record.data() });
            }
            Ok(())
        },
        Err(e) => Err(e as i32),
    }
}

/// The exclusive owner of one kernel poll instance.
///
/// The identity reported by `id` is the poll instance's own descriptor
/// number: the kernel never has two live instances on one descriptor, so
/// the identity distinguishes any two selectors that are alive at the same
/// time, which is what the cross-instance registration invariant needs.
#[derive(Debug)]
pub struct Selector {
    id: usize,
    epfd: i32,
}

impl Selector {
    /// The identity this selector carries.
    pub closed spec fn spec_id(&self) -> usize {
        self.id
    }

    /// The descriptor of the owned poll instance.
    pub closed spec fn spec_epfd(&self) -> i32 {
        self.epfd
    }

    /// A selector owns a real descriptor and carries it as its identity.
    pub closed spec fn wf(&self) -> bool {
        self.epfd >= 0 && self.id == self.epfd as usize
    }

    /// Creates the kernel poll instance, or surfaces the OS error when the
    /// kernel call fails.
    pub fn new() -> (r: Result<Selector, OsErr>)
        ensures
            r matches Ok(s) ==> s.wf(),
    {
        match sys_epoll_create() {
            Ok(epfd) => Ok(Selector { id: epfd as usize, epfd }),
            Err(code) => Err(from_nix_error(code)),
        }
    }

    /// The identity of this selector.
    pub fn id(&self) -> (r: usize)
        ensures
            r == self.spec_id(),
    {
        self.id
    }

    /// Waits until at least one registered interest is satisfied, the
    /// timeout elapses, or the wait is interrupted; on success the buffer's
    /// logical length becomes the number of ready records, and on failure
    /// the buffer is left untouched. `None` means wait indefinitely; a
    /// finite timeout is clamped to the largest native wait.
    pub fn select(&mut self, evts: &mut Events, timeout_ms: Option<usize>) -> (r: Result<
        (),
        OsErr,
    >)
        ensures
            *final(self) == *old(self),
            r matches Ok(()) ==> final(evts)@.len() <= MAX_EVENTS,
            r matches Err(_) ==> final(evts)@ == old(evts)@,
    {
        let tm = clamp_timeout(timeout_ms);
        match sys_epoll_wait(self.epfd, MAX_EVENTS, tm, &mut evts.records) {
            Ok(()) => Ok(()),
            Err(code) => Err(from_nix_error(code)),
        }
    }

    /// Registers interest in `fd` under `token`: translates the interest
    /// and options to native flags and asks the kernel to add the
    /// registration. The kernel refuses a descriptor that is already
    /// registered, and that refusal is surfaced unchanged.
    pub fn register(
        &mut self,
        fd: i32,
        token: Token,
        interests: EventSet,
        opts: PollOpt,
    ) -> (r: Result<(), OsErr>)
        ensures
            *final(self) == *old(self),
    {
        let flags = ioevent_to_epoll(interests, opts);
        os_result(sys_epoll_ctl(self.epfd, CtlOp::Add, fd, flags, token.as_usize() as u64))
    }

    /// Replaces the registered interest of `fd`: translates the interest
    /// and options to native flags and asks the kernel to modify the
    /// registration. The kernel refuses a descriptor that was never
    /// registered, and that refusal is surfaced unchanged.
    pub fn reregister(
        &mut self,
        fd: i32,
        token: Token,
        interests: EventSet,
        opts: PollOpt,
    ) -> (r: Result<(), OsErr>)
        ensures
            *final(self) == *old(self),
    {
        let flags = ioevent_to_epoll(interests, opts);
        os_result(sys_epoll_ctl(self.epfd, CtlOp::Mod, fd, flags, token.as_usize() as u64))
    }

    /// Removes any registered interest of `fd`. A zeroed event record is
    /// still handed to the kernel, for hosts whose removal call requires a
    /// non-null record it then ignores.
    pub fn deregister(&mut self, fd: i32) -> (r: Result<(), OsErr>)
        ensures
            *final(self) == *old(self),
    {
        os_result(sys_epoll_ctl(self.epfd, CtlOp::Del, fd, 0, 0))
    }
}

impl Drop for Selector {
    /// Relies on nix::unistd::close: closes the owned poll instance
    /// descriptor exactly once; an error from the close of a descriptor
    /// about to be discarded is not actionable and is deliberately
    /// dropped.
    #[verifier::external_body]
    fn drop(&mut self)
        opens_invariants none
        no_unwind
    {
        let _ = nix::unistd::close(self.epfd);
    }
}

/// Clamps a requested wait to the native call's convention: no timeout maps
/// to a negative wait (indefinite), and a finite timeout is clamped to the
/// largest representable native wait, never silently waiting forever.
pub fn clamp_timeout(timeout_ms: Option<usize>) -> (r: i32)
    ensures
        timeout_ms is None ==> r == -1,
        timeout_ms matches Some(x) ==> r == if x > i32::MAX as usize {
            i32::MAX as int
        } else {
            x as int
        },
{
    match timeout_ms {
        None => -1,
        Some(x) => if x > i32::MAX as usize {
            i32::MAX
        } else {
            x as i32
        },
    }
}

} // verus!
