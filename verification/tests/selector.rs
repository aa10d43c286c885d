//! Live-kernel tests of the Selector: registration semantics, timeouts and
//! oneshot delivery.

use amio::error::{EEXIST, ENOENT};
use amio::{pipe, EventSet, Events, PollOpt, Selector, Token};

#[test]
fn selectors_have_distinct_ids() {
    let a = Selector::new().unwrap();
    let b = Selector::new().unwrap();
    assert_ne!(a.id(), b.id());
}

#[test]
fn select_times_out_with_nothing_registered() {
    let mut sel = Selector::new().unwrap();
    let mut events = Events::new();
    sel.select(&mut events, Some(10)).unwrap();
    assert_eq!(events.len(), 0);
}

#[test]
fn register_twice_fails_reregister_fresh_fails() {
    let mut sel = Selector::new().unwrap();
    let (rd, wr) = pipe().unwrap();

    // Adding a registration for a fresh descriptor succeeds.
    sel.register(rd.as_raw_fd(), Token(1), EventSet::readable(), PollOpt::level()).unwrap();

    // Adding a second registration for the same descriptor without an
    // intervening deregister is the kernel's own error.
    let again = sel.register(rd.as_raw_fd(), Token(2), EventSet::readable(), PollOpt::level());
    assert_eq!(again.unwrap_err().code, EEXIST);

    // Modifying a never-registered descriptor is the kernel's own error.
    let fresh = sel.reregister(wr.as_raw_fd(), Token(3), EventSet::writable(), PollOpt::level());
    assert_eq!(fresh.unwrap_err().code, ENOENT);

    // Deregister followed by register succeeds.
    sel.deregister(rd.as_raw_fd()).unwrap();
    sel.register(rd.as_raw_fd(), Token(4), EventSet::readable(), PollOpt::level()).unwrap();
}

#[test]
fn ready_event_carries_token_and_kind() {
    let mut sel = Selector::new().unwrap();
    let (rd, wr) = pipe().unwrap();

    // The write end of a fresh pipe is writable; no error or hangup may
    // appear on a quiescent, healthy descriptor.
    sel.register(wr.as_raw_fd(), Token(9), EventSet::writable(), PollOpt::level()).unwrap();
    let mut events = Events::new();
    sel.select(&mut events, Some(1000)).unwrap();
    assert_eq!(events.len(), 1);
    let ev = events.get(0);
    assert_eq!(ev.token, Token(9));
    assert!(ev.kind.is_writable());
    assert!(!ev.kind.is_readable());
    assert!(!ev.kind.is_error());
    assert!(!ev.kind.is_hup());

    // The read end with nothing buffered reports nothing.
    sel.deregister(wr.as_raw_fd()).unwrap();
    sel.register(rd.as_raw_fd(), Token(10), EventSet::readable(), PollOpt::level()).unwrap();
    sel.select(&mut events, Some(10)).unwrap();
    assert_eq!(events.len(), 0);

    // After a write, the read end reports readable under its token.
    wr.try_write(&[7u8]).unwrap();
    sel.select(&mut events, Some(1000)).unwrap();
    assert_eq!(events.len(), 1);
    let ev = events.get(0);
    assert_eq!(ev.token, Token(10));
    assert!(ev.kind.is_readable());
    assert!(!ev.kind.is_error());
}

#[test]
fn events_buffer_keeps_last_ready_set() {
    let mut sel = Selector::new().unwrap();
    let (_rd, wr) = pipe().unwrap();
    sel.register(wr.as_raw_fd(), Token(1), EventSet::writable(), PollOpt::level()).unwrap();
    let mut events = Events::new();
    sel.select(&mut events, Some(1000)).unwrap();
    assert_eq!(events.len(), 1);

    // A failed registration call elsewhere does not disturb the buffer: it
    // still holds exactly the ready set of the most recent wait.
    let bogus = sel.reregister(-1, Token(2), EventSet::readable(), PollOpt::level());
    assert!(bogus.is_err());
    assert_eq!(events.len(), 1);
    assert_eq!(events.get(0).token, Token(1));
}

#[test]
fn extreme_token_survives_the_kernel_round_trip() {
    let mut sel = Selector::new().unwrap();
    let (_rd, wr) = pipe().unwrap();
    sel.register(wr.as_raw_fd(), Token(usize::MAX), EventSet::writable(), PollOpt::level())
        .unwrap();
    let mut events = Events::new();
    sel.select(&mut events, Some(1000)).unwrap();
    assert_eq!(events.len(), 1);
    assert_eq!(events.get(0).token.as_usize(), usize::MAX);
}

#[test]
fn oneshot_delivers_once_until_reregister() {
    let mut sel = Selector::new().unwrap();
    let (rd, wr) = pipe().unwrap();
    wr.try_write(&[1u8]).unwrap();

    sel.register(rd.as_raw_fd(), Token(5), EventSet::readable(), PollOpt::oneshot()).unwrap();
    let mut events = Events::new();
    sel.select(&mut events, Some(1000)).unwrap();
    assert_eq!(events.len(), 1);
    assert_eq!(events.get(0).token, Token(5));
    assert!(events.get(0).kind.is_readable());

    // The data is still buffered, but the oneshot interest is retired: no
    // further event arrives until an explicit reregister.
    sel.select(&mut events, Some(50)).unwrap();
    assert_eq!(events.len(), 0);

    sel.reregister(rd.as_raw_fd(), Token(6), EventSet::readable(), PollOpt::oneshot()).unwrap();
    sel.select(&mut events, Some(1000)).unwrap();
    assert_eq!(events.len(), 1);
    assert_eq!(events.get(0).token, Token(6));
}
