//! Live-kernel tests of the pipe-based wakeup primitive.

use amio::{Awakener, EventSet, Events, Evented, PollOpt, Selector, Token};

const WAKE: Token = Token(31);

#[test]
fn wakeups_coalesce_into_one_readable_event() {
    let mut sel = Selector::new().unwrap();
    let awakener = Awakener::new().unwrap();
    awakener.register(&mut sel, WAKE, EventSet::readable(), PollOpt::level()).unwrap();

    // Several wakeups before one wait still produce at least one readable
    // event for the awakener's token in that single wait.
    awakener.wakeup().unwrap();
    awakener.wakeup().unwrap();
    awakener.wakeup().unwrap();

    let mut events = Events::new();
    sel.select(&mut events, Some(1000)).unwrap();
    let mut seen = 0;
    for i in 0..events.len() {
        let ev = events.get(i);
        if ev.token == WAKE {
            assert!(ev.kind.is_readable());
            seen += 1;
        }
    }
    assert!(seen >= 1);

    // After a drain, a wait with no new wakeup and no other activity times
    // out without an event for that token.
    awakener.cleanup();
    sel.select(&mut events, Some(50)).unwrap();
    for i in 0..events.len() {
        assert_ne!(events.get(i).token, WAKE);
    }
    assert_eq!(events.len(), 0);
}

#[test]
fn wakeup_works_again_after_cleanup() {
    let mut sel = Selector::new().unwrap();
    let awakener = Awakener::new().unwrap();
    awakener.register(&mut sel, WAKE, EventSet::readable(), PollOpt::level()).unwrap();

    let mut events = Events::new();
    awakener.wakeup().unwrap();
    sel.select(&mut events, Some(1000)).unwrap();
    assert_eq!(events.len(), 1);
    awakener.cleanup();

    awakener.wakeup().unwrap();
    sel.select(&mut events, Some(1000)).unwrap();
    assert_eq!(events.len(), 1);
    assert_eq!(events.get(0).token, WAKE);

    awakener.deregister(&mut sel).unwrap();
    awakener.cleanup();
}
