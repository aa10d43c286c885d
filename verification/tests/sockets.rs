//! Live-kernel tests of the non-blocking socket primitives on loopback.

use amio::{
    accept, bind, connect, connect_outcome, dup, getsockname, listen, recvfrom, sendto, socket,
    to_nix_addr, to_std_addr, AddressFamily, EventSet, Events, InetAddr, Io, PollOpt, Selector,
    SockAddr, SockType, Token,
};

fn loopback(port: u16) -> InetAddr {
    InetAddr::V4 { a: 127, b: 0, c: 0, d: 1, port }
}

// Some build hosts run tests with the network stack disabled, where even a
// loopback connection is refused with "network unreachable" or a permission
// error. The steps that need a live loopback are skipped there.
fn loopback_disabled(e: &amio::OsErr) -> bool {
    e.code == 101 || e.code == 1 || e.code == 13
}

fn bound_port(io: &Io) -> u16 {
    match getsockname(io).unwrap() {
        SockAddr::Inet(InetAddr::V4 { port, .. }) => port,
        other => panic!("expected an IPv4 address, got {:?}", other),
    }
}

#[test]
fn address_conversion_round_trips() {
    let v4 = loopback(4711);
    assert_eq!(to_std_addr(to_nix_addr(v4)), v4);
    let v6 = InetAddr::V6 {
        segments: [0, 0, 0, 0, 0, 0, 0, 1],
        port: 4712,
        flowinfo: 0,
        scope_id: 0,
    };
    assert_eq!(to_std_addr(to_nix_addr(v6)), v6);
}

#[test]
fn connect_outcome_classifies_codes() {
    assert_eq!(connect_outcome(Ok(())), Ok(true));
    assert_eq!(connect_outcome(Err(115)), Ok(false));
    let failed = connect_outcome(Err(111));
    assert_eq!(failed.unwrap_err().code, 111);
}

#[test]
fn accept_would_block_then_succeeds_after_connect() {
    let listener = Io::from_fd(socket(AddressFamily::Inet, SockType::Stream, true).unwrap());
    bind(&listener, &loopback(0)).unwrap();
    listen(&listener, 8).unwrap();
    let port = bound_port(&listener);

    // With no pending connection, a non-blocking accept reports the
    // expected would-block outcome, not a hard failure.
    let pending = accept(&listener, true);
    assert!(pending.unwrap_err().is_would_block());

    // A non-blocking connect to a listening loopback address either
    // completes at once or reports in-progress.
    let client = Io::from_fd(socket(AddressFamily::Inet, SockType::Stream, true).unwrap());
    let connected = match connect(&client, &loopback(port)) {
        Ok(b) => b,
        Err(e) if loopback_disabled(&e) => return,
        Err(e) => panic!("connect failed: {:?}", e),
    };

    let mut sel = Selector::new().unwrap();
    let mut events = Events::new();
    if !connected {
        // In progress: writable interest reports ready once the
        // connection completes.
        sel.register(client.as_raw_fd(), Token(1), EventSet::writable(), PollOpt::level())
            .unwrap();
        sel.select(&mut events, Some(2000)).unwrap();
        assert_eq!(events.len(), 1);
        let ev = events.get(0);
        assert_eq!(ev.token, Token(1));
        assert!(ev.kind.is_writable());
        sel.deregister(client.as_raw_fd()).unwrap();
    }

    // The listener reports readable, and the next accept succeeds.
    sel.register(listener.as_raw_fd(), Token(2), EventSet::readable(), PollOpt::level()).unwrap();
    sel.select(&mut events, Some(2000)).unwrap();
    assert_eq!(events.len(), 1);
    assert_eq!(events.get(0).token, Token(2));
    assert!(events.get(0).kind.is_readable());
    let served = Io::from_fd(accept(&listener, true).unwrap());
    assert!(served.as_raw_fd() >= 0);
}

#[test]
fn datagrams_round_trip_on_loopback() {
    let receiver = Io::from_fd(socket(AddressFamily::Inet, SockType::Datagram, true).unwrap());
    bind(&receiver, &loopback(0)).unwrap();
    let recv_port = bound_port(&receiver);

    let sender = Io::from_fd(socket(AddressFamily::Inet, SockType::Datagram, true).unwrap());
    bind(&sender, &loopback(0)).unwrap();
    let send_port = bound_port(&sender);

    let sent = match sendto(&sender, &[0xde, 0xad, 0xbe, 0xef], &loopback(recv_port)) {
        Ok(n) => n,
        Err(e) if loopback_disabled(&e) => return,
        Err(e) => panic!("sendto failed: {:?}", e),
    };
    assert_eq!(sent, 4);

    let mut sel = Selector::new().unwrap();
    sel.register(receiver.as_raw_fd(), Token(3), EventSet::readable(), PollOpt::level()).unwrap();
    let mut events = Events::new();
    sel.select(&mut events, Some(2000)).unwrap();
    assert_eq!(events.len(), 1);
    assert!(events.get(0).kind.is_readable());

    let mut buf = vec![0u8; 16];
    let (n, from) = recvfrom(&receiver, &mut buf).unwrap();
    assert_eq!(n, 4);
    assert_eq!(&buf[..4], &[0xde, 0xad, 0xbe, 0xef]);
    // Bytes beyond the received count are untouched.
    assert_eq!(&buf[4..], &[0u8; 12]);
    match from {
        Some(SockAddr::Inet(InetAddr::V4 { a, b, c, d, port })) => {
            assert_eq!((a, b, c, d), (127, 0, 0, 1));
            assert_eq!(port, send_port);
        },
        other => panic!("expected the sender's IPv4 address, got {:?}", other),
    }
}

#[test]
fn dup_shares_the_file_table_entry() {
    let listener = Io::from_fd(socket(AddressFamily::Inet, SockType::Stream, true).unwrap());
    bind(&listener, &loopback(0)).unwrap();
    let port = bound_port(&listener);

    let copy = dup(&listener).unwrap();
    assert_ne!(copy.as_raw_fd(), listener.as_raw_fd());
    assert_eq!(bound_port(&copy), port);
}

#[test]
fn ipv6_socket_binds_and_reports_its_address() {
    // The unspecified address: hosts without a configured IPv6 loopback
    // still accept a bind to it.
    let v6 = InetAddr::V6 {
        segments: [0, 0, 0, 0, 0, 0, 0, 0],
        port: 0,
        flowinfo: 0,
        scope_id: 0,
    };
    let sock = Io::from_fd(socket(AddressFamily::Inet6, SockType::Datagram, true).unwrap());
    bind(&sock, &v6).unwrap();
    match getsockname(&sock).unwrap() {
        SockAddr::Inet(InetAddr::V6 { segments, port, .. }) => {
            assert_eq!(segments, [0, 0, 0, 0, 0, 0, 0, 0]);
            assert_ne!(port, 0);
        },
        other => panic!("expected an IPv6 address, got {:?}", other),
    }
}
