//! Non-blocking socket primitives, and the plain-value address model the
//! library states its contracts over.

use vstd::prelude::*;

use crate::error::{from_nix_error, os_result, OsErr, EINPROGRESS};
use crate::io::Io;
use nix::sys::socket::{
    accept4, bind as nix_bind, connect as nix_connect, getsockname as nix_getsockname,
    listen as nix_listen, recvfrom as nix_recvfrom, sendto as nix_sendto, socket as nix_socket,
    AddressFamily as NixFamily, MsgFlags, SockFlag, SockType as NixType, SockaddrIn, SockaddrIn6,
    SockaddrStorage,
};

verus! {

/// The address family a socket is created in.
#[derive(Clone, Copy, Debug, PartialEq, Eq, Structural)]
pub enum AddressFamily {
    /// IPv4.
    Inet,
    /// IPv6.
    Inet6,
    /// The local (Unix-domain) family.
    Unix,
}

/// The communication style of a socket.
#[derive(Clone, Copy, Debug, PartialEq, Eq, Structural)]
pub enum SockType {
    /// A connection-oriented byte stream.
    Stream,
    /// A connectionless datagram socket.
    Datagram,
}

/// An Internet socket address, held as plain values: the address bytes or
/// segments, the port, and for IPv6 the flow and scope information.
#[derive(Clone, Copy, Debug, PartialEq, Eq)]
pub enum InetAddr {
    /// An IPv4 address `a.b.c.d` with a port.
    V4 { a: u8, b: u8, c: u8, d: u8, port: u16 },
    /// An IPv6 address given as its eight 16-bit segments, with a port,
    /// flow information and scope id.
    V6 { segments: [u16; 8], port: u16, flowinfo: u32, scope_id: u32 },
}

/// A native socket address: an Internet address, or one of the
/// non-Internet (local) domain, which the Internet conversion path must
/// never be handed.
#[derive(Clone, Copy, Debug, PartialEq, Eq)]
pub enum SockAddr {
    /// An Internet (IPv4 or IPv6) address.
    Inet(InetAddr),
    /// An address of the local domain.
    Unix,
}

/// The native address an Internet address converts to.
pub open spec fn spec_to_nix_addr(addr: InetAddr) -> SockAddr {
    SockAddr::Inet(addr)
}

/// The Internet address a native Internet address converts back to.
pub open spec fn spec_to_std_addr(addr: SockAddr) -> InetAddr
    recommends
        addr is Inet,
{
    addr->Inet_0
}

/// Wraps an Internet address as a native address.
pub fn to_nix_addr(addr: InetAddr) -> (r: SockAddr)
    ensures
        r == spec_to_nix_addr(addr),
{
    SockAddr::Inet(addr)
}

/// Unwraps a native address known to be an Internet address. Handing the
/// non-Internet variant to this path is a programming-contract violation
/// (the caller mixed address domains), so that input is excluded rather
/// than handled.
pub fn to_std_addr(addr: SockAddr) -> (r: InetAddr)
    requires
        addr is Inet,
    ensures
        r == spec_to_std_addr(addr),
{
    match addr {
        SockAddr::Inet(a) => a,
        SockAddr::Unix => vstd::pervasive::unreached(),
    }
}

/// The two conversions are mutually inverse: the native representation
/// maps bijectively to and from the Internet address representation.
pub proof fn lemma_addr_bijection(a: InetAddr, s: SockAddr)
    ensures
        spec_to_std_addr(spec_to_nix_addr(a)) == a,
        s is Inet ==> spec_to_nix_addr(spec_to_std_addr(s)) == s,
{
}

/// Creates a socket of the given family and type. The close-on-exec
/// property, and the non-blocking property when asked for, are set
/// atomically with creation, never by a later call, so no window exists in
/// which a forked child could inherit a blocking or leaked descriptor.
pub fn socket(family: AddressFamily, ty: SockType, nonblock: bool) -> (r: Result<i32, OsErr>)
    ensures
        r matches Ok(fd) ==> fd >= 0,
{
    os_result(sys_socket(family, ty, nonblock))
}

/// Reinterprets the raw outcome of a non-blocking connect: success means
/// connected at once (`Ok(true)`); the single in-progress code is the
/// successful-but-incomplete outcome (`Ok(false)`), not an error; every
/// other code is a failure, surfaced unchanged.
pub fn connect_outcome(res: Result<(), i32>) -> (r: Result<bool, OsErr>)
    ensures
        res matches Ok(()) ==> r == Ok::<bool, OsErr>(true),
        res matches Err(c) ==> r == if c == EINPROGRESS {
            Ok::<bool, OsErr>(false)
        } else {
            Err::<bool, OsErr>((OsErr { code: c }))
        },
{
    match res {
        Ok(()) => Ok(true),
        Err(code) => if code == EINPROGRESS {
            Ok(false)
        } else {
            Err(from_nix_error(code))
        },
    }
}

/// Starts a non-blocking connect of `io` to `addr`. `Ok(true)` means
/// connected at once; `Ok(false)` means in progress, after which the caller
/// registers for writable interest and re-checks completion; an error is a
/// genuine failure and is never the in-progress code.
pub fn connect(io: &Io, addr: &InetAddr) -> (r: Result<bool, OsErr>)
    ensures
        r matches Err(e) ==> e.code != EINPROGRESS,
{
    connect_outcome(sys_connect(io.as_raw_fd(), addr))
}

/// Binds `io` to `addr`; a failure propagates the OS error unchanged.
pub fn bind(io: &Io, addr: &InetAddr) -> (r: Result<(), OsErr>) {
    os_result(sys_bind(io.as_raw_fd(), addr))
}

/// Marks `io` as a listening socket with the given backlog; a failure
/// propagates the OS error unchanged.
pub fn listen(io: &Io, backlog: usize) -> (r: Result<(), OsErr>) {
    os_result(sys_listen(io.as_raw_fd(), backlog))
}

/// Accepts one pending connection on `io`, applying the same atomic
/// close-on-exec and (when asked) non-blocking treatment to the new
/// descriptor. With no connection pending, a non-blocking listener fails
/// with the would-block code — the expected "not yet ready" outcome, which
/// `OsErr::is_would_block` distinguishes from a genuine failure.
pub fn accept(io: &Io, nonblock: bool) -> (r: Result<i32, OsErr>)
    ensures
        r matches Ok(fd) ==> fd >= 0,
{
    os_result(sys_accept(io.as_raw_fd(), nonblock))
}

/// Receives one datagram into the front of `buf`, reporting how many bytes
/// arrived and, when the kernel provides one, the sender's address. Only
/// the reported bytes are written: the rest of the buffer is untouched, as
/// is all of it on failure.
pub fn recvfrom(io: &Io, buf: &mut Vec<u8>) -> (r: Result<(usize, Option<SockAddr>), OsErr>)
    ensures
        final(buf)@.len() == old(buf)@.len(),
        r matches Ok(p) ==> p.0 <= final(buf)@.len() && final(buf)@.skip(p.0 as int) == old(
            buf,
        )@.skip(p.0 as int),
        r matches Err(_) ==> final(buf)@ == old(buf)@,
{
    match sys_recvfrom(io.as_raw_fd(), buf) {
        Ok((n, Some(ss))) => Ok((n, Some(from_storage(ss)))),
        Ok((n, None)) => Ok((n, None)),
        Err(code) => Err(from_nix_error(code)),
    }
}

/// Sends one datagram from `buf` to `target` with non-blocking send
/// semantics regardless of the descriptor's own mode, so a producer never
/// stalls the event loop; reports how many bytes were sent.
pub fn sendto(io: &Io, buf: &[u8], target: &InetAddr) -> (r: Result<usize, OsErr>)
    ensures
        r matches Ok(n) ==> n <= buf@.len(),
{
    os_result(sys_sendto(io.as_raw_fd(), buf, target))
}

/// The locally bound address of `io`; a failure propagates the OS error
/// unchanged.
pub fn getsockname(io: &Io) -> (r: Result<SockAddr, OsErr>) {
    match sys_getsockname(io.as_raw_fd()) {
        Ok(ss) => Ok(from_storage(ss)),
        Err(code) => Err(from_nix_error(code)),
    }
}

/// Duplicates `io`'s descriptor: the new `Io` wraps a different descriptor
/// number with an independent close lifecycle, sharing the underlying OS
/// file-table entry.
pub fn dup(io: &Io) -> (r: Result<Io, OsErr>)
    ensures
        r matches Ok(d) ==> d.spec_fd() >= 0 && d.spec_fd() != io.spec_fd(),
{
    match sys_dup(io.as_raw_fd()) {
        Ok(fd) => Ok(Io::from_fd(fd)),
        Err(code) => Err(from_nix_error(code)),
    }
}

/// The kernel's own representation of a socket address of any family,
/// opaque to the library; `from_storage` folds it into the plain-value
/// model.
#[verifier::external_type_specification]
#[verifier::external_body]
pub struct ExSockaddrStorage(SockaddrStorage);

/// Relies on nix::sys::socket::SockaddrStorage's family downcasts
/// (as_sockaddr_in, as_sockaddr_in6) and the address part accessors: an
/// Internet address comes out as its plain parts, and an address of any
/// other family becomes the non-Internet variant.
#[verifier::external_body]
fn from_storage(ss: SockaddrStorage) -> (r: SockAddr) {
    if let Some(sin) = ss.as_sockaddr_in() {
        let o = sin.ip().to_be_bytes();
        SockAddr::Inet(InetAddr::V4 { a: o[0], b: o[1], c: o[2], d: o[3], port: sin.port() })
    } else if let Some(sin6) = ss.as_sockaddr_in6() {
        SockAddr::Inet(
            InetAddr::V6 {
                segments: sin6.ip().segments(),
                port: sin6.port(),
                flowinfo: sin6.flowinfo(),
                scope_id: sin6.scope_id(),
            },
        )
    } else {
        SockAddr::Unix
    }
}

/// Relies on nix::sys::socket::socket: creates a socket of the given
/// family and type, with close-on-exec and (when asked) non-blocking set
/// atomically with creation, returning its non-negative descriptor or the
/// raw error code.
#[verifier::external_body]
fn sys_socket(family: AddressFamily, ty: SockType, nonblock: bool) -> (r: Result<i32, i32>)
    ensures
        r matches Ok(fd) ==> fd >= 0,
{
    let fam = match family {
        AddressFamily::Inet => NixFamily::Inet,
        AddressFamily::Inet6 => NixFamily::Inet6,
        AddressFamily::Unix => NixFamily::Unix,
    };
    let t = match ty {
        SockType::Stream => NixType::Stream,
        SockType::Datagram => NixType::Datagram,
    };
    let mut flags = SockFlag::SOCK_CLOEXEC;
    if nonblock {
        flags = flags | SockFlag::SOCK_NONBLOCK;
    }
    nix_socket(fam, t, flags, None).map_err(|e| e as i32)
}

/// Relies on nix::sys::socket::connect: starts connecting the socket `fd`
/// to the given address; a non-blocking connect that cannot complete at
/// once fails with the raw in-progress code.
#[verifier::external_body]
fn sys_connect(fd: i32, addr: &InetAddr) -> (r: Result<(), i32>) {
    match *addr {
        InetAddr::V4 { a, b, c, d, port } => {
            let sa = SockaddrIn::new(a, b, c, d, port);
            nix_connect(fd, &sa).map_err(|e| e as i32)
        },
        InetAddr::V6 { segments: s, port, flowinfo, scope_id } => {
            let ip = core::net::Ipv6Addr::new(s[0], s[1], s[2], s[3], s[4], s[5], s[6], s[7]);
            let v6 = core::net::SocketAddrV6::new(ip, port, flowinfo, scope_id);
            let sa = SockaddrIn6::from(v6);
            nix_connect(fd, &sa).map_err(|e| e as i32)
        },
    }
}

/// Relies on nix::sys::socket::bind: binds the socket `fd` to the given
/// address, or fails with the raw error code.
#[verifier::external_body]
fn sys_bind(fd: i32, addr: &InetAddr) -> (r: Result<(), i32>) {
    match *addr {
        InetAddr::V4 { a, b, c, d, port } => {
            let sa = SockaddrIn::new(a, b, c, d, port);
            nix_bind(fd, &sa).map_err(|e| e as i32)
        },
        InetAddr::V6 { segments: s, port, flowinfo, scope_id } => {
            let ip = core::net::Ipv6Addr::new(s[0], s[1], s[2], s[3], s[4], s[5], s[6], s[7]);
            let v6 = core::net::SocketAddrV6::new(ip, port, flowinfo, scope_id);
            let sa = SockaddrIn6::from(v6);
            nix_bind(fd, &sa).map_err(|e| e as i32)
        },
    }
}

/// Relies on nix::sys::socket::listen: marks the socket `fd` as listening
/// with the given backlog, or fails with the raw error code.
#[verifier::external_body]
fn sys_listen(fd: i32, backlog: usize) -> (r: Result<(), i32>) {
    nix_listen(fd, backlog).map_err(|e| e as i32)
}

/// Relies on nix::sys::socket::accept4: accepts one pending connection on
/// `fd`, with close-on-exec and (when asked) non-blocking set atomically on
/// the new descriptor, which is non-negative on success; with no connection
/// pending, a non-blocking listener fails with the raw would-block code.
#[verifier::external_body]
fn sys_accept(fd: i32, nonblock: bool) -> (r: Result<i32, i32>)
    ensures
        r matches Ok(nfd) ==> nfd >= 0,
{
    let mut flags = SockFlag::SOCK_CLOEXEC;
    if nonblock {
        flags = flags | SockFlag::SOCK_NONBLOCK;
    }
    accept4(fd, flags).map_err(|e| e as i32)
}

/// Relies on nix::sys::socket::recvfrom: receives one datagram into the
/// front of `buf`, returning how many bytes arrived (at most `buf.len()`)
/// and the sender's address when the kernel provides one, or the raw error
/// code. Only the first `n` bytes are written: the rest of the buffer is
/// untouched, as is all of it on failure.
#[verifier::external_body]
fn sys_recvfrom(fd: i32, buf: &mut Vec<u8>) -> (r: Result<(usize, Option<SockaddrStorage>), i32>)
    ensures
        final(buf)@.len() == old(buf)@.len(),
        r matches Ok(p) ==> p.0 <= final(buf)@.len() && final(buf)@.skip(p.0 as int) == old(
            buf,
        )@.skip(p.0 as int),
        r matches Err(_) ==> final(buf)@ == old(buf)@,
{
    nix_recvfrom::<SockaddrStorage>(fd, buf.as_mut_slice())
        .map_err(|e| e as i32)
}

/// Relies on nix::sys::socket::sendto with the don't-wait flag: sends one
/// datagram from `buf` to the given address without ever blocking,
/// returning how many bytes were sent (at most `buf.len()`), or the raw
/// error code.
#[verifier::external_body]
fn sys_sendto(fd: i32, buf: &[u8], target: &InetAddr) -> (r: Result<usize, i32>)
    ensures
        r matches Ok(n) ==> n <= buf@.len(),
{
    let dontwait = MsgFlags::MSG_DONTWAIT;
    match *target {
        InetAddr::V4 { a, b, c, d, port } => {
            let sa = SockaddrIn::new(a, b, c, d, port);
            nix_sendto(fd, buf, &sa, dontwait).map_err(|e| e as i32)
        },
        InetAddr::V6 { segments: s, port, flowinfo, scope_id } => {
            let ip = core::net::Ipv6Addr::new(s[0], s[1], s[2], s[3], s[4], s[5], s[6], s[7]);
            let v6 = core::net::SocketAddrV6::new(ip, port, flowinfo, scope_id);
            let sa = SockaddrIn6::from(v6);
            nix_sendto(fd, buf, &sa, dontwait).map_err(|e| e as i32)
        },
    }
}

/// Relies on nix::sys::socket::getsockname: returns the locally bound
/// address of `fd` in the kernel's own representation, or the raw error
/// code.
#[verifier::external_body]
fn sys_getsockname(fd: i32) -> (r: Result<SockaddrStorage, i32>) {
    nix_getsockname::<SockaddrStorage>(fd).map_err(|e| e as i32)
}

/// Relies on nix::unistd::dup: duplicates the descriptor `fd`, returning
/// the lowest-numbered unused descriptor — non-negative, and necessarily
/// different from the still-open `fd` — sharing the same open file
/// description, or the raw error code.
#[verifier::external_body]
fn sys_dup(fd: i32) -> (r: Result<i32, i32>)
    ensures
        r matches Ok(nfd) ==> nfd >= 0 && nfd != fd,
{
    nix::unistd::dup(fd).map_err(|e| e as i32)
}

} // verus!
