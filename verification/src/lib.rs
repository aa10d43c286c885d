//! A portable readiness multiplexer over the Linux epoll facility.
//!
//! The crate models readiness interest (`EventSet`), registration options
//! (`PollOpt`) and caller correlation ids (`Token`), translates them to and
//! from native event flags, and drives one kernel poll instance per
//! `Selector`. An `Events` buffer carries the ready set out of a wait call,
//! and an `Awakener` lets another thread interrupt a blocked wait through a
//! self-pipe. Non-blocking socket primitives expose the asynchronous
//! completion states (in-progress connect, would-block accept) that the
//! readiness model exists to serve.

pub mod awakener;
pub mod epoll;
pub mod error;
pub mod event;
pub mod io;
pub mod net;

pub use awakener::Awakener;
pub use epoll::{Events, Selector};
pub use error::{from_nix_error, OsErr};
pub use event::{EventSet, IoEvent, PollOpt, Token};
pub use io::{pipe, Evented, Io};
pub use net::{
    accept, bind, connect, connect_outcome, dup, getsockname, listen, recvfrom, sendto, socket,
    to_nix_addr, to_std_addr, AddressFamily, InetAddr, SockAddr, SockType,
};
