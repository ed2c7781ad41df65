//! The decision core of an asynchronous interface to [libutp](https://github.com/bittorrent/libutp).
//!
//! libutp runs the UTP protocol over a UDP socket and tells its user what happens by callbacks. This
//! crate holds what an asynchronous interface to it has to know and to decide: which bytes a socket
//! has received, which tasks wait for what, which failures nobody was told of, which connections
//! wait to be accepted, and what each callback, each event of the UDP socket and each poll by a task
//! does to all that. It makes no system calls. An operation that needs one takes its result as an
//! argument, and a task to be woken is handed back as its waker.
//!
//! The main types are [`UtpContext`], [`UtpSocket`], [`UtpListener`] and [`Connect`]. The
//! [`wrappers`] module has the events, states and errors of libutp's own interface.
//!
//! What holds of the operations is stated and proved in [`laws`], over runs of several of them, in
//! [`step_laws`], for each of them in every state, and in [`text_laws`], for the texts of addresses.

mod addr;
mod addr_map;
mod addrinfo;
mod connector;
mod context;
mod data_queue;
mod error_channel;
mod io;
pub mod laws;
mod reader;
mod socket;
mod socket_queue;
pub mod step_laws;
mod text;
pub mod text_laws;
mod thread;
mod udp;
pub mod wrappers;
mod writer;

pub use addr::{IpAddr, SocketAddr};
pub use addr_map::{AddrMap, AddrSet};
pub use addrinfo::{
    getaddrinfo_from_cache, getaddrinfo_from_std, socketaddr_to_raw, AddrInfo, AddrInfoCache, Lookup,
};
pub use connector::UtpConnector;
pub use context::{
    bound_events, on_log, Accepted, RecvAction, RecvEvent, SendEvent, SendProgress, UtpContext,
    UtpListener, SOCKET_READ_BUFFER_SIZE,
};
pub use data_queue::DataQueue;
pub use error_channel::ErrorChannel;
pub use io::{Error, ErrorKind, Poll};
pub use reader::UtpReader;
pub use socket::{Connect, QueuedUtpSocket, SocketData, UtpSocket};
pub use socket_queue::{UtpSocketQueue, SOCKET_QUEUE_CAPACITY};
pub use thread::{
    check_timeouts, StopFlag, TimeoutAction, TimeoutEvent, CHECK_TIMEOUTS_MILLIS,
};
pub use udp::{EventLoop, LoopAction, LoopEvent, Readiness};
pub use writer::UtpWriter;
