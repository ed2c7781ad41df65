//! The state of a UTP context, and what each event does to it.

use crate::addr::SocketAddr;
use crate::addr_map::{lists_values, AddrMap, AddrSet};
use crate::connector::UtpConnector;
use crate::error_channel::ErrorChannel;
use crate::io::{Error, ErrorKind, Poll};
use crate::socket::{
    attachable, attached, Connect, QueuedUtpSocket, SocketData, SocketView, UtpSocket,
};
use crate::socket_queue::{UtpSocketQueue, SOCKET_QUEUE_CAPACITY};
use crate::wrappers::{UtpErrorCode, UtpEvent, UtpState};
use crate::writer::UtpWriter;
use vstd::prelude::*;

verus! {

/// How many chunks a socket may have received and not read before packets of its peer are discarded.
pub const SOCKET_READ_BUFFER_SIZE: usize = 0x20_0000;

/// The state of a UTP context. `W` wakes a task, `H` is a handle on a libutp socket, `D` one on a
/// socket's data, and `E` an error of the operating system.
pub struct UtpContext<W, H, D, E> {
    pub writer: UtpWriter<W>,
    pub socket_queue: UtpSocketQueue<QueuedUtpSocket<D>, W>,
    pub sockets: AddrMap<H>,
    pub error_channel: ErrorChannel<E>,
    pub discard_addrs: AddrSet,
    pub listening: u8,
    pub udp_mtu: Option<u16>,
}

/// What a UTP context holds.
#[verifier::ext_equal]
pub struct ContextView<W, H, D, E> {
    /// Whether the UDP socket takes packets.
    pub udp_writable: bool,
    /// The tasks that wait to write.
    pub writers: Map<SocketAddr, W>,
    /// The connections that wait to be accepted.
    pub waiting: Seq<QueuedUtpSocket<D>>,
    /// The task that waits for a connection to accept.
    pub acceptor: Option<W>,
    /// The open libutp sockets.
    pub sockets: Map<SocketAddr, H>,
    /// The failure of the context.
    pub context_err: Option<Error<E>>,
    /// The failures of sockets.
    pub socket_errs: Map<SocketAddr, Error<E>>,
    /// The peers whose packets are discarded.
    pub discarded: Set<SocketAddr>,
    /// How many listeners there are.
    pub listening: u8,
    /// The packet size to be used, where one was set.
    pub udp_mtu: Option<u16>,
}

impl<W, H, D, E> ContextView<W, H, D, E> {
    /// A context in which nothing has happened yet.
    pub open spec fn initial() -> Self {
        ContextView {
            udp_writable: true,
            writers: Map::empty(),
            waiting: Seq::empty(),
            acceptor: None,
            sockets: Map::empty(),
            context_err: None,
            socket_errs: Map::empty(),
            discarded: Set::empty(),
            listening: 0,
            udp_mtu: None,
        }
    }

    /// The context with one more listener. The count starts over at zero behind the largest number.
    pub open spec fn listened(self) -> Self {
        ContextView {
            listening: if self.listening == 255 {
                0
            } else {
                (self.listening + 1) as u8
            },
            ..self
        }
    }

    /// The context with one listener less. Below zero the count goes on at the largest number.
    pub open spec fn unlistened(self) -> Self {
        ContextView {
            listening: if self.listening == 0 {
                255
            } else {
                (self.listening - 1) as u8
            },
            ..self
        }
    }

    /// Whether libutp is to refuse the connections that peers open.
    pub open spec fn refuses(self) -> bool {
        self.listening == 0
    }

    /// The handle under an address, where there is one.
    pub open spec fn handle(self, addr: SocketAddr) -> Option<H> {
        if self.sockets.contains_key(addr) {
            Some(self.sockets[addr])
        } else {
            None
        }
    }

    /// The context with a handle under an address.
    pub open spec fn with_socket(self, addr: SocketAddr, socket: H) -> Self {
        ContextView { sockets: self.sockets.insert(addr, socket), ..self }
    }

    /// The context without a handle under an address.
    pub open spec fn without_socket(self, addr: SocketAddr) -> Self {
        ContextView { sockets: self.sockets.remove(addr), ..self }
    }

    /// The context with a failure of a socket.
    pub open spec fn with_socket_err(self, addr: SocketAddr, e: Error<E>) -> Self {
        ContextView { socket_errs: self.socket_errs.insert(addr, e), ..self }
    }

    /// The context with a failure of its own.
    pub open spec fn with_context_err(self, e: Error<E>) -> Self {
        ContextView { context_err: Some(e), ..self }
    }

    /// The failure that a check for an address gives out: that of the socket or, where it has none,
    /// that of the context.
    pub open spec fn err_for(self, addr: SocketAddr) -> Option<Error<E>> {
        if self.socket_errs.contains_key(addr) {
            Some(self.socket_errs[addr])
        } else {
            self.context_err
        }
    }

    /// The context once a check for an address has given out a failure, where there was one.
    pub open spec fn after_check(self, addr: SocketAddr) -> Self {
        ContextView {
            socket_errs: self.socket_errs.remove(addr),
            context_err: if self.socket_errs.contains_key(addr) {
                self.context_err
            } else {
                None
            },
            ..self
        }
    }

    /// Whether no further connection can wait to be accepted.
    pub open spec fn is_full(self) -> bool {
        self.waiting.len() >= SOCKET_QUEUE_CAPACITY
    }

    /// The context once a peer has opened a connection. The task that waited for one no longer
    /// does. Where there is no room for the connection, nothing is left under the peer's address.
    pub open spec fn after_accept(self, addr: SocketAddr, socket: H, data: D) -> Self {
        if self.is_full() {
            ContextView { acceptor: None, ..self.without_socket(addr) }
        } else {
            ContextView {
                waiting: self.waiting.push(QueuedUtpSocket { addr, data }),
                acceptor: None,
                ..self.with_socket(addr, socket)
            }
        }
    }

    /// The context once a task has polled for a connection to accept, and no failure came first.
    pub open spec fn after_poll_next(self, waker: W) -> Self {
        if self.waiting.len() > 0 {
            ContextView { waiting: self.waiting.drop_first(), ..self }
        } else {
            ContextView { acceptor: Some(waker), ..self }
        }
    }

    /// The context once bytes of a peer have come, of whom `chunks` chunks now wait to be read.
    pub open spec fn after_read(self, addr: SocketAddr, chunks: nat) -> Self {
        ContextView {
            discarded: if chunks > SOCKET_READ_BUFFER_SIZE {
                self.discarded.insert(addr)
            } else {
                self.discarded.remove(addr)
            },
            ..self
        }
    }

    /// The context once a socket has failed. No task waits to write or to accept any more.
    pub open spec fn after_error(self, addr: SocketAddr, kind: ErrorKind) -> Self {
        ContextView {
            writers: Map::empty(),
            acceptor: None,
            ..self.with_socket_err(addr, Error::Socket(kind))
        }
    }

    /// The context once an attempt to receive from the UDP socket has ended.
    pub open spec fn after_recv(self, event: RecvEvent<E>) -> Self {
        match event {
            RecvEvent::Failed(e) => self.with_context_err(Error::Os(e)),
            _ => self,
        }
    }

    /// The context once an attempt to send part of a packet has ended.
    pub open spec fn after_send(self, event: SendEvent<E>) -> Self {
        match event {
            SendEvent::Sent(_) => self,
            SendEvent::WouldBlock => ContextView { udp_writable: false, ..self },
            SendEvent::Failed(e) => self.with_context_err(Error::Os(e)),
        }
    }

    /// The context once the UDP socket takes packets. No task waits to write any more.
    pub open spec fn after_write_ready(self) -> Self {
        ContextView { udp_writable: true, writers: Map::empty(), ..self }
    }

    /// The context with a task that waits to write to an address.
    pub open spec fn with_writer(self, addr: SocketAddr, waker: W) -> Self {
        ContextView { writers: self.writers.insert(addr, waker), ..self }
    }

    /// The context without a task that waits to write to an address.
    pub open spec fn without_writer(self, addr: SocketAddr) -> Self {
        ContextView { writers: self.writers.remove(addr), ..self }
    }

    /// What wakes the task that waits to write to an address.
    pub open spec fn writer(self, addr: SocketAddr) -> Option<W> {
        if self.writers.contains_key(addr) {
            Some(self.writers[addr])
        } else {
            None
        }
    }
}

impl<W, H, D, E> UtpContext<W, H, D, E> {
    /// Whether all parts of the context are in order.
    pub open spec fn wf(&self) -> bool {
        &&& self.writer.wf()
        &&& self.socket_queue.wf()
        &&& self.sockets.wf()
        &&& self.error_channel.wf()
        &&& self.discard_addrs.wf()
    }

    /// What the context holds.
    pub open spec fn view(&self) -> ContextView<W, H, D, E> {
        ContextView {
            udp_writable: self.writer.udp_writable,
            writers: self.writer.wakers@,
            waiting: self.socket_queue@,
            acceptor: self.socket_queue.waiting(),
            sockets: self.sockets@,
            context_err: self.error_channel.context,
            socket_errs: self.error_channel.sockets@,
            discarded: self.discard_addrs@,
            listening: self.listening,
            udp_mtu: self.udp_mtu,
        }
    }

    /// The context on a UDP socket, once the attempt to open one has ended.
    pub fn bind(udp: Result<(), E>) -> (r: Result<UtpContext<W, H, D, E>, Error<E>>)
        ensures
            match udp {
                Ok(_) => r is Ok && r->Ok_0.wf() && r->Ok_0@ == ContextView::<
                    W,
                    H,
                    D,
                    E,
                >::initial(),
                Err(e) => r is Err && r->Err_0 == Error::Os(e),
            },
    {
        match udp {
            Ok(_) => {
                let ctx = UtpContext {
                    writer: UtpWriter::new(),
                    socket_queue: UtpSocketQueue::new(),
                    sockets: AddrMap::new(),
                    error_channel: ErrorChannel::new(),
                    discard_addrs: AddrSet::new(),
                    listening: 0,
                    udp_mtu: None,
                };
                Ok(ctx)
            },
            Err(e) => Err(Error::Os(e)),
        }
    }

    /// Begins to listen for connections.
    pub fn listener(&mut self) -> (l: UtpListener)
        requires
            old(self).wf(),
        ensures
            final(self).wf(),
            final(self)@ == old(self)@.listened(),
    {
        self.listening = self.listening.wrapping_add(1);
        UtpListener {  }
    }

    /// Opens a connection, once libutp's attempt to start one has ended with a handle or with a
    /// failure. The data of the new socket, on which nothing has come and whose connection does not
    /// stand, is attached to it. A handle that the address had is handed back, to be closed.
    pub fn connect<F: FnOnce(&H, SocketData<W>) -> D>(
        &mut self,
        addr: SocketAddr,
        opened: Result<H, Error<E>>,
        attach: F,
    ) -> (r: (Connect<D>, Option<H>))
        requires
            old(self).wf(),
            opened is Ok ==> attachable(attach, opened->Ok_0, SocketView::opened_here(addr)),
        ensures
            final(self).wf(),
            match opened {
                Ok(socket) => {
                    &&& final(self)@ == old(self)@.with_socket(addr, socket)
                    &&& r.0.socket is Some
                    &&& r.0.socket->0.addr == addr
                    &&& attached(
                        attach,
                        socket,
                        SocketView::opened_here(addr),
                        r.0.socket->0.data,
                    )
                    &&& r.1 == old(self)@.handle(addr)
                },
                Err(e) => {
                    &&& final(self)@ == old(self)@.with_socket_err(addr, e)
                    &&& r.0.socket is None
                    &&& r.1 is None
                },
            },
    {
        match opened {
            Ok(socket) => {
                let connector = Some(UtpConnector::new());
                let (queued, replaced) = QueuedUtpSocket::new(
                    self,
                    socket,
                    addr,
                    connector,
                    attach,
                );
                (Connect { socket: Some(queued.accept()) }, replaced)
            },
            Err(e) => {
                self.error_channel.set_socket_err(addr, e);
                (Connect { socket: None }, None)
            },
        }
    }

    /// Sets the packet size to be used.
    pub fn set_udp_mtu(&mut self, mtu: u16)
        requires
            old(self).wf(),
        ensures
            final(self).wf(),
            final(self)@ == (ContextView { udp_mtu: Some(mtu), ..old(self)@ }),
    {
        self.udp_mtu = Some(mtu);
    }

    /// Leaves the packet size to libutp.
    pub fn clear_mtu(&mut self)
        requires
            old(self).wf(),
        ensures
            final(self).wf(),
            final(self)@ == (ContextView { udp_mtu: None::<u16>, ..old(self)@ }),
    {
        self.udp_mtu = None;
    }

    /// The answer to libutp's question for the packet size, where there is one to give.
    pub fn get_udp_mtu(&self) -> (mtu: Option<u64>)
        ensures
            mtu == (match self@.udp_mtu {
                Some(m) => Some(m as u64),
                None => None,
            }),
    {
        match self.udp_mtu {
            Some(m) => Some(m as u64),
            None => None,
        }
    }

    /// The peers whose packets are discarded while the packets that wait now are read.
    pub fn discarded(&self) -> (set: AddrSet)
        requires
            self.wf(),
        ensures
            set.wf(),
            set@ == self@.discarded,
    {
        self.discard_addrs.clone()
    }

    /// What to do once an attempt to receive from the UDP socket has ended. `discarded` is the set of
    /// peers to be discarded as it was when the packets that wait began to be read.
    pub fn udp_on_read_ready(&mut self, discarded: &AddrSet, event: RecvEvent<E>) -> (action:
        RecvAction)
        requires
            old(self).wf(),
            discarded.wf(),
        ensures
            final(self).wf(),
            final(self)@ == old(self)@.after_recv(event),
            action == RecvAction::after(event, discarded@),
    {
        match event {
            RecvEvent::Packet(from) => {
                if discarded.contains(&from) {
                    RecvAction::Receive
                } else {
                    RecvAction::Process
                }
            },
            RecvEvent::WouldBlock => RecvAction::AckAndEnd,
            RecvEvent::Failed(e) => {
                self.error_channel.set_context_err(Error::Os(e));
                RecvAction::Receive
            },
        }
    }

    /// Notes that the UDP socket takes packets, and hands back the wakers of the tasks that wait to
    /// write.
    pub fn udp_on_write_ready(&mut self) -> (woken: Vec<W>)
        requires
            old(self).wf(),
        ensures
            final(self).wf(),
            final(self)@ == old(self)@.after_write_ready(),
            final(self).writer.udp_writable,
            final(self).writer.wakers@ == Map::<SocketAddr, W>::empty(),
            final(self).sockets@ == old(self).sockets@,
            lists_values(woken@, old(self)@.writers),
    {
        self.writer.set_udp_writable(true)
    }

    /// Notes a failure of the UDP socket.
    pub fn udp_on_err(&mut self, e: E)
        requires
            old(self).wf(),
        ensures
            final(self).wf(),
            final(self)@ == old(self)@.with_context_err(Error::Os(e)),
    {
        self.error_channel.set_context_err(Error::Os(e));
    }

    /// libutp has received bytes on a socket. The waker of the task that waits for them is handed
    /// back, and libutp is to be told that the bytes were taken. From here on, packets of the peer
    /// are discarded if and only if too many chunks wait to be read.
    pub fn on_read(&mut self, socket: &mut SocketData<W>, buf: &[u8]) -> (woken: Option<W>)
        requires
            old(self).wf(),
        ensures
            final(self).wf(),
            final(self)@ == old(self)@.after_read(
                old(socket)@.addr,
                old(socket)@.reader.data.chunks.len() + 1,
            ),
            final(socket)@ == old(socket)@.received(buf@),
            woken == old(socket)@.reader.waker,
    {
        let woken = socket.reader.push(buf);
        if socket.reader.data.len() > SOCKET_READ_BUFFER_SIZE {
            self.discard_addrs.insert(socket.addr);
        } else {
            self.discard_addrs.remove(&socket.addr);
        }
        woken
    }

    /// A socket has failed. The tasks to be woken are all that wait to write, and those that wait to
    /// read from the socket, for a connection to accept, and for the socket's own connection.
    pub fn on_error(&mut self, socket: &mut SocketData<W>, code: UtpErrorCode) -> (woken: Vec<W>)
        requires
            old(self).wf(),
        ensures
            final(self).wf(),
            final(self)@ == old(self)@.after_error(old(socket)@.addr, code.spec_kind()),
            final(self).error_channel.sockets@ == old(self).error_channel.sockets@.insert(
                old(socket).addr,
                Error::Socket(code.spec_kind()),
            ),
            final(self).sockets@ == old(self).sockets@,
            final(self).socket_queue@ == old(self).socket_queue@,
            final(socket)@ == old(socket)@.failed(),
            wakes_on_error(woken@, old(self)@, old(socket)@),
    {
        self.error_channel.set_socket_err(socket.addr, Error::Socket(code.kind()));
        let mut woken = self.writer.wake_all();
        push_option(&mut woken, socket.reader.wake());
        push_option(&mut woken, self.socket_queue.wake());
        match &mut socket.connector {
            Some(c) => push_option(&mut woken, c.wake()),
            None => {},
        }
        woken
    }

    /// What to do once an attempt to send part of a packet has ended: whether to send what is left.
    pub fn on_sendto(&mut self, packet: &mut SendProgress, event: SendEvent<E>) -> (again: bool)
        requires
            old(self).wf(),
            event matches SendEvent::Sent(n) ==> n <= old(packet).len - old(packet).sent,
        ensures
            final(self).wf(),
            final(self)@ == old(self)@.after_send(event),
            *final(packet) == old(packet).after(event),
            again == old(packet).goes_on(event),
            old(packet).sent <= old(packet).len ==> final(packet).sent <= final(packet).len,
    {
        match event {
            SendEvent::Sent(n) => {
                packet.sent += n;
                packet.sent != packet.len
            },
            SendEvent::WouldBlock => {
                self.writer.set_udp_writable(false);
                false
            },
            SendEvent::Failed(e) => {
                self.error_channel.set_context_err(Error::Os(e));
                true
            },
        }
    }

    /// A peer has opened a connection: the data of its socket, on which nothing has come, is attached
    /// to it, and it is entered under the peer's address and waits to be accepted. One for which
    /// there is no room is closed at once.
    pub fn on_accept<F: FnOnce(&H, SocketData<W>) -> D>(
        &mut self,
        socket: H,
        addr: SocketAddr,
        attach: F,
    ) -> (r: Accepted<H, W>)
        requires
            old(self).wf(),
            attachable(attach, socket, SocketView::opened_by_peer(addr)),
        ensures
            final(self).wf(),
            exists|data: D| #[trigger]
                attached(attach, socket, SocketView::opened_by_peer(addr), data) && final(self)@
                    == old(self)@.after_accept(addr, socket, data),
            old(self).socket_queue@.len() < SOCKET_QUEUE_CAPACITY ==> final(self).sockets@
                == old(self).sockets@.insert(addr, socket),
            old(self).socket_queue@.len() >= SOCKET_QUEUE_CAPACITY ==> final(self).sockets@
                == old(self).sockets@.remove(addr),
            r.replaced == old(self)@.handle(addr),
            r.woken == old(self)@.acceptor,
            r.refused == (if old(self)@.is_full() {
                Some(socket)
            } else {
                None
            }),
    {
        let (queued, replaced) = QueuedUtpSocket::new(self, socket, addr, None, attach);
        let ghost data = queued.data;
        let (no_room, woken) = self.socket_queue.push_socket(queued);
        let refused = match no_room {
            Some(queued) => queued.accept().close(self),
            None => None,
        };
        proof {
            assert(old(self)@.sockets.insert(addr, socket).remove(addr)
                =~= old(self)@.sockets.remove(addr));
            assert(attached(attach, socket, SocketView::opened_by_peer(addr), data));
            assert(self@ =~= old(self)@.after_accept(addr, socket, data));
        }
        Accepted { replaced, refused, woken }
    }

    /// A socket has entered a state. The waker of the task that this concerns is handed back: that
    /// which waits for the connection, once it stands, and that which waits to write to the peer,
    /// once it can. At the end of the stream no task is woken.
    pub fn on_state_change(&mut self, socket: &mut SocketData<W>, state: UtpState) -> (woken:
        Option<W>)
        requires
            old(self).wf(),
        ensures
            final(self).wf(),
            final(self)@ == (if state == UtpState::UtpStateWritable {
                old(self)@.without_writer(old(socket)@.addr)
            } else {
                old(self)@
            }),
            woken == (match state {
                UtpState::UtpStateConnect => old(socket)@.connecting(),
                UtpState::UtpStateWritable => old(self)@.writer(old(socket)@.addr),
                _ => None,
            }),
            final(socket)@ == old(socket)@.entered(state),
            state == UtpState::UtpStateEOF ==> final(socket).reader.eof,
            state == UtpState::UtpStateConnect && old(socket).connector is Some ==> {
                &&& final(socket).connector is Some
                &&& final(socket).connector->0.connected
            },
    {
        match state {
            UtpState::UtpStateConnect => match &mut socket.connector {
                Some(c) => c.set_connected(),
                None => None,
            },
            UtpState::UtpStateWritable => self.writer.wake_addr(&socket.addr),
            UtpState::UtpStateEOF => {
                socket.reader.set_eof();
                None
            },
            UtpState::UtpStateDestroying => None,
            UtpState::UtpInvalid => None,
        }
    }

    /// Whether libutp is to refuse a connection that a peer opens: one, where there is no listener,
    /// and otherwise zero.
    pub fn on_firewall(&self) -> (refuse: u64)
        ensures
            refuse == (if self@.refuses() {
                1u64
            } else {
                0u64
            }),
    {
        if self.listening > 0 {
            0
        } else {
            1
        }
    }
}

/// What an attempt to receive from the UDP socket can end with.
#[derive(Debug)]
pub enum RecvEvent<E> {
    /// A packet from this address.
    Packet(SocketAddr),
    /// There is no packet.
    WouldBlock,
    /// A failure.
    Failed(E),
}

/// What follows an attempt to receive.
#[derive(Clone, Copy, Debug, PartialEq, Eq, Structural)]
pub enum RecvAction {
    /// Let libutp process the packet, and receive again.
    Process,
    /// Receive again.
    Receive,
    /// Let libutp send the acknowledgements that it has put off, and end.
    AckAndEnd,
}

impl RecvAction {
    /// What follows an attempt to receive, while the packets of some peers are discarded.
    pub open spec fn after<E>(event: RecvEvent<E>, discarded: Set<SocketAddr>) -> RecvAction {
        match event {
            RecvEvent::Packet(from) => if discarded.contains(from) {
                RecvAction::Receive
            } else {
                RecvAction::Process
            },
            RecvEvent::WouldBlock => RecvAction::AckAndEnd,
            RecvEvent::Failed(_) => RecvAction::Receive,
        }
    }
}

/// What an attempt to send on the UDP socket can end with.
#[derive(Debug)]
pub enum SendEvent<E> {
    /// So many bytes were sent.
    Sent(usize),
    /// The socket takes no packets.
    WouldBlock,
    /// A failure.
    Failed(E),
}

/// How much of a packet has been sent.
#[derive(Debug)]
pub struct SendProgress {
    pub len: usize,
    pub sent: usize,
}

impl SendProgress {
    /// The packet once an attempt to send what was left of it has ended.
    pub open spec fn after<E>(self, event: SendEvent<E>) -> SendProgress {
        match event {
            SendEvent::Sent(n) => SendProgress { sent: (self.sent + n) as usize, ..self },
            _ => self,
        }
    }

    /// Whether what is left then is to be sent: not once all has been sent, nor where the socket
    /// takes no packets; after a failure it is.
    pub open spec fn goes_on<E>(self, event: SendEvent<E>) -> bool {
        match event {
            SendEvent::Sent(n) => self.sent + n != self.len,
            SendEvent::WouldBlock => false,
            SendEvent::Failed(_) => true,
        }
    }

    /// A packet of which nothing has been sent.
    pub fn new(len: usize) -> (p: SendProgress)
        ensures
            p.len == len,
            p.sent == 0,
    {
        SendProgress { len, sent: 0 }
    }
}

/// What follows a connection that a peer has opened.
#[derive(Debug)]
pub struct Accepted<H, W> {
    /// The handle that the peer's address had, to be closed.
    pub replaced: Option<H>,
    /// The handle of the connection itself, to be closed: there was no room for it.
    pub refused: Option<H>,
    /// What wakes the task that waits for a connection.
    pub woken: Option<W>,
}

/// A value in a list, or an empty list.
pub open spec fn one_or_none<T>(value: Option<T>) -> Seq<T> {
    match value {
        Some(v) => seq![v],
        None => Seq::<T>::empty(),
    }
}

/// Whether `woken` are the wakers handed back when a socket fails: those of all tasks that wait to
/// write, in any order, and behind them those of the tasks that wait to read from the socket, for a
/// connection to accept, and for the socket's own connection.
pub open spec fn wakes_on_error<W, H, D, E>(
    woken: Seq<W>,
    v: ContextView<W, H, D, E>,
    socket: SocketView<W>,
) -> bool {
    exists|writers: Seq<W>| #[trigger]
        lists_values(writers, v.writers) && woken == writers + one_or_none(socket.reader.waker)
            + one_or_none(v.acceptor) + one_or_none(socket.connecting())
}

/// Appends a value, where there is one.
fn push_option<T>(list: &mut Vec<T>, value: Option<T>)
    ensures
        final(list)@ == old(list)@ + one_or_none(value),
{
    match value {
        Some(v) => list.push(v),
        None => {},
    }
}

/// The message that libutp asks to be logged: the bytes before a final zero, if there is no other.
pub fn on_log<'a>(buf: Option<&'a [u8]>) -> (message: Option<&'a [u8]>)
    ensures
        match buf {
            Some(b) => if is_c_string(b@) {
                message is Some && message->0@ == b@.drop_last()
            } else {
                message is None
            },
            None => message is None,
        },
{
    match buf {
        Some(b) => {
            let mut i: usize = 0;
            while i < b.len()
                invariant
                    buf == Some(b),
                    i <= b@.len(),
                    forall|j: int| 0 <= j < i ==> b@[j] != 0,
                decreases b@.len() - i,
            {
                if b[i] == 0 {
                    if i + 1 < b.len() {
                        return None;
                    }
                    return Some(vstd::slice::slice_subrange(b, 0, i));
                }
                i += 1;
            }
            None
        },
        None => None,
    }
}

/// Whether bytes end in a zero and hold no other.
pub open spec fn is_c_string(bytes: Seq<u8>) -> bool {
    &&& bytes.len() > 0
    &&& bytes.last() == 0
    &&& forall|i: int| 0 <= i < bytes.len() - 1 ==> bytes[i] != 0
}

/// The events on which a context has libutp call back from the start.
pub fn bound_events() -> (events: Vec<UtpEvent>)
    ensures
        events@ == seq![
            UtpEvent::Log,
            UtpEvent::OnRead,
            UtpEvent::SendTo,
            UtpEvent::OnAccept,
            UtpEvent::OnError,
            UtpEvent::OnStateChange,
            UtpEvent::OnFirewall,
        ],
{
    vec![
        UtpEvent::Log,
        UtpEvent::OnRead,
        UtpEvent::SendTo,
        UtpEvent::OnAccept,
        UtpEvent::OnError,
        UtpEvent::OnStateChange,
        UtpEvent::OnFirewall,
    ]
}

/// A listener for connections. What it listens on is the context that it is used with.
#[derive(Debug)]
pub struct UtpListener {}

impl Clone for UtpListener {
    /// Another listener. It is not counted, though its end is.
    fn clone(&self) -> (l: Self)
        ensures
            l == *self,
    {
        UtpListener {  }
    }
}

impl UtpListener {
    /// Gives out the connection that has waited longest. A failure of the context comes first; where
    /// no connection waits, the task has to.
    pub fn poll_next<W, H, D, E>(&self, ctx: &mut UtpContext<W, H, D, E>, waker: W) -> (r: Poll<
        Result<UtpSocket<D>, Error<E>>,
    >)
        requires
            old(ctx).wf(),
        ensures
            final(ctx).wf(),
            match old(ctx)@.context_err {
                Some(e) => {
                    &&& r == Poll::Ready(Result::<UtpSocket<D>, Error<E>>::Err(e))
                    &&& final(ctx)@ == (ContextView { context_err: None::<Error<E>>, ..old(ctx)@ })
                },
                None => {
                    &&& final(ctx)@ == old(ctx)@.after_poll_next(waker)
                    &&& if old(ctx)@.waiting.len() > 0 {
                        let first = old(ctx)@.waiting[0];
                        r == Poll::Ready(
                            Result::<UtpSocket<D>, Error<E>>::Ok(
                                UtpSocket { addr: first.addr, data: first.data },
                            ),
                        )
                    } else {
                        r is Pending
                    }
                },
            },
    {
        match ctx.error_channel.check_context_err() {
            Err(e) => Poll::Ready(Err(e)),
            Ok(_) => match ctx.socket_queue.poll_next(waker) {
                Poll::Ready(queued) => Poll::Ready(Ok(queued.accept())),
                Poll::Pending => Poll::Pending,
            },
        }
    }

    /// Ends the listening.
    pub fn close<W, H, D, E>(self, ctx: &mut UtpContext<W, H, D, E>)
        requires
            old(ctx).wf(),
        ensures
            final(ctx).wf(),
            final(ctx)@ == old(ctx)@.unlistened(),
    {
        ctx.listening = ctx.listening.wrapping_sub(1);
    }
}

} // verus!
