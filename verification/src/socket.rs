//! Sockets, from the first attempt to connect or the peer's to the end.

use crate::addr::{socket_addr_text, SocketAddr};
use crate::connector::UtpConnector;
use crate::context::UtpContext;
use crate::error_channel::ErrorChannel;
use crate::io::{Error, Poll};
use crate::reader::{ReaderView, UtpReader};
use crate::wrappers::UtpState;
use vstd::prelude::*;

verus! {

/// What hangs on a libutp socket: its reader, its peer's address and, where this side opened the
/// connection, the wait until it stands.
pub struct SocketData<W> {
    pub reader: UtpReader<W>,
    pub addr: SocketAddr,
    pub connector: Option<UtpConnector<W>>,
}

/// What a [`SocketData`] holds.
#[verifier::ext_equal]
pub struct SocketView<W> {
    pub reader: ReaderView<W>,
    pub addr: SocketAddr,
    pub connector: Option<UtpConnector<W>>,
}

impl<W> SocketView<W> {
    /// A new socket: nothing has come from the peer.
    pub open spec fn initial(addr: SocketAddr, connector: Option<UtpConnector<W>>) -> Self {
        SocketView { reader: ReaderView::<W>::initial(), addr, connector }
    }

    /// The socket of a connection that this side has begun to open.
    pub open spec fn opened_here(addr: SocketAddr) -> Self {
        SocketView::initial(addr, Some(UtpConnector::<W>::initial()))
    }

    /// The socket of a connection that the peer has opened.
    pub open spec fn opened_by_peer(addr: SocketAddr) -> Self {
        SocketView::initial(addr, None)
    }

    /// What wakes the task that waits until the connection stands.
    pub open spec fn connecting(self) -> Option<W> {
        match self.connector {
            Some(c) => c.waker,
            None => None,
        }
    }

    /// The socket once bytes have come.
    pub open spec fn received(self, bytes: Seq<u8>) -> Self {
        SocketView { reader: self.reader.received(bytes), ..self }
    }

    /// The socket once it has failed. No task waits on it any more.
    pub open spec fn failed(self) -> Self {
        SocketView {
            reader: self.reader.woken(),
            connector: match self.connector {
                Some(c) => Some(c.woken()),
                None => None,
            },
            ..self
        }
    }

    /// The socket once it has entered a state.
    pub open spec fn entered(self, state: UtpState) -> Self {
        match state {
            UtpState::UtpStateConnect => SocketView {
                connector: match self.connector {
                    Some(c) => Some(c.stood()),
                    None => None,
                },
                ..self
            },
            UtpState::UtpStateEOF => SocketView { reader: self.reader.ended(), ..self },
            _ => self,
        }
    }
}

impl<W> SocketData<W> {
    /// What the data holds.
    pub open spec fn view(&self) -> SocketView<W> {
        SocketView { reader: self.reader@, addr: self.addr, connector: self.connector }
    }

    /// The data of a new socket.
    pub fn new(addr: SocketAddr, connector: Option<UtpConnector<W>>) -> (d: SocketData<W>)
        ensures
            d@ == SocketView::initial(addr, connector),
    {
        SocketData { reader: UtpReader::new(), addr, connector }
    }
}

/// A socket that no task owns yet. `D` is a handle on its [`SocketData`].
#[derive(Debug)]
pub struct QueuedUtpSocket<D> {
    pub addr: SocketAddr,
    pub data: D,
}

/// A connection. `D` is a handle on its [`SocketData`].
#[derive(Debug)]
pub struct UtpSocket<D> {
    pub addr: SocketAddr,
    pub data: D,
}

/// A connection that is being opened. Without a socket, either the attempt failed at once, or the
/// connection has been handed out.
#[derive(Debug)]
pub struct Connect<D> {
    pub socket: Option<UtpSocket<D>>,
}

/// Whether a socket's data can be attached to it.
pub open spec fn attachable<W, H, D, F: FnOnce(&H, SocketData<W>) -> D>(
    attach: F,
    socket: H,
    view: SocketView<W>,
) -> bool {
    forall|d: SocketData<W>| d@ == view ==> #[trigger] call_requires(attach, (&socket, d))
}

/// Whether `data` is the handle that came of attaching to a socket data that holds this.
pub open spec fn attached<W, H, D, F: FnOnce(&H, SocketData<W>) -> D>(
    attach: F,
    socket: H,
    view: SocketView<W>,
    data: D,
) -> bool {
    exists|d: SocketData<W>| d@ == view && #[trigger] call_ensures(attach, (&socket, d), data)
}

impl<D> QueuedUtpSocket<D> {
    /// Makes the data of a new socket, has it attached to the socket, and enters the socket under its
    /// peer's address. A handle that the address had is handed back, to be closed.
    pub fn new<W, H, E, F: FnOnce(&H, SocketData<W>) -> D>(
        ctx: &mut UtpContext<W, H, D, E>,
        socket: H,
        addr: SocketAddr,
        connector: Option<UtpConnector<W>>,
        attach: F,
    ) -> (r: (QueuedUtpSocket<D>, Option<H>))
        requires
            old(ctx).wf(),
            attachable(attach, socket, SocketView::initial(addr, connector)),
        ensures
            final(ctx).wf(),
            final(ctx)@ == old(ctx)@.with_socket(addr, socket),
            r.0.addr == addr,
            attached(attach, socket, SocketView::initial(addr, connector), r.0.data),
            r.1 == old(ctx)@.handle(addr),
    {
        let data = attach(&socket, SocketData::new(addr, connector));
        let replaced = ctx.sockets.insert(addr, socket);
        (QueuedUtpSocket { addr, data }, replaced)
    }

    /// Hands the socket to a task.
    pub fn accept(self) -> (socket: UtpSocket<D>)
        ensures
            socket == (UtpSocket { addr: self.addr, data: self.data }),
    {
        UtpSocket { addr: self.addr, data: self.data }
    }
}

impl<D> UtpSocket<D> {
    /// The peer's address.
    pub fn peer_addr(&self) -> (addr: SocketAddr)
        ensures
            addr == self.addr,
    {
        self.addr
    }

    /// A text that tells sockets apart in a log.
    pub fn debug_text(&self) -> (s: String)
        ensures
            s@ == "UtpSocket: "@ + socket_addr_text(self.addr),
    {
        let mut s = String::new();
        s.append("UtpSocket: ");
        s.append(self.addr.to_text().as_str());
        s
    }

    /// Reads from the socket. A failure of the socket or of the context comes before the bytes.
    pub fn poll_read<W, E>(
        &self,
        errors: &mut ErrorChannel<E>,
        reader: &mut UtpReader<W>,
        waker: W,
        buf: &mut [u8],
    ) -> (r: Poll<Result<usize, Error<E>>>)
        requires
            old(errors).wf(),
        ensures
            final(errors).wf(),
            errors_checked(*old(errors), *final(errors), self.addr),
            match pending_err(*old(errors), self.addr) {
                Some(e) => {
                    &&& r == Poll::Ready(Result::<usize, Error<E>>::Err(e))
                    &&& *final(reader) == *old(reader)
                    &&& final(buf)@ == old(buf)@
                },
                None => {
                    &&& r == (match old(reader)@.poll_result(old(buf)@.len()) {
                        Poll::Ready(n) => Poll::Ready(Result::<usize, Error<E>>::Ok(n)),
                        Poll::Pending => Poll::Pending,
                    })
                    &&& final(buf)@ == old(reader)@.data.filled(old(buf)@)
                    &&& final(reader)@ == old(reader)@.polled(waker, old(buf)@.len())
                },
            },
    {
        match errors.check_err(&self.addr) {
            Err(e) => Poll::Ready(Err(e)),
            Ok(_) => match reader.poll_read(waker, buf) {
                Poll::Ready(n) => Poll::Ready(Ok(n)),
                Poll::Pending => Poll::Pending,
            },
        }
    }

    /// Begins to write. A failure of the socket or of the context is given out. Otherwise the
    /// answer is the handle to write to, or none where the UDP socket takes no packets.
    pub fn start_write<'a, W, H, E>(&self, ctx: &'a mut UtpContext<W, H, D, E>) -> (r: Result<
        Option<&'a H>,
        Error<E>,
    >)
        requires
            old(ctx).wf(),
            old(ctx)@.err_for(self.addr) is None ==> old(ctx)@.handle(self.addr) is Some,
        ensures
            final(ctx).wf(),
            final(ctx)@ == old(ctx)@.after_check(self.addr),
            match old(ctx)@.err_for(self.addr) {
                Some(e) => r == Result::<Option<&'a H>, Error<E>>::Err(e),
                None => r == Result::<Option<&'a H>, Error<E>>::Ok(
                    if old(ctx)@.udp_writable {
                        Some(&old(ctx)@.handle(self.addr)->0)
                    } else {
                        None
                    },
                ),
            },
    {
        match ctx.error_channel.check_err(&self.addr) {
            Err(e) => Err(e),
            Ok(_) => {
                let writable = ctx.writer.udp_writable;
                let handle = ctx.sockets.get(&self.addr).unwrap();
                Ok(
                    if writable {
                        Some(handle)
                    } else {
                        None
                    },
                )
            },
        }
    }

    /// Ends an attempt to write, as [`crate::UtpWriter::poll_write`] says.
    pub fn poll_write<W, H, E>(
        &self,
        ctx: &mut UtpContext<W, H, D, E>,
        written: Option<usize>,
        waker: W,
    ) -> (r: Poll<Result<usize, Error<E>>>)
        requires
            old(ctx).wf(),
        ensures
            final(ctx).wf(),
            match written {
                Some(n) if n != 0 => {
                    &&& r == Poll::Ready(Result::<usize, Error<E>>::Ok(n))
                    &&& final(ctx)@ == old(ctx)@
                },
                _ => {
                    &&& r is Pending
                    &&& final(ctx)@ == old(ctx)@.with_writer(self.addr, waker)
                },
            },
    {
        match ctx.writer.poll_write(self.addr, written, waker) {
            Poll::Ready(n) => Poll::Ready(Ok(n)),
            Poll::Pending => Poll::Pending,
        }
    }

    /// There is nothing to flush.
    pub fn poll_flush<E>(&self) -> (r: Poll<Result<(), Error<E>>>)
        ensures
            r == Poll::Ready(Result::<(), Error<E>>::Ok(())),
    {
        Poll::Ready(Ok(()))
    }

    /// There is nothing to shut down before the socket is closed.
    pub fn poll_shutdown<E>(&self) -> (r: Poll<Result<(), Error<E>>>)
        ensures
            r == Poll::Ready(Result::<(), Error<E>>::Ok(())),
    {
        Poll::Ready(Ok(()))
    }

    /// Gives the socket up. The handle that stands under its peer's address is handed back, to be
    /// closed.
    pub fn close<W, H, E>(self, ctx: &mut UtpContext<W, H, D, E>) -> (closed: Option<H>)
        requires
            old(ctx).wf(),
        ensures
            final(ctx).wf(),
            final(ctx)@ == old(ctx)@.without_socket(self.addr),
            closed == old(ctx)@.handle(self.addr),
    {
        ctx.sockets.remove(&self.addr)
    }
}

/// The failure that a check for an address gives out: that of the socket or, where it has none, that
/// of the context.
pub open spec fn pending_err<E>(errors: ErrorChannel<E>, addr: SocketAddr) -> Option<Error<E>> {
    if errors.sockets@.contains_key(addr) {
        Some(errors.sockets@[addr])
    } else {
        errors.context
    }
}

/// What a check for an address leaves of the failures: all but the one that it gives out.
pub open spec fn errors_checked<E>(
    before: ErrorChannel<E>,
    after: ErrorChannel<E>,
    addr: SocketAddr,
) -> bool {
    &&& after.sockets@ == before.sockets@.remove(addr)
    &&& after.context == (if before.sockets@.contains_key(addr) {
        before.context
    } else {
        None
    })
}

impl<D> Connect<D> {
    /// Whether the connection stands. A failure of the socket or of the context comes first; until
    /// the connection stands, the task has to wait; then the socket is handed out.
    pub fn poll<W, E>(
        &mut self,
        errors: &mut ErrorChannel<E>,
        connector: &mut UtpConnector<W>,
        waker: W,
    ) -> (r: Poll<Result<UtpSocket<D>, Error<E>>>)
        requires
            old(errors).wf(),
            old(self).socket is Some,
        ensures
            final(errors).wf(),
            errors_checked(*old(errors), *final(errors), old(self).socket->0.addr),
            match pending_err(*old(errors), old(self).socket->0.addr) {
                Some(e) => {
                    &&& r == Poll::Ready(Result::<UtpSocket<D>, Error<E>>::Err(e))
                    &&& final(self).socket == old(self).socket
                    &&& *final(connector) == *old(connector)
                },
                None => {
                    &&& *final(connector) == old(connector).polled(waker)
                    &&& if old(connector).connected {
                        &&& r == Poll::Ready(
                            Result::<UtpSocket<D>, Error<E>>::Ok(old(self).socket->0),
                        )
                        &&& final(self).socket is None
                    } else {
                        &&& r is Pending
                        &&& final(self).socket == old(self).socket
                    }
                },
            },
    {
        let addr = self.socket.as_ref().unwrap().addr;
        match errors.check_err(&addr) {
            Err(e) => Poll::Ready(Err(e)),
            Ok(_) => match connector.poll_connected(waker) {
                Poll::Ready(_) => Poll::Ready(Ok(self.socket.take().unwrap())),
                Poll::Pending => Poll::Pending,
            },
        }
    }
}

} // verus!
