//! What holds of several operations together. Each law is stated over what the operations' own
//! contracts speak of.

use crate::addr::SocketAddr;
use crate::addr_map::{lists_keys, lists_values};
use crate::connector::UtpConnector;
use crate::context::{
    one_or_none, wakes_on_error, ContextView, RecvAction, RecvEvent, SendEvent, SendProgress,
    UtpContext, SOCKET_READ_BUFFER_SIZE,
};
use crate::data_queue::{bytes_in, least, left_after, QueueView};
use crate::error_channel::ErrorChannel;
use crate::io::{Error, ErrorKind};
use crate::reader::ReaderView;
use crate::socket::{errors_checked, pending_err, QueuedUtpSocket, SocketView};
use crate::socket_queue::{law_queue_is_bounded, SOCKET_QUEUE_CAPACITY};
use crate::udp::{EventLoop, LoopAction, LoopEvent, Readiness};
use crate::wrappers::{UtpErrorCode, UtpEvent, UtpState};
use vstd::prelude::*;

verus! {

/// Something that happens to the bytes of one socket.
pub enum StreamOp {
    /// Bytes come in.
    Receive(Seq<u8>),
    /// A task reads into a buffer of so many bytes.
    Read(nat),
}

/// The bytes of one socket: those that wait, all that have come in, and all that have been read.
pub struct Stream {
    pub waiting: QueueView,
    pub received: Seq<u8>,
    pub delivered: Seq<u8>,
}

impl Stream {
    /// What an operation makes of the bytes.
    pub open spec fn step(self, op: StreamOp) -> Stream {
        match op {
            StreamOp::Receive(bytes) => Stream {
                waiting: self.waiting.pushed(bytes),
                received: self.received + bytes,
                ..self
            },
            StreamOp::Read(room) => Stream {
                waiting: self.waiting.after_read(room),
                delivered: self.delivered + self.waiting.bytes().take(
                    self.waiting.readable(room) as int,
                ),
                ..self
            },
        }
    }

    /// What operations make of the bytes of a new socket, one after the other.
    pub open spec fn run(ops: Seq<StreamOp>) -> Stream
        decreases ops.len(),
    {
        if ops.len() == 0 {
            Stream {
                waiting: QueueView::empty(),
                received: Seq::empty(),
                delivered: Seq::empty(),
            }
        } else {
            Stream::run(ops.drop_last()).step(ops.last())
        }
    }
}

proof fn lemma_left_after(front: Option<Seq<u8>>, chunks: Seq<Seq<u8>>, room: nat)
    ensures
        bytes_in(left_after(front, chunks, room).0, left_after(front, chunks, room).1) == bytes_in(
            front,
            chunks,
        ).skip(least(room, bytes_in(front, chunks).len()) as int),
    decreases chunks.len(), if front is Some { 1nat } else { 0nat },
{
    match front {
        Some(c) => {
            if 0 < room && c.len() <= room {
                lemma_left_after(None, chunks, (room - c.len()) as nat);
            }
        },
        None => {
            if 0 < room && chunks.len() > 0 && chunks[0].len() <= room {
                lemma_left_after(None, chunks.drop_first(), (room - chunks[0].len()) as nat);
            }
        },
    }
}

/// What waits after a read are all bytes but those that were read.
pub proof fn law_read_leaves_the_rest(q: QueueView, room: nat)
    ensures
        q.after_read(room).bytes() == q.bytes().skip(q.readable(room) as int),
{
    lemma_left_after(q.front, q.chunks, room);
}

/// Whatever comes in and is read on a socket, in whatever portions: the bytes that have been read,
/// followed by those that wait, are the bytes that have come in. None is lost, repeated, changed or
/// read out of turn.
pub proof fn law_stream_is_kept(ops: Seq<StreamOp>)
    ensures
        Stream::run(ops).delivered + Stream::run(ops).waiting.bytes() == Stream::run(ops).received,
    decreases ops.len(),
{
    if ops.len() > 0 {
        law_stream_is_kept(ops.drop_last());
        let before = Stream::run(ops.drop_last()).waiting;
        match ops.last() {
            StreamOp::Receive(chunk) => before.chunks.lemma_flatten_push(chunk),
            StreamOp::Read(room) => law_read_leaves_the_rest(before, room),
        }
    }
}

/// A failure is given out once. A socket's own comes first, then the context's, then none; the
/// failures of other sockets stay.
pub proof fn law_failure_is_given_out_once<E>(
    first: ErrorChannel<E>,
    second: ErrorChannel<E>,
    third: ErrorChannel<E>,
    addr: SocketAddr,
    other: SocketAddr,
)
    requires
        errors_checked(first, second, addr),
        errors_checked(second, third, addr),
        other != addr,
    ensures
        first.sockets@.contains_key(addr) ==> pending_err(first, addr) == Some(
            first.sockets@[addr],
        ) && pending_err(second, addr) == first.context,
        !first.sockets@.contains_key(addr) ==> pending_err(first, addr) == first.context
            && pending_err(second, addr) is None,
        pending_err(third, addr) is None,
        third.sockets@.contains_key(other) == first.sockets@.contains_key(other),
        first.sockets@.contains_key(other) ==> third.sockets@[other] == first.sockets@[other],
{
}

/// A socket that libutp reports as failed gives its task an error of that kind, whatever else has
/// failed, and leaves the failures of other sockets and of the context as they are.
pub proof fn law_socket_failure_is_reported<W, H, D, E>(
    v: ContextView<W, H, D, E>,
    addr: SocketAddr,
    kind: ErrorKind,
    other: SocketAddr,
)
    requires
        other != addr,
    ensures
        v.after_error(addr, kind).err_for(addr) == Some(Error::<E>::Socket(kind)),
        v.after_error(addr, kind).err_for(other) == v.err_for(other),
        v.after_error(addr, kind).context_err == v.context_err,
{
}

/// What tasks that poll a socket or a connection are told of is what the context knows of failures.
pub proof fn law_tasks_are_told_of_known_failures<W, H, D, E>(
    ctx: UtpContext<W, H, D, E>,
    addr: SocketAddr,
)
    ensures
        pending_err(ctx.error_channel, addr) == ctx@.err_for(addr),
{
}

/// A failure of the context reaches any task that checks next, unless its socket has one of its own.
pub proof fn law_context_failure_is_reported<W, H, D, E>(
    v: ContextView<W, H, D, E>,
    e: Error<E>,
    addr: SocketAddr,
)
    ensures
        v.with_context_err(e).err_for(addr) == (if v.socket_errs.contains_key(addr) {
            Some(v.socket_errs[addr])
        } else {
            Some(e)
        }),
{
}

/// A list of a map's values holds the value of each key.
proof fn lemma_listed<V>(values: Seq<V>, map: Map<SocketAddr, V>, addr: SocketAddr)
    requires
        lists_values(values, map),
        map.contains_key(addr),
    ensures
        values.contains(map[addr]),
{
    let keys = choose|keys: Seq<SocketAddr>| #[trigger]
        lists_keys(keys, map.dom()) && values == keys.map_values(|k: SocketAddr| map[k]);
    let i = keys.index_of(addr);
    assert(values[i] == map[addr]);
}

/// All whose wakers are handed back when a socket fails.
pub(crate) proof fn lemma_woken_on_error<W, H, D, E>(
    woken: Seq<W>,
    v: ContextView<W, H, D, E>,
    socket: SocketView<W>,
)
    requires
        wakes_on_error(woken, v, socket),
    ensures
        forall|addr: SocketAddr| #[trigger]
            v.writers.contains_key(addr) ==> woken.contains(v.writers[addr]),
        socket.reader.waker is Some ==> woken.contains(socket.reader.waker->0),
        v.acceptor is Some ==> woken.contains(v.acceptor->0),
        socket.connecting() is Some ==> woken.contains(socket.connecting()->0),
{
    let writers = choose|writers: Seq<W>| #[trigger]
        lists_values(writers, v.writers) && woken == writers + one_or_none(socket.reader.waker)
            + one_or_none(v.acceptor) + one_or_none(socket.connecting());
    assert forall|addr: SocketAddr| #[trigger] v.writers.contains_key(addr) implies woken.contains(
        v.writers[addr],
    ) by {
        lemma_listed(writers, v.writers, addr);
        let i = writers.index_of(v.writers[addr]);
        assert(woken[i] == v.writers[addr]);
    }
    let behind_writers = writers.len() as int;
    let behind_reader = behind_writers + one_or_none(socket.reader.waker).len();
    let behind_acceptor = behind_reader + one_or_none(v.acceptor).len();
    if socket.reader.waker is Some {
        assert(woken[behind_writers] == socket.reader.waker->0);
    }
    if v.acceptor is Some {
        assert(woken[behind_reader] == v.acceptor->0);
    }
    if socket.connecting() is Some {
        assert(woken[behind_acceptor] == socket.connecting()->0);
    }
}

/// A task that was told to wait until it can write is woken when its socket becomes writable, when
/// the UDP socket takes packets again, and when any socket fails. `ready` are the wakers handed
/// back on the second, `failed` those on the third.
pub proof fn law_waiting_writer_is_woken<W, H, D, E>(
    v: ContextView<W, H, D, E>,
    addr: SocketAddr,
    waker: W,
    ready: Seq<W>,
    failed: Seq<W>,
    socket: SocketView<W>,
)
    requires
        lists_values(ready, v.with_writer(addr, waker).writers),
        wakes_on_error(failed, v.with_writer(addr, waker), socket),
    ensures
        v.with_writer(addr, waker).writer(addr) == Some(waker),
        ready.contains(waker),
        failed.contains(waker),
{
    let after = v.with_writer(addr, waker);
    lemma_listed(ready, after.writers, addr);
    lemma_woken_on_error(failed, after, socket);
}

/// A task that waits to write to one address goes on waiting while tasks for other addresses come
/// and go.
pub proof fn law_writers_do_not_disturb_each_other<W, H, D, E>(
    v: ContextView<W, H, D, E>,
    addr: SocketAddr,
    other: SocketAddr,
    waker: W,
)
    requires
        other != addr,
    ensures
        v.with_writer(other, waker).writer(addr) == v.writer(addr),
        v.without_writer(other).writer(addr) == v.writer(addr),
{
}

/// A new context refuses connections, and a listener that comes and goes leaves a context as it was.
pub proof fn law_listener_comes_and_goes<W, H, D, E>(v: ContextView<W, H, D, E>)
    ensures
        v.listened().unlistened() == v,
        v.unlistened().listened() == v,
        ContextView::<W, H, D, E>::initial().refuses(),
{
}

/// Connections are let in once there is a listener, unless the count of listeners was at its largest
/// and starts over.
pub proof fn law_listener_lets_in<W, H, D, E>(v: ContextView<W, H, D, E>)
    requires
        v.listening != 255,
    ensures
        !v.listened().refuses(),
{
}

/// Something that happens to the count of listeners.
pub enum ListenOp {
    /// A listener is made.
    Made,
    /// A listener is gone.
    Gone,
}

/// How many listeners were made.
pub open spec fn made(ops: Seq<ListenOp>) -> nat
    decreases ops.len(),
{
    if ops.len() == 0 {
        0
    } else {
        made(ops.drop_last()) + if ops.last() is Made { 1nat } else { 0nat }
    }
}

/// How many listeners are gone.
pub open spec fn gone(ops: Seq<ListenOp>) -> nat
    decreases ops.len(),
{
    if ops.len() == 0 {
        0
    } else {
        gone(ops.drop_last()) + if ops.last() is Gone { 1nat } else { 0nat }
    }
}

/// What listeners that come and go make of a context, one after the other.
pub open spec fn listen_run<W, H, D, E>(
    v: ContextView<W, H, D, E>,
    ops: Seq<ListenOp>,
) -> ContextView<W, H, D, E>
    decreases ops.len(),
{
    if ops.len() == 0 {
        v
    } else {
        match ops.last() {
            ListenOp::Made => listen_run(v, ops.drop_last()).listened(),
            ListenOp::Gone => listen_run(v, ops.drop_last()).unlistened(),
        }
    }
}

proof fn lemma_listen_run<W, H, D, E>(v: ContextView<W, H, D, E>, ops: Seq<ListenOp>)
    ensures
        listen_run(v, ops).listening == (v.listening + made(ops) - gone(ops)) % 256,
    decreases ops.len(),
{
    if ops.len() > 0 {
        lemma_listen_run(v, ops.drop_last());
    }
}

/// On a new context, with up to 255 listeners made and no more gone than were made, connections are
/// refused if and only if all listeners are gone.
pub proof fn law_refused_exactly_without_listeners<W, H, D, E>(ops: Seq<ListenOp>)
    requires
        gone(ops) <= made(ops) <= 255,
    ensures
        listen_run(ContextView::<W, H, D, E>::initial(), ops).refuses() <==> made(ops) == gone(ops),
{
    lemma_listen_run(ContextView::<W, H, D, E>::initial(), ops);
}

/// A handle entered under an address is the one found there, entries under other addresses stay,
/// and giving the socket up undoes the entry.
pub proof fn law_socket_comes_and_goes<W, H, D, E>(
    v: ContextView<W, H, D, E>,
    addr: SocketAddr,
    socket: H,
    other: SocketAddr,
)
    requires
        other != addr,
    ensures
        v.with_socket(addr, socket).handle(addr) == Some(socket),
        v.with_socket(addr, socket).handle(other) == v.handle(other),
        v.without_socket(addr).handle(addr) is None,
        v.without_socket(addr).handle(other) == v.handle(other),
        v.handle(addr) is None ==> v.with_socket(addr, socket).without_socket(addr) == v,
{
}

/// A connection for which there is no room leaves nothing behind: no connection waits that did not
/// wait before, and no handle stands under its peer's address.
pub proof fn law_refused_connection_leaves_nothing<W, H, D, E>(
    v: ContextView<W, H, D, E>,
    addr: SocketAddr,
    socket: H,
    data: D,
)
    requires
        v.is_full(),
    ensures
        v.after_accept(addr, socket, data).waiting == v.waiting,
        v.after_accept(addr, socket, data).handle(addr) is None,
        v.handle(addr) is None ==> v.after_accept(addr, socket, data).sockets == v.sockets,
{
}

/// No more connections wait to be accepted than there is room for.
pub proof fn law_waiting_connections_are_bounded<W, H, D, E>(ctx: UtpContext<W, H, D, E>)
    requires
        ctx.wf(),
    ensures
        ctx@.waiting.len() <= SOCKET_QUEUE_CAPACITY,
{
    law_queue_is_bounded(ctx.socket_queue);
}

/// Something that happens to the connections that wait to be accepted.
pub enum AcceptOp<W, H, D> {
    /// A peer opens a connection.
    Opened(SocketAddr, H, D),
    /// A task polls a listener while no failure of the context waits.
    Polled(W),
    /// A socket fails.
    Failed(SocketAddr, ErrorKind),
}

/// A context, the connections for which there was room, and those that have been accepted.
pub struct AcceptRun<W, H, D, E> {
    pub view: ContextView<W, H, D, E>,
    pub admitted: Seq<QueuedUtpSocket<D>>,
    pub accepted: Seq<QueuedUtpSocket<D>>,
}

/// What peers, tasks and failures make of a new context, one after the other.
pub open spec fn accept_run<W, H, D, E>(ops: Seq<AcceptOp<W, H, D>>) -> AcceptRun<W, H, D, E>
    decreases ops.len(),
{
    if ops.len() == 0 {
        AcceptRun {
            view: ContextView::initial(),
            admitted: Seq::empty(),
            accepted: Seq::empty(),
        }
    } else {
        let before = accept_run::<W, H, D, E>(ops.drop_last());
        match ops.last() {
            AcceptOp::Opened(addr, socket, data) => AcceptRun {
                view: before.view.after_accept(addr, socket, data),
                admitted: if before.view.is_full() {
                    before.admitted
                } else {
                    before.admitted.push(QueuedUtpSocket { addr, data })
                },
                ..before
            },
            AcceptOp::Polled(waker) => AcceptRun {
                view: before.view.after_poll_next(waker),
                accepted: if before.view.waiting.len() > 0 {
                    before.accepted.push(before.view.waiting[0])
                } else {
                    before.accepted
                },
                ..before
            },
            AcceptOp::Failed(addr, kind) => AcceptRun {
                view: before.view.after_error(addr, kind),
                ..before
            },
        }
    }
}

/// Connections are accepted in the order in which they were opened, each once, and none for which
/// there was room is left out: those accepted, followed by those that wait, are those for which
/// there was room. Never more wait than there is room for, and no task waits for a connection while
/// one waits to be accepted.
pub proof fn law_connections_are_accepted_in_order<W, H, D, E>(ops: Seq<AcceptOp<W, H, D>>)
    ensures
        ({
            let run = accept_run::<W, H, D, E>(ops);
            &&& run.accepted + run.view.waiting == run.admitted
            &&& run.view.waiting.len() <= SOCKET_QUEUE_CAPACITY
            &&& run.view.acceptor is Some ==> run.view.waiting.len() == 0
        }),
    decreases ops.len(),
{
    if ops.len() > 0 {
        law_connections_are_accepted_in_order::<W, H, D, E>(ops.drop_last());
    }
}

/// Whether no task waits for bytes while there are bytes to be read.
pub open spec fn reader_attended<W>(r: ReaderView<W>) -> bool {
    r.waker is Some ==> r.data.bytes().len() == 0
}

/// No task ever waits for bytes while there are bytes to be read: so it is on a new reader, and so it
/// stays whatever happens, as long as tasks poll with buffers that hold at least one byte.
pub proof fn law_no_reader_waits_beside_bytes<W>(
    r: ReaderView<W>,
    waker: W,
    room: nat,
    bytes: Seq<u8>,
)
    requires
        reader_attended(r),
        room > 0,
    ensures
        reader_attended(ReaderView::<W>::initial()),
        reader_attended(r.polled(waker, room)),
        reader_attended(r.received(bytes)),
        reader_attended(r.ended()),
        reader_attended(r.woken()),
{
    law_read_leaves_the_rest(r.data, room);
}

/// A task that was told to wait for bytes is woken when bytes come and when the socket fails: its
/// waker is the one that is handed back then.
pub proof fn law_waiting_reader_is_woken<W, H, D, E>(
    v: ContextView<W, H, D, E>,
    socket: SocketView<W>,
    waker: W,
    room: nat,
    woken: Seq<W>,
)
    requires
        socket.reader.poll_result(room) is Pending,
        wakes_on_error(
            woken,
            v,
            (SocketView { reader: socket.reader.polled(waker, room), ..socket }),
        ),
    ensures
        socket.reader.polled(waker, room).waker == Some(waker),
        woken.contains(waker),
{
    let after = SocketView { reader: socket.reader.polled(waker, room), ..socket };
    lemma_woken_on_error(woken, v, after);
}

/// Whether no task waits for a connection that stands.
pub open spec fn connector_attended<W>(c: UtpConnector<W>) -> bool {
    c.waker is Some ==> !c.connected
}

/// No task ever waits for a connection that stands: so it is with a new connection, and so it stays
/// whatever happens.
pub proof fn law_no_task_waits_for_a_standing_connection<W>(c: UtpConnector<W>, waker: W)
    requires
        connector_attended(c),
    ensures
        connector_attended(UtpConnector::<W>::initial()),
        connector_attended(c.polled(waker)),
        connector_attended(c.stood()),
        connector_attended(c.woken()),
        c.polled(waker).waker is Some || c.connected,
{
}

/// A task that was told to wait for its connection is woken when the connection stands and when the
/// socket fails: its waker is the one that is handed back then.
pub proof fn law_waiting_connector_is_woken<W, H, D, E>(
    v: ContextView<W, H, D, E>,
    socket: SocketView<W>,
    c: UtpConnector<W>,
    waker: W,
    woken: Seq<W>,
)
    requires
        !c.connected,
        socket.connector == Some(c.polled(waker)),
        wakes_on_error(woken, v, socket),
    ensures
        socket.connecting() == Some(waker),
        socket.entered(UtpState::UtpStateConnect).connector == Some(c.polled(waker).stood()),
        woken.contains(waker),
{
    lemma_woken_on_error(woken, v, socket);
}

/// A task that was told to wait for a connection to accept is woken when a socket fails; that it is
/// woken when a connection comes, [`UtpContext::on_accept`] says.
pub proof fn law_waiting_acceptor_is_woken<W, H, D, E>(
    v: ContextView<W, H, D, E>,
    socket: SocketView<W>,
    waker: W,
    woken: Seq<W>,
)
    requires
        v.waiting.len() == 0,
        wakes_on_error(woken, v.after_poll_next(waker), socket),
    ensures
        v.after_poll_next(waker).acceptor == Some(waker),
        woken.contains(waker),
{
    lemma_woken_on_error(woken, v.after_poll_next(waker), socket);
}

/// Once bytes of a peer have come, its packets are discarded if and only if more chunks wait than a
/// socket may keep, and the packets of other peers as before.
pub proof fn law_full_reader_is_discarded<W, H, D, E>(
    v: ContextView<W, H, D, E>,
    addr: SocketAddr,
    chunks: nat,
    other: SocketAddr,
)
    requires
        other != addr,
    ensures
        v.after_read(addr, chunks).discarded.contains(addr) <==> chunks > SOCKET_READ_BUFFER_SIZE,
        v.after_read(addr, chunks).discarded.contains(other) <==> v.discarded.contains(other),
{
}

/// The attempts to send one packet: how far they have come, whether there is to be another, the bytes
/// that have gone out, and the context.
pub struct SendRun<W, H, D, E> {
    pub packet: SendProgress,
    pub again: bool,
    pub out: Seq<u8>,
    pub view: ContextView<W, H, D, E>,
}

/// What attempts to send a packet come to, one after the other, each of what the last one left.
pub open spec fn send_run<W, H, D, E>(
    v: ContextView<W, H, D, E>,
    buf: Seq<u8>,
    events: Seq<SendEvent<E>>,
) -> SendRun<W, H, D, E>
    decreases events.len(),
{
    if events.len() == 0 {
        SendRun {
            packet: SendProgress { len: buf.len() as usize, sent: 0 },
            again: true,
            out: Seq::empty(),
            view: v,
        }
    } else {
        let before = send_run(v, buf, events.drop_last());
        SendRun {
            packet: before.packet.after(events.last()),
            again: before.packet.goes_on(events.last()),
            out: match events.last() {
                SendEvent::Sent(n) => before.out + buf.subrange(
                    before.packet.sent as int,
                    before.packet.sent + n,
                ),
                _ => before.out,
            },
            view: before.view.after_send(events.last()),
        }
    }
}

/// Whether attempts to send a packet can end so: there is one only where the last one asked for it,
/// and none sends more than was left.
pub open spec fn can_send<W, H, D, E>(
    v: ContextView<W, H, D, E>,
    buf: Seq<u8>,
    events: Seq<SendEvent<E>>,
) -> bool
    decreases events.len(),
{
    events.len() > 0 ==> {
        let before = send_run(v, buf, events.drop_last());
        &&& can_send(v, buf, events.drop_last())
        &&& before.again
        &&& events.last() matches SendEvent::Sent(n) ==> n <= before.packet.len
            - before.packet.sent
    }
}

/// The last failure among attempts to send.
pub open spec fn last_send_failure<E>(events: Seq<SendEvent<E>>) -> Option<E>
    decreases events.len(),
{
    if events.len() == 0 {
        None
    } else {
        match events.last() {
            SendEvent::Failed(e) => Some(e),
            _ => last_send_failure(events.drop_last()),
        }
    }
}

/// Whatever portions a packet goes out in, and whatever fails in between: what has gone out is the
/// packet's beginning, each portion from where the last one ended. The attempts end if and only if
/// all of it has just gone out or the socket takes no packets, which is noted then and only then.
/// Of the failures the last is kept.
pub proof fn law_packet_goes_out_in_order<W, H, D, E>(
    v: ContextView<W, H, D, E>,
    buf: Seq<u8>,
    events: Seq<SendEvent<E>>,
)
    requires
        buf.len() <= usize::MAX,
        can_send(v, buf, events),
    ensures
        ({
            let run = send_run(v, buf, events);
            &&& run.packet.len == buf.len()
            &&& run.packet.sent <= buf.len()
            &&& run.out == buf.take(run.packet.sent as int)
            &&& !run.again <==> events.len() > 0 && (events.last() is WouldBlock || (
            events.last() is Sent && run.out == buf))
            &&& run.view == (ContextView {
                udp_writable: v.udp_writable && !(events.len() > 0 && events.last() is WouldBlock),
                context_err: match last_send_failure(events) {
                    Some(e) => Some(Error::Os(e)),
                    None => v.context_err,
                },
                ..v
            })
        }),
    decreases events.len(),
{
    if events.len() > 0 {
        law_packet_goes_out_in_order(v, buf, events.drop_last());
        let before = send_run(v, buf, events.drop_last());
        if let SendEvent::Sent(n) = events.last() {
            assert(send_run(v, buf, events).out =~= buf.take(before.packet.sent + n));
            assert(buf.take(buf.len() as int) =~= buf);
        }
    }
}

/// The attempts to receive the packets that wait: which of them libutp was let process, by their
/// places among the attempts, how often it was let send the acknowledgements that it had put off,
/// whether there is to be another attempt, and the context.
pub struct RecvRun<W, H, D, E> {
    pub processed: Seq<int>,
    pub acks: nat,
    pub again: bool,
    pub view: ContextView<W, H, D, E>,
}

/// What attempts to receive come to, one after the other, while the packets of some peers are
/// discarded.
pub open spec fn recv_run<W, H, D, E>(
    v: ContextView<W, H, D, E>,
    discarded: Set<SocketAddr>,
    events: Seq<RecvEvent<E>>,
) -> RecvRun<W, H, D, E>
    decreases events.len(),
{
    if events.len() == 0 {
        RecvRun { processed: Seq::empty(), acks: 0, again: true, view: v }
    } else {
        let before = recv_run(v, discarded, events.drop_last());
        let action = RecvAction::after(events.last(), discarded);
        RecvRun {
            processed: if action is Process {
                before.processed.push(events.len() - 1)
            } else {
                before.processed
            },
            acks: if action is AckAndEnd {
                before.acks + 1
            } else {
                before.acks
            },
            again: action !is AckAndEnd,
            view: before.view.after_recv(events.last()),
        }
    }
}

/// Whether attempts to receive can end so: there is one only where the last one asked for it.
pub open spec fn can_recv<W, H, D, E>(
    v: ContextView<W, H, D, E>,
    discarded: Set<SocketAddr>,
    events: Seq<RecvEvent<E>>,
) -> bool
    decreases events.len(),
{
    events.len() > 0 ==> can_recv(v, discarded, events.drop_last()) && recv_run(
        v,
        discarded,
        events.drop_last(),
    ).again
}

/// The last failure among attempts to receive.
pub open spec fn last_recv_failure<E>(events: Seq<RecvEvent<E>>) -> Option<E>
    decreases events.len(),
{
    if events.len() == 0 {
        None
    } else {
        match events.last() {
            RecvEvent::Failed(e) => Some(e),
            _ => last_recv_failure(events.drop_last()),
        }
    }
}

/// While the packets that wait are read, libutp is let process each packet of a peer that is not
/// discarded, once and in order, and no other. Reading ends if and only if no packet is left; the
/// acknowledgements are sent once then, and not before. Of the failures the last is kept.
pub proof fn law_waiting_packets_are_processed<W, H, D, E>(
    v: ContextView<W, H, D, E>,
    discarded: Set<SocketAddr>,
    events: Seq<RecvEvent<E>>,
)
    requires
        can_recv(v, discarded, events),
    ensures
        ({
            let run = recv_run(v, discarded, events);
            let empty = events.len() > 0 && events.last() is WouldBlock;
            &&& forall|i: int| #[trigger]
                run.processed.contains(i) <==> 0 <= i < events.len() && (
                events[i] matches RecvEvent::Packet(from) && !discarded.contains(from))
            &&& forall|a: int, b: int|
                0 <= a < b < run.processed.len() ==> run.processed[a] < run.processed[b]
            &&& run.again <==> !empty
            &&& run.acks == (if empty {
                1nat
            } else {
                0nat
            })
            &&& run.view == (ContextView {
                context_err: match last_recv_failure(events) {
                    Some(e) => Some(Error::Os(e)),
                    None => v.context_err,
                },
                ..v
            })
        }),
    decreases events.len(),
{
    if events.len() > 0 {
        law_waiting_packets_are_processed(v, discarded, events.drop_last());
        let earlier = events.drop_last();
        let before = recv_run(v, discarded, earlier);
        let now = recv_run(v, discarded, events);
        let last = events.len() - 1;
        assert forall|i: int| #[trigger]
            now.processed.contains(i) <==> 0 <= i < events.len() && (
            events[i] matches RecvEvent::Packet(from) && !discarded.contains(from)) by {
            if before.processed.contains(i) {
                let j = before.processed.index_of(i);
                assert(now.processed[j] == i);
            }
            if now.processed.len() > before.processed.len() {
                assert(now.processed[now.processed.len() - 1] == last);
            }
        }
        assert forall|a: int, b: int| 0 <= a < b < now.processed.len() implies now.processed[a]
            < now.processed[b] by {
            assert(before.processed.contains(before.processed[a]));
        }
    }
}

/// An address that has been looked up is never asked for again, and keeps its answer until the same
/// address is answered anew.
pub proof fn law_known_address_stays_known(
    known: Map<SocketAddr, Seq<u8>>,
    addr: SocketAddr,
    sockaddr: Seq<u8>,
    other: SocketAddr,
    answer: Seq<u8>,
)
    ensures
        known.insert(addr, sockaddr).contains_key(addr),
        known.insert(addr, sockaddr)[addr] == sockaddr,
        known.contains_key(addr) ==> known.insert(other, answer).contains_key(addr),
        known.contains_key(addr) && other != addr ==> known.insert(other, answer)[addr]
            == known[addr],
{
}

/// The numbers of events tell them apart, and the numbers of states and failures lead back to them.
pub proof fn law_numbers_tell_apart(a: UtpEvent, b: UtpEvent, state: UtpState, code: UtpErrorCode)
    ensures
        a.spec_number() == b.spec_number() ==> a == b,
        UtpState::of_number(state.spec_number()) == state,
        UtpErrorCode::of_number(code.spec_number()) == code,
{
}

/// A socket that any event of a poll says is readable is read in that round, and one that any event
/// says is writable is written, behind the read where there is one. Each is done once: the round is
/// over after the write, and a read is followed by a write or by the next round.
pub proof fn law_ready_socket_is_served<E>(
    l: EventLoop,
    stop: bool,
    events: Vec<Readiness>,
    i: int,
    emptied: bool,
)
    requires
        0 <= i < events@.len(),
    ensures
        ({
            let (polled, next) = l.step::<E>(stop, LoopEvent::Polled(events));
            let (read, after_read) = polled.step::<E>(stop, LoopEvent::Read(emptied));
            let (written, after_write) = read.step::<E>(stop, LoopEvent::Written);
            &&& events@[i].readable ==> next == LoopAction::<E>::Read
            &&& events@[i].writable ==> (next == LoopAction::<E>::Read && after_read
                == LoopAction::<E>::Write) || next == LoopAction::<E>::Write
            &&& after_read == LoopAction::<E>::Write || after_read == LoopAction::<E>::Round
            &&& after_write == LoopAction::<E>::Round
            &&& !written.send_ready
        }),
{
}

/// A socket that was read empty is not read again before an event says that it is readable, and one
/// that was written not before an event says that it is writable.
pub proof fn law_unready_socket_is_left_alone<E>(l: EventLoop, stop: bool, events: Vec<Readiness>)
    requires
        !l.read_ready,
        !l.send_ready,
    ensures
        ({
            let next = l.step::<E>(stop, LoopEvent::Polled(events)).1;
            &&& next == LoopAction::<E>::Read ==> exists|j: int|
                0 <= j < events@.len() && (#[trigger] events@[j]).readable
            &&& next == LoopAction::<E>::Write ==> exists|j: int|
                0 <= j < events@.len() && (#[trigger] events@[j]).writable
            &&& l.step::<E>(stop, LoopEvent::Reported).1 == LoopAction::<E>::Round
        }),
{
}

/// A read that did not empty the socket is repeated in the next round, whatever events come.
pub proof fn law_unfinished_read_is_repeated<E>(l: EventLoop, events: Vec<Readiness>)
    ensures
        ({
            let (read, _) = l.step::<E>(false, LoopEvent::Read(false));
            let (written, after_write) = read.step::<E>(false, LoopEvent::Written);
            &&& after_write == LoopAction::<E>::Round
            &&& read.step::<E>(false, LoopEvent::Round) == (read, LoopAction::<E>::Poll)
            &&& read.step::<E>(false, LoopEvent::Polled(events)).1 == LoopAction::<E>::Read
            &&& written.step::<E>(false, LoopEvent::Round) == (written, LoopAction::<E>::Poll)
            &&& written.step::<E>(false, LoopEvent::Polled(events)).1 == LoopAction::<E>::Read
        }),
{
}

/// A poll that fails is reported once, with its own error, and the round goes on as after a poll
/// without events.
pub proof fn law_failed_poll_is_reported<E>(l: EventLoop, stop: bool, e: E, none: Vec<Readiness>)
    requires
        none@.len() == 0,
    ensures
        l.step(stop, LoopEvent::PollFailed(e)) == (l, LoopAction::Report(e)),
        l.step::<E>(stop, LoopEvent::Reported) == l.step::<E>(stop, LoopEvent::Polled(none)),
{
}

/// A failure is reported if and only if a poll has just failed with it.
pub proof fn law_reports_are_of_failed_polls<E>(
    l: EventLoop,
    stop: bool,
    event: LoopEvent<E>,
    e: E,
)
    ensures
        l.step(stop, event).1 == LoopAction::Report(e) <==> event == LoopEvent::PollFailed(e),
{
}

/// The loop ends at the beginning of a round if and only if it was asked to, and at no other time.
pub proof fn law_loop_ends_when_asked<E>(l: EventLoop, stop: bool, event: LoopEvent<E>)
    ensures
        l.step(stop, event).1 == LoopAction::<E>::End <==> stop && event is Round,
{
}

} // verus!
