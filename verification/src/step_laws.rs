//! What each event does, told by what is seen before and after it: what tasks are answered, what is
//! found under an address, and what stays as it was. Each law holds in every state.

use crate::addr::SocketAddr;
use crate::addr_map::{lists_keys, lists_values};
use crate::connector::UtpConnector;
use crate::context::{
    is_c_string, one_or_none, wakes_on_error, ContextView, UtpContext, SOCKET_READ_BUFFER_SIZE,
};
use crate::data_queue::{left_after, QueueView};
use crate::io::{Error, ErrorKind, Poll};
use crate::laws::law_read_leaves_the_rest;
use crate::reader::{ReaderView, UtpReader};
use crate::socket::{attachable, attached, QueuedUtpSocket, SocketData, SocketView};
use crate::socket_queue::SOCKET_QUEUE_CAPACITY;
use crate::text::signed_text;
use crate::thread::CHECK_TIMEOUTS_MILLIS;
use crate::udp::{EventLoop, LoopAction, LoopEvent, Readiness};
use crate::wrappers::{UtpCallbackArgs, UtpErrorCode, UtpEvent, UtpState};
use vstd::prelude::*;

verus! {

/// Whether the same can be written and the same tasks wait to write.
pub open spec fn writing_kept<W, H, D, E>(
    a: ContextView<W, H, D, E>,
    b: ContextView<W, H, D, E>,
) -> bool {
    a.udp_writable == b.udp_writable && a.writers == b.writers
}

/// Whether the same connections wait to be accepted, the same task waits for one, and as many
/// listeners are counted.
pub open spec fn accepting_kept<W, H, D, E>(
    a: ContextView<W, H, D, E>,
    b: ContextView<W, H, D, E>,
) -> bool {
    a.waiting == b.waiting && a.acceptor == b.acceptor && a.listening == b.listening
}

/// Whether the same handles are open.
pub open spec fn sockets_kept<W, H, D, E>(
    a: ContextView<W, H, D, E>,
    b: ContextView<W, H, D, E>,
) -> bool {
    a.sockets == b.sockets
}

/// Whether the same failures are known.
pub open spec fn failures_kept<W, H, D, E>(
    a: ContextView<W, H, D, E>,
    b: ContextView<W, H, D, E>,
) -> bool {
    a.context_err == b.context_err && a.socket_errs == b.socket_errs
}

/// Whether packets of the same peers are discarded, and the same packet size is set.
pub open spec fn settings_kept<W, H, D, E>(
    a: ContextView<W, H, D, E>,
    b: ContextView<W, H, D, E>,
) -> bool {
    a.discarded == b.discarded && a.udp_mtu == b.udp_mtu
}

// Bytes.

/// A read moves as many bytes as there are or as fit, to the front of the buffer and in order, leaves
/// the rest of the buffer alone, and leaves the bytes behind those to be read next.
pub proof fn law_read_moves_the_first_bytes(q: QueueView, buf: Seq<u8>)
    ensures
        q.readable(buf.len()) <= buf.len(),
        q.readable(buf.len()) <= q.bytes().len(),
        q.readable(buf.len()) == buf.len() || q.readable(buf.len()) == q.bytes().len(),
        q.filled(buf).len() == buf.len(),
        forall|i: int|
            0 <= i < q.readable(buf.len()) ==> #[trigger] q.filled(buf)[i] == q.bytes()[i],
        forall|i: int|
            q.readable(buf.len()) <= i < buf.len() ==> #[trigger] q.filled(buf)[i] == buf[i],
        q.after_read(buf.len()).bytes().len() == q.bytes().len() - q.readable(buf.len()),
        forall|i: int|
            0 <= i < q.after_read(buf.len()).bytes().len() ==> #[trigger] q.after_read(
                buf.len(),
            ).bytes()[i] == q.bytes()[i + q.readable(buf.len())],
{
    law_read_leaves_the_rest(q, buf.len());
}

/// Bytes that come in are read behind all that waited, and a new queue has none.
pub proof fn law_received_bytes_come_last(q: QueueView, chunk: Seq<u8>)
    ensures
        q.pushed(chunk).bytes() == q.bytes() + chunk,
        q.pushed(chunk).chunks.len() == q.chunks.len() + 1,
        QueueView::empty().bytes().len() == 0,
        QueueView::empty().chunks.len() == 0,
{
    q.chunks.lemma_flatten_push(chunk);
}

/// How many bytes stand in front of the chunk with an index.
pub open spec fn bytes_before(q: QueueView, k: int) -> nat {
    (match q.front {
        Some(c) => c.len(),
        None => 0,
    }) + q.chunks.take(k).flatten().len()
}

proof fn lemma_chunks_left(front: Option<Seq<u8>>, chunks: Seq<Seq<u8>>, room: nat)
    ensures
        ({
            let q = QueueView { front, chunks };
            let left = left_after(front, chunks, room).1;
            let k = chunks.len() - left.len();
            &&& 0 <= k
            &&& left == chunks.skip(k)
            &&& k > 0 ==> bytes_before(q, k - 1) < room
            &&& left.len() > 0 ==> bytes_before(q, k) >= room
        }),
    decreases chunks.len(), if front is Some { 1nat } else { 0nat },
{
    let q = QueueView { front, chunks };
    if room > 0 {
        match front {
            Some(c) => {
                if c.len() <= room {
                    lemma_chunks_left(None, chunks, (room - c.len()) as nat);
                }
            },
            None => {
                if chunks.len() > 0 {
                    let later = chunks.drop_first();
                    assert forall|j: int| 0 <= j <= later.len() implies bytes_before(q, j + 1)
                        == chunks[0].len() + #[trigger] later.take(j).flatten().len() by {
                        assert(chunks.take(j + 1).drop_first() =~= later.take(j));
                    }
                    if chunks[0].len() <= room {
                        let rest = (room - chunks[0].len()) as nat;
                        lemma_chunks_left(None, later, rest);
                        let j = later.len() - left_after(None, later, rest).1.len();
                        assert(bytes_before(q, j + 1) == chunks[0].len() + later.take(
                            j,
                        ).flatten().len());
                    } else {
                        assert(bytes_before(q, 1) == chunks[0].len() + later.take(
                            0,
                        ).flatten().len());
                    }
                }
            },
        }
    }
}

/// A chunk no longer counts as unread once a read has come to it with room left, and not before.
pub proof fn law_read_chunks_leave_the_count(q: QueueView, room: nat)
    ensures
        ({
            let left = q.after_read(room).chunks;
            let k = q.chunks.len() - left.len();
            &&& 0 <= k
            &&& left == q.chunks.skip(k)
            &&& k > 0 ==> bytes_before(q, k - 1) < room
            &&& left.len() > 0 ==> bytes_before(q, k) >= room
        }),
{
    lemma_chunks_left(q.front, q.chunks, room);
}

/// A poll moves what a read moves. It has the task wait if and only if nothing was moved and the peer
/// has not ended the stream; then its waker is kept, and otherwise the one that was kept stays.
pub proof fn law_poll_answers<W>(r: ReaderView<W>, waker: W, room: nat)
    requires
        room <= usize::MAX,
    ensures
        ({
            let n = if room <= r.data.bytes().len() {
                room
            } else {
                r.data.bytes().len()
            };
            let after = r.polled(waker, room);
            &&& r.poll_result(room) is Pending <==> n == 0 && !r.eof
            &&& r.poll_result(room) matches Poll::Ready(m) ==> m == n
            &&& after.data.bytes() == r.data.bytes().skip(n as int)
            &&& after.data.chunks.len() <= r.data.chunks.len()
            &&& after.eof == r.eof
            &&& n == 0 && !r.eof ==> after.waker == Some(waker)
            &&& n > 0 || r.eof ==> after.waker == r.waker
        }),
{
    law_read_leaves_the_rest(r.data, room);
    lemma_chunks_left(r.data.front, r.data.chunks, room);
}

/// Something that happens to a reader.
pub enum ReaderOp<W> {
    /// Bytes come in.
    Received(Seq<u8>),
    /// A task polls with its waker and a buffer.
    Polled(W, Seq<u8>),
    /// The peer ends the stream.
    Ended,
    /// The task that waits is woken.
    Woken,
}

/// A reader, all bytes that have come in, and all that polls have handed out.
pub struct ReaderRun<W> {
    pub reader: ReaderView<W>,
    pub received: Seq<u8>,
    pub handed_out: Seq<u8>,
}

/// What operations make of a new reader, one after the other. What a poll hands out is the beginning
/// of the buffer as it leaves it, as long as the poll says.
pub open spec fn reader_run<W>(ops: Seq<ReaderOp<W>>) -> ReaderRun<W>
    decreases ops.len(),
{
    if ops.len() == 0 {
        ReaderRun {
            reader: ReaderView::initial(),
            received: Seq::empty(),
            handed_out: Seq::empty(),
        }
    } else {
        let before = reader_run(ops.drop_last());
        match ops.last() {
            ReaderOp::Received(bytes) => ReaderRun {
                reader: before.reader.received(bytes),
                received: before.received + bytes,
                ..before
            },
            ReaderOp::Polled(waker, buf) => ReaderRun {
                reader: before.reader.polled(waker, buf.len()),
                handed_out: match before.reader.poll_result(buf.len()) {
                    Poll::Ready(n) => before.handed_out + before.reader.data.filled(buf).take(
                        n as int,
                    ),
                    Poll::Pending => before.handed_out,
                },
                ..before
            },
            ReaderOp::Ended => ReaderRun { reader: before.reader.ended(), ..before },
            ReaderOp::Woken => ReaderRun { reader: before.reader.woken(), ..before },
        }
    }
}

/// Whatever happens to a reader, in whatever order: the bytes that polls have handed out, followed by
/// those that wait, are the bytes that have come in, and the end of the stream is known if and only
/// if the peer has ended it.
pub proof fn law_reader_keeps_the_stream<W>(ops: Seq<ReaderOp<W>>)
    requires
        forall|i: int|
            0 <= i < ops.len() ==> ((#[trigger] ops[i]) matches ReaderOp::Polled(_, buf)
                ==> buf.len() <= usize::MAX),
    ensures
        reader_run(ops).handed_out + reader_run(ops).reader.data.bytes() == reader_run(ops).received,
        reader_run(ops).reader.eof <==> exists|i: int|
            0 <= i < ops.len() && (#[trigger] ops[i]) is Ended,
    decreases ops.len(),
{
    if ops.len() == 0 {
        law_received_bytes_come_last(QueueView::empty(), Seq::empty());
    } else {
        let earlier = ops.drop_last();
        assert forall|i: int| 0 <= i < earlier.len() implies #[trigger] earlier[i] == ops[i] by {}
        law_reader_keeps_the_stream(earlier);
        let before = reader_run(earlier).reader;
        assert((exists|i: int| 0 <= i < ops.len() && (#[trigger] ops[i]) is Ended) <==> (exists|
            i: int,
        | 0 <= i < earlier.len() && (#[trigger] earlier[i]) is Ended) || ops.last() is Ended) by {
            if exists|i: int| 0 <= i < ops.len() && (#[trigger] ops[i]) is Ended {
                let i = choose|i: int| 0 <= i < ops.len() && (#[trigger] ops[i]) is Ended;
                if i < earlier.len() {
                    assert(earlier[i] is Ended);
                }
            }
        }
        match ops.last() {
            ReaderOp::Received(bytes) => {
                law_received_bytes_come_last(before.data, bytes);
            },
            ReaderOp::Polled(waker, buf) => {
                law_poll_answers(before, waker, buf.len());
                law_read_moves_the_first_bytes(before.data, buf);
                assert(reader_run(ops).handed_out + reader_run(ops).reader.data.bytes()
                    =~= reader_run(earlier).handed_out + before.data.bytes());
            },
            _ => {},
        }
    }
}

/// Two polls, with nothing between them, hand out what one with a buffer as large as both would.
pub proof fn law_polls_go_on_where_the_last_one_ended<W>(
    r: ReaderView<W>,
    waker: W,
    first: nat,
    second: nat,
)
    requires
        first + second <= usize::MAX,
    ensures
        r.polled(waker, first).polled(waker, second).data.bytes() == r.polled(
            waker,
            first + second,
        ).data.bytes(),
        first + second <= r.data.bytes().len() && first > 0 && second > 0 ==> r.poll_result(first)
            == Poll::Ready(first as usize) && r.polled(waker, first).poll_result(second)
            == Poll::Ready(second as usize),
{
    law_poll_answers(r, waker, first);
    law_poll_answers(r.polled(waker, first), waker, second);
    law_poll_answers(r, waker, first + second);
}

/// Once the peer has ended the stream it stays ended, whether or not a task waited. What waits can
/// still be read, and a poll when nothing is left is answered with zero at once.
pub proof fn law_end_of_stream_is_seen<W>(
    r: ReaderView<W>,
    waker: W,
    room: nat,
    bytes: Seq<u8>,
)
    requires
        room <= usize::MAX,
    ensures
        r.ended().eof,
        r.ended().data == r.data,
        r.ended().waker == r.waker,
        r.ended().poll_result(room) is Ready,
        r.data.bytes().len() == 0 ==> r.ended().poll_result(room) == Poll::Ready(0usize),
        r.ended().polled(waker, room).eof,
        r.ended().received(bytes).eof,
        r.ended().woken().eof,
{
    law_poll_answers(r.ended(), waker, room);
}

/// Bytes that come end the wait of the task, are read behind those that wait, and do not end the
/// stream. Waking ends the wait alone. A new reader has nothing, and no task waits on it.
pub proof fn law_reader_takes_bytes_in<W>(r: ReaderView<W>, bytes: Seq<u8>)
    ensures
        r.received(bytes).data.bytes() == r.data.bytes() + bytes,
        r.received(bytes).data.chunks.len() == r.data.chunks.len() + 1,
        r.received(bytes).waker is None,
        r.received(bytes).eof == r.eof,
        r.woken().data == r.data,
        r.woken().waker is None,
        r.woken().eof == r.eof,
        ReaderView::<W>::initial().data.bytes().len() == 0,
        ReaderView::<W>::initial().data.chunks.len() == 0,
        ReaderView::<W>::initial().waker is None,
        !ReaderView::<W>::initial().eof,
{
    law_received_bytes_come_last(r.data, bytes);
}

// Connections.

/// Something that happens to a connector.
pub enum ConnectorOp<W> {
    /// A task polls.
    Polled(W),
    /// libutp reports that the connection stands.
    Stood,
    /// The task that waits is woken.
    Woken,
}

/// What operations make of a new connector, one after the other.
pub open spec fn connector_run<W>(ops: Seq<ConnectorOp<W>>) -> UtpConnector<W>
    decreases ops.len(),
{
    if ops.len() == 0 {
        UtpConnector::initial()
    } else {
        let before = connector_run(ops.drop_last());
        match ops.last() {
            ConnectorOp::Polled(waker) => before.polled(waker),
            ConnectorOp::Stood => before.stood(),
            ConnectorOp::Woken => before.woken(),
        }
    }
}

/// Whatever happens, and whether or not a task waits then: a connection is known to stand if and only
/// if libutp has reported so. A task that polled last waits if and only if it did not.
pub proof fn law_connection_stands_once_reported<W>(ops: Seq<ConnectorOp<W>>)
    ensures
        connector_run(ops).connected <==> exists|i: int|
            0 <= i < ops.len() && (#[trigger] ops[i]) is Stood,
        connector_run(ops).connected ==> connector_run(ops).waker is None,
        ops.len() > 0 && !connector_run(ops).connected ==> (ops.last() matches ConnectorOp::Polled(
            waker,
        ) ==> connector_run(ops).waker == Some(waker)),
        ops.len() == 0 || ops.last() is Woken ==> connector_run(ops).waker is None,
    decreases ops.len(),
{
    if ops.len() > 0 {
        let earlier = ops.drop_last();
        law_connection_stands_once_reported(earlier);
        if exists|i: int| 0 <= i < ops.len() && (#[trigger] ops[i]) is Stood {
            let i = choose|i: int| 0 <= i < ops.len() && (#[trigger] ops[i]) is Stood;
            if i < earlier.len() {
                assert(earlier[i] is Stood);
            }
        }
    }
}

/// In every state: once the connection is reported to stand it does, and no task waits; a poll does
/// not change that, and before it makes the task wait; waking ends the wait alone.
pub proof fn law_connector_steps<W>(c: UtpConnector<W>, waker: W)
    ensures
        c.stood().connected,
        c.stood().waker is None,
        c.stood().polled(waker).connected,
        c.polled(waker).connected == c.connected,
        !c.connected ==> c.polled(waker).waker == Some(waker),
        c.connected ==> c.polled(waker).waker == c.waker,
        c.woken().connected == c.connected,
        c.woken().waker is None,
        !UtpConnector::<W>::initial().connected,
        UtpConnector::<W>::initial().waker is None,
{
}

// Sockets.

/// A new socket has its peer's address, nothing to read and no task that waits. One that this side
/// opens has a connection that does not stand yet; one that the peer has opened waits for none.
pub proof fn law_new_socket<W>(addr: SocketAddr, connector: Option<UtpConnector<W>>)
    ensures
        SocketView::<W>::initial(addr, connector).addr == addr,
        SocketView::<W>::initial(addr, connector).connector == connector,
        SocketView::<W>::initial(addr, connector).reader.data.bytes().len() == 0,
        SocketView::<W>::initial(addr, connector).reader.data.chunks.len() == 0,
        SocketView::<W>::initial(addr, connector).reader.waker is None,
        !SocketView::<W>::initial(addr, connector).reader.eof,
        SocketView::<W>::opened_here(addr).addr == addr,
        SocketView::<W>::opened_here(addr).connector is Some,
        !SocketView::<W>::opened_here(addr).connector->0.connected,
        SocketView::<W>::opened_here(addr).connecting() is None,
        SocketView::<W>::opened_here(addr).reader == SocketView::<W>::initial(
            addr,
            connector,
        ).reader,
        SocketView::<W>::opened_by_peer(addr).addr == addr,
        SocketView::<W>::opened_by_peer(addr).connector is None,
        SocketView::<W>::opened_by_peer(addr).connecting() is None,
        SocketView::<W>::opened_by_peer(addr).reader == SocketView::<W>::initial(
            addr,
            connector,
        ).reader,
{
    law_received_bytes_come_last(QueueView::empty(), Seq::empty());
}

/// The task that waits for a socket's connection is the one that its connector keeps.
pub proof fn law_connecting_task<W>(s: SocketView<W>)
    ensures
        s.connector is None ==> s.connecting() is None,
        s.connector matches Some(c) ==> s.connecting() == c.waker,
{
}

/// Bytes that come reach the reader and nothing else.
pub proof fn law_socket_receives<W>(s: SocketView<W>, bytes: Seq<u8>)
    ensures
        s.received(bytes).reader.data.bytes() == s.reader.data.bytes() + bytes,
        s.received(bytes).reader.data.chunks.len() == s.reader.data.chunks.len() + 1,
        s.received(bytes).reader.waker is None,
        s.received(bytes).reader.eof == s.reader.eof,
        s.received(bytes).addr == s.addr,
        s.received(bytes).connector == s.connector,
{
    law_received_bytes_come_last(s.reader.data, bytes);
}

/// On a socket that has failed no task waits any more. Its bytes, its end of stream, its address and
/// whether its connection stands are as they were.
pub proof fn law_failed_socket_lets_go<W>(s: SocketView<W>)
    ensures
        s.failed().reader.waker is None,
        s.failed().connecting() is None,
        s.failed().reader.data == s.reader.data,
        s.failed().reader.eof == s.reader.eof,
        s.failed().addr == s.addr,
        s.failed().connector is Some == s.connector is Some,
        s.connector matches Some(c) ==> s.failed().connector->0.connected == c.connected,
{
}

/// In every state of a socket, whoever waits: once it has entered the state of a standing connection,
/// a connection that this side opened stands; once it has entered the end of the stream, its reader
/// knows of it, and a poll when no bytes wait is answered with zero. No state touches the bytes or
/// the address, and the states that ask for nothing change nothing.
pub proof fn law_entered_states_take_effect<W>(s: SocketView<W>, state: UtpState, room: nat)
    requires
        room <= usize::MAX,
    ensures
        s.entered(state).addr == s.addr,
        s.entered(state).reader.data == s.reader.data,
        s.entered(state).reader.waker == s.reader.waker,
        s.entered(state).connector is Some == s.connector is Some,
        state == UtpState::UtpStateConnect && s.connector is Some ==> s.entered(
            state,
        ).connector->0.connected && s.entered(state).connecting() is None,
        state != UtpState::UtpStateConnect ==> s.entered(state).connector == s.connector,
        state == UtpState::UtpStateEOF ==> s.entered(state).reader.eof,
        state == UtpState::UtpStateEOF && s.reader.data.bytes().len() == 0 ==> s.entered(
            state,
        ).reader.poll_result(room) == Poll::Ready(0usize),
        state != UtpState::UtpStateEOF ==> s.entered(state).reader.eof == s.reader.eof,
{
}

/// Where attaching hands the data back as it is, what is kept is data that holds what was asked for,
/// and attaching that never refuses can be used with any socket.
pub proof fn law_attached_data_is_what_was_asked_for<W, H, F: FnOnce(&H, SocketData<W>) -> SocketData<
    W,
>>(attach: F, socket: H, view: SocketView<W>, data: SocketData<W>)
    requires
        attached(attach, socket, view, data),
        forall|d: SocketData<W>, r: SocketData<W>| #[trigger]
            call_ensures(attach, (&socket, d), r) ==> r == d,
    ensures
        data@ == view,
{
}

/// What is kept came of attaching, to this socket, data that holds what was asked for.
pub proof fn law_attached_handle_came_of_attaching<W, H, D, F: FnOnce(&H, SocketData<W>) -> D>(
    attach: F,
    socket: H,
    view: SocketView<W>,
    data: D,
)
    ensures
        attached(attach, socket, view, data) <==> !(forall|d: SocketData<W>|
            #[trigger] call_ensures(attach, (&socket, d), data) ==> d@ != view),
        (forall|d: SocketData<W>| #[trigger] call_requires(attach, (&socket, d))) ==> attachable(
            attach,
            socket,
            view,
        ),
{
}

// Contexts.

/// A new context can write, refuses connections, and holds nothing: no task waits, no connection, no
/// handle, no failure, no peer is discarded, and no packet size is set.
pub proof fn law_new_context<W, H, D, E>(addr: SocketAddr)
    ensures
        ({
            let v = ContextView::<W, H, D, E>::initial();
            &&& v.udp_writable
            &&& v.writer(addr) is None
            &&& v.waiting.len() == 0
            &&& v.acceptor is None
            &&& v.handle(addr) is None
            &&& v.err_for(addr) is None
            &&& v.context_err is None
            &&& !v.socket_errs.contains_key(addr)
            &&& !v.discarded.contains(addr)
            &&& v.listening == 0
            &&& v.refuses()
            &&& v.udp_mtu is None
        }),
{
}

/// What is seen of a context and of its parts is what they hold.
pub proof fn law_views_show_what_is_held<W, H, D, E>(
    ctx: UtpContext<W, H, D, E>,
    reader: UtpReader<W>,
    socket: SocketData<W>,
)
    ensures
        ctx@.udp_writable == ctx.writer.udp_writable,
        ctx@.writers == ctx.writer.wakers@,
        ctx@.waiting == ctx.socket_queue@,
        ctx@.acceptor == ctx.socket_queue.waiting(),
        ctx@.sockets == ctx.sockets@,
        ctx@.context_err == ctx.error_channel.context,
        ctx@.socket_errs == ctx.error_channel.sockets@,
        ctx@.discarded == ctx.discard_addrs@,
        ctx@.listening == ctx.listening,
        ctx@.udp_mtu == ctx.udp_mtu,
        reader@.data == reader.data@,
        reader@.waker == reader.waker,
        reader@.eof == reader.eof,
        socket@.reader == socket.reader@,
        socket@.addr == socket.addr,
        socket@.connector == socket.connector,
{
}

/// What is found under an address: the handle, the waiting writer, and of the failures that of the
/// socket before that of the context.
pub proof fn law_what_is_found<W, H, D, E>(v: ContextView<W, H, D, E>, addr: SocketAddr)
    ensures
        v.sockets.contains_key(addr) ==> v.handle(addr) == Some(v.sockets[addr]),
        !v.sockets.contains_key(addr) ==> v.handle(addr) is None,
        v.writers.contains_key(addr) ==> v.writer(addr) == Some(v.writers[addr]),
        !v.writers.contains_key(addr) ==> v.writer(addr) is None,
        v.socket_errs.contains_key(addr) ==> v.err_for(addr) == Some(v.socket_errs[addr]),
        !v.socket_errs.contains_key(addr) ==> v.err_for(addr) == v.context_err,
        v.refuses() <==> v.listening == 0,
        v.is_full() <==> v.waiting.len() >= 1000,
{
}

/// A listener that comes or goes changes the count by one, and nothing else.
pub proof fn law_listeners_change_the_count_alone<W, H, D, E>(v: ContextView<W, H, D, E>)
    ensures
        v.listened().listening == (v.listening + 1) % 256,
        v.unlistened().listening == (v.listening + 255) % 256,
        v.listened().waiting == v.waiting,
        v.listened().acceptor == v.acceptor,
        v.unlistened().waiting == v.waiting,
        v.unlistened().acceptor == v.acceptor,
        writing_kept(v.listened(), v),
        sockets_kept(v.listened(), v),
        failures_kept(v.listened(), v),
        settings_kept(v.listened(), v),
        writing_kept(v.unlistened(), v),
        sockets_kept(v.unlistened(), v),
        failures_kept(v.unlistened(), v),
        settings_kept(v.unlistened(), v),
{
}

/// A handle is entered and taken out under its own address, whatever waits, and all else stays.
pub proof fn law_handles_are_kept_by_address<W, H, D, E>(
    v: ContextView<W, H, D, E>,
    addr: SocketAddr,
    socket: H,
    at: SocketAddr,
)
    ensures
        v.with_socket(addr, socket).handle(at) == (if at == addr {
            Some(socket)
        } else {
            v.handle(at)
        }),
        v.without_socket(addr).handle(at) == (if at == addr {
            None
        } else {
            v.handle(at)
        }),
        writing_kept(v.with_socket(addr, socket), v),
        accepting_kept(v.with_socket(addr, socket), v),
        failures_kept(v.with_socket(addr, socket), v),
        settings_kept(v.with_socket(addr, socket), v),
        writing_kept(v.without_socket(addr), v),
        accepting_kept(v.without_socket(addr), v),
        failures_kept(v.without_socket(addr), v),
        settings_kept(v.without_socket(addr), v),
{
}

/// A failure that is noted is what the next check gives out, in place of an earlier one of the same
/// kind, and all else stays.
pub proof fn law_noted_failures_are_found<W, H, D, E>(
    v: ContextView<W, H, D, E>,
    addr: SocketAddr,
    e: Error<E>,
    at: SocketAddr,
)
    ensures
        v.with_socket_err(addr, e).err_for(addr) == Some(e),
        at != addr ==> v.with_socket_err(addr, e).err_for(at) == v.err_for(at),
        v.with_socket_err(addr, e).context_err == v.context_err,
        v.with_socket_err(addr, e).socket_errs.contains_key(at) == (at == addr
            || v.socket_errs.contains_key(at)),
        v.with_context_err(e).context_err == Some(e),
        v.with_context_err(e).socket_errs == v.socket_errs,
        writing_kept(v.with_socket_err(addr, e), v),
        accepting_kept(v.with_socket_err(addr, e), v),
        sockets_kept(v.with_socket_err(addr, e), v),
        settings_kept(v.with_socket_err(addr, e), v),
        writing_kept(v.with_context_err(e), v),
        accepting_kept(v.with_context_err(e), v),
        sockets_kept(v.with_context_err(e), v),
        settings_kept(v.with_context_err(e), v),
{
}

/// A check takes out the failure that it gives out and no other, so that the third in a row finds
/// none, and changes nothing else.
pub proof fn law_checks_take_out_one_failure<W, H, D, E>(
    v: ContextView<W, H, D, E>,
    addr: SocketAddr,
    at: SocketAddr,
)
    ensures
        v.socket_errs.contains_key(addr) ==> v.after_check(addr).err_for(addr) == v.context_err
            && v.after_check(addr).context_err == v.context_err,
        !v.socket_errs.contains_key(addr) ==> v.after_check(addr).err_for(addr) is None
            && v.after_check(addr).context_err is None,
        v.after_check(addr).after_check(addr).err_for(addr) is None,
        at != addr ==> v.after_check(addr).socket_errs.contains_key(at)
            == v.socket_errs.contains_key(at),
        at != addr && v.socket_errs.contains_key(at) ==> v.after_check(addr).err_for(at)
            == v.err_for(at),
        !v.after_check(addr).socket_errs.contains_key(addr),
        v.err_for(addr) is None ==> v.after_check(addr).context_err is None && v.after_check(
            addr,
        ).socket_errs == v.socket_errs,
        writing_kept(v.after_check(addr), v),
        accepting_kept(v.after_check(addr), v),
        sockets_kept(v.after_check(addr), v),
        settings_kept(v.after_check(addr), v),
{
}

/// Once a peer has opened a connection for which there is room, whatever tasks wait: its handle is
/// the one under its address, it waits behind all that waited, the task that waited for one does so
/// no longer, and all else stays.
pub proof fn law_opened_connection_is_entered<W, H, D, E>(
    v: ContextView<W, H, D, E>,
    addr: SocketAddr,
    socket: H,
    data: D,
    at: SocketAddr,
)
    requires
        v.waiting.len() < 1000,
    ensures
        ({
            let after = v.after_accept(addr, socket, data);
            &&& after.handle(addr) == Some(socket)
            &&& at != addr ==> after.handle(at) == v.handle(at)
            &&& after.waiting.len() == v.waiting.len() + 1
            &&& after.waiting.drop_last() == v.waiting
            &&& after.waiting.last().addr == addr
            &&& after.waiting.last().data == data
            &&& after.acceptor is None
            &&& after.listening == v.listening
            &&& writing_kept(after, v)
            &&& failures_kept(after, v)
            &&& settings_kept(after, v)
        }),
{
}

/// Once a peer has opened a connection for which there is no room: nothing is under its address,
/// those that wait are those that waited, and all else stays.
pub proof fn law_connection_without_room_is_not_entered<W, H, D, E>(
    v: ContextView<W, H, D, E>,
    addr: SocketAddr,
    socket: H,
    data: D,
    at: SocketAddr,
)
    requires
        v.waiting.len() >= 1000,
    ensures
        ({
            let after = v.after_accept(addr, socket, data);
            &&& after.handle(addr) is None
            &&& at != addr ==> after.handle(at) == v.handle(at)
            &&& after.waiting == v.waiting
            &&& after.acceptor is None
            &&& after.listening == v.listening
            &&& writing_kept(after, v)
            &&& failures_kept(after, v)
            &&& settings_kept(after, v)
        }),
{
}

/// A connection that is opened while no other waits is the next one to be accepted, and its handle
/// then still stands under its address, so that a write goes to it.
pub proof fn law_accepted_connection_can_be_written<W, H, D, E>(
    v: ContextView<W, H, D, E>,
    addr: SocketAddr,
    socket: H,
    data: D,
    waker: W,
)
    requires
        v.waiting.len() == 0,
    ensures
        v.after_accept(addr, socket, data).waiting[0] == (QueuedUtpSocket { addr, data }),
        v.after_accept(addr, socket, data).after_poll_next(waker).waiting.len() == 0,
        v.after_accept(addr, socket, data).after_poll_next(waker).handle(addr) == Some(socket),
        v.after_accept(addr, socket, data).after_poll_next(waker).err_for(addr) == v.err_for(addr),
        v.after_accept(addr, socket, data).after_poll_next(waker).udp_writable == v.udp_writable,
{
}

/// A poll for a connection takes out the one that waited longest or, where none waits, has the task
/// wait, and changes nothing else.
pub proof fn law_accepting_takes_the_first<W, H, D, E>(v: ContextView<W, H, D, E>, waker: W)
    ensures
        ({
            let after = v.after_poll_next(waker);
            &&& v.waiting.len() > 0 ==> seq![v.waiting[0]] + after.waiting == v.waiting
                && after.acceptor == v.acceptor
            &&& v.waiting.len() == 0 ==> after.waiting == v.waiting && after.acceptor == Some(waker)
            &&& after.listening == v.listening
            &&& writing_kept(after, v)
            &&& sockets_kept(after, v)
            &&& failures_kept(after, v)
            &&& settings_kept(after, v)
        }),
{
}

/// Once bytes have come, their peer is discarded if and only if more than 2097152 chunks wait, other
/// peers are as before, and all else stays.
pub proof fn law_received_bytes_decide_on_discarding<W, H, D, E>(
    v: ContextView<W, H, D, E>,
    addr: SocketAddr,
    chunks: nat,
    at: SocketAddr,
)
    ensures
        v.after_read(addr, chunks).discarded.contains(addr) <==> chunks > 2097152,
        at != addr ==> v.after_read(addr, chunks).discarded.contains(at) == v.discarded.contains(
            at,
        ),
        v.after_read(addr, chunks).udp_mtu == v.udp_mtu,
        writing_kept(v.after_read(addr, chunks), v),
        accepting_kept(v.after_read(addr, chunks), v),
        sockets_kept(v.after_read(addr, chunks), v),
        failures_kept(v.after_read(addr, chunks), v),
{
}

/// Once a socket has failed, its next check gives out an error of that kind, no task waits to write or
/// to accept, other sockets' failures are as before, and all else stays: handles, waiting
/// connections, and whether the UDP socket takes packets.
pub proof fn law_failure_lets_all_go<W, H, D, E>(
    v: ContextView<W, H, D, E>,
    addr: SocketAddr,
    kind: ErrorKind,
    at: SocketAddr,
)
    ensures
        ({
            let after = v.after_error(addr, kind);
            &&& after.err_for(addr) == Some(Error::<E>::Socket(kind))
            &&& at != addr ==> after.err_for(at) == v.err_for(at)
            &&& after.context_err == v.context_err
            &&& after.writer(at) is None
            &&& after.acceptor is None
            &&& after.udp_writable == v.udp_writable
            &&& after.waiting == v.waiting
            &&& after.listening == v.listening
            &&& sockets_kept(after, v)
            &&& settings_kept(after, v)
        }),
{
}

/// Once the UDP socket takes packets, it is known to do so whoever waited, no task waits to write, and
/// all else stays. A socket without a failure then has its handle to write to.
pub proof fn law_write_ready_unblocks_writing<W, H, D, E>(
    v: ContextView<W, H, D, E>,
    addr: SocketAddr,
)
    ensures
        ({
            let after = v.after_write_ready();
            &&& after.udp_writable
            &&& after.writer(addr) is None
            &&& after.handle(addr) == v.handle(addr)
            &&& after.err_for(addr) == v.err_for(addr)
            &&& accepting_kept(after, v)
            &&& sockets_kept(after, v)
            &&& failures_kept(after, v)
            &&& settings_kept(after, v)
        }),
{
}

/// A task that comes to wait, or no longer does, under an address is the only one that changes, and
/// all else stays, whether the UDP socket takes packets included.
pub proof fn law_writers_are_kept_by_address<W, H, D, E>(
    v: ContextView<W, H, D, E>,
    addr: SocketAddr,
    waker: W,
    at: SocketAddr,
)
    ensures
        v.with_writer(addr, waker).writer(at) == (if at == addr {
            Some(waker)
        } else {
            v.writer(at)
        }),
        v.without_writer(addr).writer(at) == (if at == addr {
            None
        } else {
            v.writer(at)
        }),
        v.with_writer(addr, waker).udp_writable == v.udp_writable,
        v.without_writer(addr).udp_writable == v.udp_writable,
        accepting_kept(v.with_writer(addr, waker), v),
        sockets_kept(v.with_writer(addr, waker), v),
        failures_kept(v.with_writer(addr, waker), v),
        settings_kept(v.with_writer(addr, waker), v),
        accepting_kept(v.without_writer(addr), v),
        sockets_kept(v.without_writer(addr), v),
        failures_kept(v.without_writer(addr), v),
        settings_kept(v.without_writer(addr), v),
{
}

/// The wakers listed are those of all who wait, and of no one else: as many as wait, the waker of each
/// among them, and none that is not one of theirs.
pub proof fn law_all_who_wait_are_listed<V>(values: Seq<V>, map: Map<SocketAddr, V>)
    requires
        lists_values(values, map),
    ensures
        map.dom().finite(),
        values.len() == map.dom().len(),
        forall|addr: SocketAddr| #[trigger] map.contains_key(addr) ==> values.contains(map[addr]),
        forall|v: V| #[trigger]
            values.contains(v) ==> exists|addr: SocketAddr| #[trigger]
                map.contains_key(addr) && map[addr] == v,
{
    let keys = choose|keys: Seq<SocketAddr>| #[trigger]
        lists_keys(keys, map.dom()) && values == keys.map_values(|k: SocketAddr| map[k]);
    keys.unique_seq_to_set();
    assert(keys.to_set() =~= map.dom());
    assert forall|addr: SocketAddr| #[trigger] map.contains_key(addr) implies values.contains(
        map[addr],
    ) by {
        assert(values[keys.index_of(addr)] == map[addr]);
    }
    assert forall|v: V| #[trigger] values.contains(v) implies exists|addr: SocketAddr| #[trigger]
        map.contains_key(addr) && map[addr] == v by {
        let i = values.index_of(v);
        assert(keys.contains(keys[i]));
    }
}

/// How many tasks wait in a place for one.
pub open spec fn how_many<W>(waker: Option<W>) -> nat {
    if waker is Some {
        1
    } else {
        0
    }
}

/// When a socket fails, as many tasks are woken as wait to write, to read from it, to accept and for
/// its connection, each of these is among them, and no other is.
pub proof fn law_failure_wakes_all_who_wait<W, H, D, E>(
    woken: Seq<W>,
    v: ContextView<W, H, D, E>,
    socket: SocketView<W>,
)
    requires
        wakes_on_error(woken, v, socket),
    ensures
        woken.len() == v.writers.dom().len() + how_many(socket.reader.waker) + how_many(v.acceptor)
            + how_many(socket.connecting()),
        forall|addr: SocketAddr| #[trigger]
            v.writers.contains_key(addr) ==> woken.contains(v.writers[addr]),
        socket.reader.waker matches Some(w) ==> woken.contains(w),
        v.acceptor matches Some(w) ==> woken.contains(w),
        socket.connecting() matches Some(w) ==> woken.contains(w),
        forall|w: W| #[trigger]
            woken.contains(w) ==> socket.reader.waker == Some(w) || v.acceptor == Some(w)
                || socket.connecting() == Some(w) || exists|addr: SocketAddr| #[trigger]
                v.writers.contains_key(addr) && v.writers[addr] == w,
{
    let writers = choose|writers: Seq<W>| #[trigger]
        lists_values(writers, v.writers) && woken == writers + one_or_none(socket.reader.waker)
            + one_or_none(v.acceptor) + one_or_none(socket.connecting());
    law_all_who_wait_are_listed(writers, v.writers);
    crate::laws::lemma_woken_on_error(woken, v, socket);
    assert forall|w: W| #[trigger] woken.contains(w) implies socket.reader.waker == Some(w)
        || v.acceptor == Some(w) || socket.connecting() == Some(w) || exists|addr: SocketAddr|
        #[trigger] v.writers.contains_key(addr) && v.writers[addr] == w by {
        let i = woken.index_of(w);
        if i < writers.len() {
            assert(writers.contains(w));
        }
    }
}

// The event loop.

/// Polling adds to what is known of the socket what any event says, and takes nothing away. The next
/// step is to read what can be read, else to write what can be written, else a new round.
pub proof fn law_polls_add_readiness<E>(l: EventLoop, stop: bool, events: Vec<Readiness>)
    ensures
        ({
            let (after, next) = l.step::<E>(stop, LoopEvent::Polled(events));
            &&& after.read_ready <==> !(!l.read_ready && forall|j: int|
                0 <= j < events@.len() ==> !(#[trigger] events@[j]).readable)
            &&& after.send_ready <==> !(!l.send_ready && forall|j: int|
                0 <= j < events@.len() ==> !(#[trigger] events@[j]).writable)
            &&& after.read_ready ==> next == LoopAction::<E>::Read
            &&& !after.read_ready && after.send_ready ==> next == LoopAction::<E>::Write
            &&& !after.read_ready && !after.send_ready ==> next == LoopAction::<E>::Round
        }),
{
}

/// What the other events change: a read, whether there is more to be read; a write, that nothing is
/// left to be written; the others nothing. What each leads to.
pub proof fn law_loop_steps<E>(l: EventLoop, stop: bool, emptied: bool, e: E)
    ensures
        l.step::<E>(stop, LoopEvent::Round).0 == l,
        stop ==> l.step::<E>(stop, LoopEvent::Round).1 == LoopAction::<E>::End,
        !stop ==> l.step::<E>(stop, LoopEvent::Round).1 == LoopAction::<E>::Poll,
        l.step::<E>(stop, LoopEvent::Read(emptied)).0.read_ready == !emptied,
        l.step::<E>(stop, LoopEvent::Read(emptied)).0.send_ready == l.send_ready,
        l.send_ready ==> l.step::<E>(stop, LoopEvent::Read(emptied)).1 == LoopAction::<E>::Write,
        !l.send_ready ==> l.step::<E>(stop, LoopEvent::Read(emptied)).1 == LoopAction::<E>::Round,
        l.step::<E>(stop, LoopEvent::Written).0.read_ready == l.read_ready,
        !l.step::<E>(stop, LoopEvent::Written).0.send_ready,
        l.step::<E>(stop, LoopEvent::Written).1 == LoopAction::<E>::Round,
        l.step::<E>(stop, LoopEvent::PollFailed(e)).0 == l,
        l.step::<E>(stop, LoopEvent::Reported).0 == l,
        l.read_ready ==> l.step::<E>(stop, LoopEvent::Reported).1 == LoopAction::<E>::Read,
        !l.read_ready && l.send_ready ==> l.step::<E>(stop, LoopEvent::Reported).1
            == LoopAction::<E>::Write,
        !l.read_ready && !l.send_ready ==> l.step::<E>(stop, LoopEvent::Reported).1
            == LoopAction::<E>::Round,
{
}

// libutp's interface.

/// The numbers are those of libutp's header.
pub proof fn law_numbers_are_those_of_libutp(val: i32)
    ensures
        UtpEvent::OnFirewall.spec_number() == 0,
        UtpEvent::OnAccept.spec_number() == 1,
        UtpEvent::OnError.spec_number() == 3,
        UtpEvent::OnRead.spec_number() == 4,
        UtpEvent::OnStateChange.spec_number() == 6,
        UtpEvent::GetUdpMTU.spec_number() == 9,
        UtpEvent::Log.spec_number() == 14,
        UtpEvent::SendTo.spec_number() == 15,
        val == 1 <==> UtpState::of_number(val) == UtpState::UtpStateConnect,
        val == 2 <==> UtpState::of_number(val) == UtpState::UtpStateWritable,
        val == 3 <==> UtpState::of_number(val) == UtpState::UtpStateEOF,
        val == 4 <==> UtpState::of_number(val) == UtpState::UtpStateDestroying,
        val < 1 || val > 4 <==> UtpState::of_number(val) == UtpState::UtpInvalid,
        UtpState::of_number(val).spec_number() == val <==> 1 <= val <= 5,
        val == 0 <==> UtpErrorCode::of_number(val) == UtpErrorCode::UtpConnRefused,
        val == 1 <==> UtpErrorCode::of_number(val) == UtpErrorCode::UtpConnReset,
        val == 2 <==> UtpErrorCode::of_number(val) == UtpErrorCode::UtpETimedOut,
        val < 0 || val > 2 <==> UtpErrorCode::of_number(val) == UtpErrorCode::Invalid,
        UtpErrorCode::of_number(val).spec_number() == val <==> 0 <= val <= 3,
{
}

/// A callback is acted on if and only if libutp has handed over what its event needs: the bytes and
/// the socket that they came on, the packet and where it is to go, the new socket and its peer, the
/// socket that has failed, or the socket whose connection, room to write or end of stream is
/// reported. The other events need nothing.
pub proof fn law_callbacks_need_their_arguments(
    buf: Option<&[u8]>,
    address: Option<SocketAddr>,
    first: i32,
    second: i32,
    socket: bool,
)
    ensures
        ({
            let args = UtpCallbackArgs { buf, address, first, second };
            &&& args.spec_is_complete(UtpEvent::OnRead, socket) <==> socket && buf is Some
            &&& args.spec_is_complete(UtpEvent::SendTo, socket) <==> address is Some && buf is Some
            &&& args.spec_is_complete(UtpEvent::OnAccept, socket) <==> socket && address is Some
            &&& args.spec_is_complete(UtpEvent::OnError, socket) <==> socket
            &&& args.spec_is_complete(UtpEvent::OnStateChange, socket) <==> socket || first < 1
                || first > 3
            &&& args.spec_is_complete(UtpEvent::Log, socket)
            &&& args.spec_is_complete(UtpEvent::OnFirewall, socket)
            &&& args.spec_is_complete(UtpEvent::GetUdpMTU, socket)
        }),
{
}

/// Failures that libutp reports keep their meaning on the way to a task: different codes become
/// different kinds, and each the kind of its name.
pub proof fn law_failures_keep_their_kind(a: UtpErrorCode, b: UtpErrorCode)
    ensures
        a.spec_kind() == b.spec_kind() ==> a == b,
        a == UtpErrorCode::UtpConnRefused ==> a.spec_kind() == ErrorKind::ConnectionRefused,
        a == UtpErrorCode::UtpConnReset ==> a.spec_kind() == ErrorKind::ConnectionReset,
        a == UtpErrorCode::UtpETimedOut ==> a.spec_kind() == ErrorKind::TimedOut,
        a == UtpErrorCode::Invalid ==> a.spec_kind() == ErrorKind::Other,
{
}

/// An error has the kind that it was made with, and that of the operating system none of the library's.
/// The two that have a message of their own are of the kind that stands for all others.
pub proof fn law_errors_have_kind_and_message<E>(kind: ErrorKind, code: i32, e: E)
    ensures
        Error::<E>::Socket(kind).spec_kind() == Some(kind),
        Error::<E>::Connect.spec_kind() == Some(ErrorKind::Other),
        Error::<E>::Lookup(code).spec_kind() == Some(ErrorKind::Other),
        Error::Os(e).spec_kind() is None,
        Error::<E>::Socket(kind).spec_message() is None,
        Error::Os(e).spec_message() is None,
        Error::<E>::Connect.spec_message() == Some("utp_connect returned non-zero error code"@),
        Error::<E>::Lookup(code).spec_message() is Some,
        Error::<E>::Lookup(code).spec_message()->0
            == "Failed to look up address information: getaddrinfo error code = "@ + signed_text(
            code as int,
        ),
{
}

/// The bytes that are logged are those before a zero that ends them, where they hold none themselves.
pub proof fn law_c_strings_end_in_their_only_zero(message: Seq<u8>, bytes: Seq<u8>)
    ensures
        is_c_string(message.push(0)) <==> !message.contains(0),
        is_c_string(bytes) ==> bytes == bytes.drop_last().push(0) && !bytes.drop_last().contains(0),
        bytes.len() == 0 ==> !is_c_string(bytes),
{
    let text = message.push(0);
    if message.contains(0) {
        let i = message.index_of(0);
        assert(text[i] == 0);
    }
}

/// How much room there is, and how long the library waits.
pub proof fn law_limits()
    ensures
        SOCKET_QUEUE_CAPACITY == 1000,
        SOCKET_READ_BUFFER_SIZE == 2097152,
        CHECK_TIMEOUTS_MILLIS == 500,
{
}

} // verus!
