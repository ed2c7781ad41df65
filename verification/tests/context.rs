use libutp_rs::wrappers::{UtpErrorCode, UtpEvent, UtpState};
use libutp_rs::{
    bound_events, on_log, AddrMap, AddrSet, Connect, Error, ErrorChannel, ErrorKind, Poll,
    QueuedUtpSocket, RecvAction, RecvEvent, SendEvent, SendProgress, SocketAddr, SocketData,
    UtpConnector, UtpContext, UtpSocket, UtpSocketQueue, UtpWriter, SOCKET_QUEUE_CAPACITY,
    SOCKET_READ_BUFFER_SIZE,
};

type Context = UtpContext<u32, &'static str, u64, i32>;

fn addr(port: u16) -> SocketAddr {
    SocketAddr::V4 { ip: 0x7f00_0001, port }
}

fn context() -> Context {
    UtpContext::bind(Ok(())).ok().unwrap()
}

fn give(data: u64) -> impl FnOnce(&&'static str, SocketData<u32>) -> u64 {
    move |_, _| data
}

#[test]
fn a_new_socket_s_data_is_made_and_attached() {
    let mut ctx = UtpContext::<u32, u8, SocketData<u32>, i32>::bind(Ok(())).ok().unwrap();
    let mut seen = Vec::new();
    let (connect, _) = ctx.connect(addr(1), Ok(7), |h, d| {
        seen.push(*h);
        d
    });
    let mut data = connect.socket.unwrap().data;
    assert_eq!(data.addr, addr(1));
    assert!(data.reader.data.is_empty());
    assert!(!data.reader.eof());
    assert_eq!(data.reader.wake(), None);
    let mut connector = data.connector.unwrap();
    assert!(!connector.connected);
    assert_eq!(connector.wake(), None);
    let listener = ctx.listener();
    ctx.on_accept(8, addr(2), |h, d| {
        seen.push(*h);
        d
    });
    match listener.poll_next(&mut ctx, 1) {
        Poll::Ready(Ok(socket)) => {
            assert_eq!(socket.data.addr, addr(2));
            assert!(socket.data.reader.data.is_empty());
            assert!(socket.data.connector.is_none());
        }
        _ => panic!("a connection waits"),
    }
    let (connect, _) = ctx.connect(addr(3), Err(Error::Connect), |h, d| {
        seen.push(*h);
        d
    });
    assert!(connect.socket.is_none());
    assert_eq!(seen, vec![7, 8]);
}

#[test]
fn a_context_needs_its_udp_socket() {
    let r: Result<Context, Error<i32>> = UtpContext::bind(Err(98));
    assert_eq!(r.err().unwrap(), Error::Os(98));
    let ctx = context();
    assert!(ctx.writer.udp_writable);
    assert_eq!(ctx.on_firewall(), 1);
    assert_eq!(ctx.get_udp_mtu(), None);
    assert_eq!(
        bound_events(),
        vec![
            UtpEvent::Log,
            UtpEvent::OnRead,
            UtpEvent::SendTo,
            UtpEvent::OnAccept,
            UtpEvent::OnError,
            UtpEvent::OnStateChange,
            UtpEvent::OnFirewall,
        ]
    );
}

#[test]
fn only_listeners_let_connections_in() {
    let mut ctx = context();
    let a = ctx.listener();
    assert_eq!(ctx.on_firewall(), 0);
    let b = ctx.listener();
    a.close(&mut ctx);
    assert_eq!(ctx.on_firewall(), 0);
    b.close(&mut ctx);
    assert_eq!(ctx.on_firewall(), 1);
}

#[test]
fn connections_are_refused_exactly_without_listeners() {
    let mut ctx = context();
    let listeners: Vec<_> = (0..255).map(|_| ctx.listener()).collect();
    for l in listeners {
        assert_eq!(ctx.on_firewall(), 0);
        l.close(&mut ctx);
    }
    assert_eq!(ctx.on_firewall(), 1);
}

#[test]
fn a_run_of_receiving_processes_each_packet_once() {
    let mut ctx = context();
    ctx.discard_addrs.insert(addr(2));
    let discarded = ctx.discarded();
    let events = vec![
        RecvEvent::Packet(addr(1)),
        RecvEvent::Failed(1),
        RecvEvent::Packet(addr(2)),
        RecvEvent::Packet(addr(1)),
        RecvEvent::Failed(2),
        RecvEvent::Packet(addr(3)),
        RecvEvent::WouldBlock,
    ];
    let actions: Vec<_> =
        events.into_iter().map(|e| ctx.udp_on_read_ready(&discarded, e)).collect();
    let processed: Vec<usize> =
        (0..actions.len()).filter(|&i| actions[i] == RecvAction::Process).collect();
    assert_eq!(processed, vec![0, 3, 5]);
    assert_eq!(actions.iter().filter(|&&a| a == RecvAction::AckAndEnd).count(), 1);
    assert_eq!(actions[6], RecvAction::AckAndEnd);
    assert_eq!(ctx.error_channel.check_context_err(), Err(Error::Os(2)));
}

#[test]
fn a_cloned_listener_is_not_counted_but_its_end_is() {
    let mut ctx = context();
    let a = ctx.listener();
    let b = a.clone();
    a.close(&mut ctx);
    assert_eq!(ctx.on_firewall(), 1);
    b.close(&mut ctx);
    assert_eq!(ctx.listening, 255);
    ctx.listener();
    assert_eq!(ctx.on_firewall(), 1);
}

#[test]
fn the_packet_size_is_set_and_cleared() {
    let mut ctx = context();
    ctx.set_udp_mtu(50000);
    assert_eq!(ctx.get_udp_mtu(), Some(50000));
    ctx.set_udp_mtu(1400);
    assert_eq!(ctx.get_udp_mtu(), Some(1400));
    ctx.clear_mtu();
    assert_eq!(ctx.get_udp_mtu(), None);
}

#[test]
fn connecting_enters_the_handle_and_closing_takes_it_out() {
    let mut ctx = context();
    let (mut connect, replaced) = ctx.connect(addr(1), Ok("one"), give(11));
    assert_eq!(replaced, None);
    let mut connector: UtpConnector<u32> = UtpConnector::new();
    assert!(matches!(connect.poll(&mut ctx.error_channel, &mut connector, 5), Poll::Pending));
    assert_eq!(connector.set_connected(), Some(5));
    let socket = match connect.poll(&mut ctx.error_channel, &mut connector, 6) {
        Poll::Ready(Ok(socket)) => socket,
        _ => panic!("the connection stands"),
    };
    assert!(connect.socket.is_none());
    assert_eq!(socket.peer_addr(), addr(1));
    assert_eq!(socket.data, 11);
    assert_eq!(socket.debug_text(), "UtpSocket: 127.0.0.1:1");
    assert_eq!(ctx.sockets.get(&addr(1)), Some(&"one"));
    assert_eq!(socket.close(&mut ctx), Some("one"));
    assert_eq!(ctx.sockets.get(&addr(1)), None);
}

#[test]
fn a_second_connection_to_an_address_replaces_the_first() {
    let mut ctx = context();
    let (first, _) = ctx.connect(addr(1), Ok("one"), give(11));
    let (_, replaced) = ctx.connect(addr(1), Ok("two"), give(12));
    assert_eq!(replaced, Some("one"));
    assert_eq!(first.socket.unwrap().close(&mut ctx), Some("two"));
}

#[test]
fn an_attempt_that_fails_at_once_leaves_its_error() {
    let mut ctx = context();
    let (connect, replaced) = ctx.connect(addr(1), Err(Error::Connect), give(11));
    assert!(connect.socket.is_none());
    assert_eq!(replaced, None);
    assert_eq!(ctx.error_channel.check_err(&addr(2)), Ok(()));
    assert_eq!(ctx.error_channel.check_err(&addr(1)), Err(Error::Connect));
    assert_eq!(ctx.error_channel.check_err(&addr(1)), Ok(()));
}

#[test]
fn a_connection_that_times_out_fails_with_that_kind() {
    let mut ctx = context();
    let (mut connect, _) = ctx.connect(addr(1), Ok("one"), give(11));
    let mut data: SocketData<u32> = SocketData::new(addr(1), Some(UtpConnector::new()));
    let connector = data.connector.as_mut().unwrap();
    assert!(matches!(connect.poll(&mut ctx.error_channel, connector, 5), Poll::Pending));
    assert_eq!(ctx.on_error(&mut data, UtpErrorCode::UtpETimedOut), vec![5]);
    let connector = data.connector.as_mut().unwrap();
    match connect.poll(&mut ctx.error_channel, connector, 6) {
        Poll::Ready(Err(e)) => assert_eq!(e.kind(), Some(ErrorKind::TimedOut)),
        _ => panic!("the socket has failed"),
    }
    assert!(connect.socket.is_some());
}

#[test]
fn failures_are_given_out_once_and_the_socket_first() {
    let mut errors: ErrorChannel<i32> = ErrorChannel::new();
    errors.set_context_err(Error::Os(1));
    errors.set_context_err(Error::Os(2));
    errors.set_socket_err(addr(1), Error::Connect);
    errors.set_socket_err(addr(1), Error::Socket(ErrorKind::ConnectionReset));
    errors.set_socket_err(addr(2), Error::Connect);
    assert_eq!(errors.check_err(&addr(1)), Err(Error::Socket(ErrorKind::ConnectionReset)));
    assert_eq!(errors.check_err(&addr(1)), Err(Error::Os(2)));
    assert_eq!(errors.check_err(&addr(1)), Ok(()));
    assert_eq!(errors.check_context_err(), Ok(()));
    assert_eq!(errors.check_err(&addr(2)), Err(Error::Connect));
    errors.set_context_err(Error::Os(3));
    assert_eq!(errors.check_context_err(), Err(Error::Os(3)));
}

#[test]
fn codes_of_failures_become_kinds() {
    let codes = [
        (0, ErrorKind::ConnectionRefused),
        (1, ErrorKind::ConnectionReset),
        (2, ErrorKind::TimedOut),
        (3, ErrorKind::Other),
        (-1, ErrorKind::Other),
    ];
    for (code, kind) in codes {
        let mut ctx = context();
        let mut data: SocketData<u32> = SocketData::new(addr(9), None);
        assert_eq!(ctx.on_error(&mut data, UtpErrorCode::from(code)), vec![]);
        assert_eq!(ctx.error_channel.check_err(&addr(9)), Err(Error::Socket(kind)));
    }
}

#[test]
fn a_failure_wakes_all_that_wait() {
    let mut ctx = context();
    let listener = ctx.listener();
    let mut data: SocketData<u32> = SocketData::new(addr(1), Some(UtpConnector::new()));
    let mut buf = [0u8; 1];
    assert!(matches!(data.reader.poll_read(10, &mut buf), Poll::Pending));
    assert!(matches!(data.connector.as_mut().unwrap().poll_connected(11), Poll::Pending));
    assert!(matches!(listener.poll_next(&mut ctx, 12), Poll::Pending));
    assert!(matches!(ctx.writer.poll_write(addr(1), None, 13), Poll::Pending));
    assert!(matches!(ctx.writer.poll_write(addr(2), Some(0), 14), Poll::Pending));
    let mut woken = ctx.on_error(&mut data, UtpErrorCode::UtpConnReset);
    woken.sort();
    assert_eq!(woken, vec![10, 11, 12, 13, 14]);
    assert_eq!(ctx.on_error(&mut data, UtpErrorCode::UtpConnReset), vec![]);
}

#[test]
fn connections_are_accepted_in_order() {
    let mut ctx = context();
    let listener = ctx.listener();
    assert!(matches!(listener.poll_next(&mut ctx, 1), Poll::Pending));
    let r = ctx.on_accept("a", addr(1), give(100));
    assert_eq!((r.replaced, r.refused, r.woken), (None, None, Some(1)));
    let r = ctx.on_accept("b", addr(2), give(200));
    assert_eq!((r.replaced, r.refused, r.woken), (None, None, None));
    let r = ctx.on_accept("c", addr(1), give(300));
    assert_eq!((r.replaced, r.refused, r.woken), (Some("a"), None, None));
    for (port, data) in [(1, 100), (2, 200), (1, 300)] {
        match listener.poll_next(&mut ctx, 2) {
            Poll::Ready(Ok(socket)) => {
                assert_eq!(socket.addr, addr(port));
                assert_eq!(socket.data, data);
            }
            _ => panic!("a connection waits"),
        }
    }
    assert!(matches!(listener.poll_next(&mut ctx, 3), Poll::Pending));
}

#[test]
fn a_listener_is_told_of_failures_of_the_context_first() {
    let mut ctx = context();
    let listener = ctx.listener();
    ctx.on_accept("a", addr(1), give(100));
    ctx.udp_on_err(5);
    match listener.poll_next(&mut ctx, 1) {
        Poll::Ready(Err(e)) => assert_eq!(e, Error::Os(5)),
        _ => panic!("the context has failed"),
    }
    assert!(matches!(listener.poll_next(&mut ctx, 1), Poll::Ready(Ok(_))));
}

#[test]
fn a_connection_without_room_leaves_nothing() {
    let mut ctx = context();
    let listener = ctx.listener();
    for i in 0..SOCKET_QUEUE_CAPACITY {
        let r = ctx.on_accept("in", addr(i as u16), give(i as u64));
        assert_eq!((r.replaced, r.refused), (None, None));
    }
    let r = ctx.on_accept("out", addr(60000), give(60000));
    assert_eq!((r.replaced, r.refused), (None, Some("out")));
    assert!(!ctx.sockets.contains(&addr(60000)));
    match listener.poll_next(&mut ctx, 1) {
        Poll::Ready(Ok(socket)) => assert_eq!(socket.data, 0),
        _ => panic!("a connection waits"),
    }
    let r = ctx.on_accept("in", addr(60000), give(60000));
    assert_eq!(r.refused, None);
    for i in 1..SOCKET_QUEUE_CAPACITY {
        match listener.poll_next(&mut ctx, 1) {
            Poll::Ready(Ok(socket)) => assert_eq!(socket.data, i as u64),
            _ => panic!("a connection waits"),
        }
    }
    match listener.poll_next(&mut ctx, 1) {
        Poll::Ready(Ok(socket)) => assert_eq!(socket.addr, addr(60000)),
        _ => panic!("a connection waits"),
    }
}

#[test]
fn an_accept_queue_holds_a_thousand() {
    let mut q: UtpSocketQueue<u32, u32> = UtpSocketQueue::new();
    for i in 0..1000 {
        assert_eq!(q.push_socket(i), (None, None));
    }
    assert_eq!(q.push_socket(1000), (Some(1000), None));
    assert_eq!(q.poll_next(1), Poll::Ready(0));
    assert_eq!(q.push_socket(1001), (None, None));
    assert_eq!(q.wake(), None);
}

#[test]
fn received_bytes_wake_the_reader_and_lift_a_discard() {
    let mut ctx = context();
    let mut data: SocketData<u32> = SocketData::new(addr(1), None);
    assert!(matches!(data.reader.poll_read(4, &mut [0u8; 1]), Poll::Pending));
    ctx.discard_addrs.insert(addr(1));
    ctx.discard_addrs.insert(addr(2));
    assert_eq!(ctx.on_read(&mut data, &[1, 2, 3]), Some(4));
    assert!(!ctx.discarded().contains(&addr(1)));
    assert!(ctx.discarded().contains(&addr(2)));
    let socket = UtpSocket { addr: addr(1), data: 0u64 };
    let mut buf = [0u8; 8];
    let r = socket.poll_read(&mut ctx.error_channel, &mut data.reader, 5, &mut buf);
    assert_eq!(r, Poll::Ready(Ok(3)));
    assert_eq!(&buf[..3], &[1, 2, 3]);
    let r = socket.poll_read(&mut ctx.error_channel, &mut data.reader, 5, &mut buf);
    assert_eq!(r, Poll::Pending);
}

#[test]
fn a_peer_that_is_not_read_from_is_discarded() {
    let mut ctx = context();
    let mut data: SocketData<u32> = SocketData::new(addr(1), None);
    for _ in 0..SOCKET_READ_BUFFER_SIZE - 1 {
        data.reader.push(&[]);
    }
    ctx.on_read(&mut data, &[]);
    assert_eq!(data.reader.data.len(), 2 << 20);
    assert!(!ctx.discarded().contains(&addr(1)));
    ctx.on_read(&mut data, &[]);
    assert!(ctx.discarded().contains(&addr(1)));
    let snapshot = ctx.discarded();
    assert_eq!(
        ctx.udp_on_read_ready(&snapshot, RecvEvent::Packet(addr(1))),
        RecvAction::Receive
    );
    assert_eq!(
        ctx.udp_on_read_ready(&snapshot, RecvEvent::Packet(addr(2))),
        RecvAction::Process
    );
}

#[test]
fn receiving_goes_on_until_nothing_is_left() {
    let mut ctx = context();
    let snapshot = ctx.discarded();
    assert_eq!(
        ctx.udp_on_read_ready(&snapshot, RecvEvent::Failed(104)),
        RecvAction::Receive
    );
    assert_eq!(
        ctx.udp_on_read_ready(&snapshot, RecvEvent::WouldBlock),
        RecvAction::AckAndEnd
    );
    assert_eq!(ctx.error_channel.check_context_err(), Err(Error::Os(104)));
}

#[test]
fn a_failure_comes_before_bytes_and_loses_none() {
    let mut ctx = context();
    let mut data: SocketData<u32> = SocketData::new(addr(1), None);
    ctx.on_read(&mut data, &[1]);
    ctx.on_error(&mut data, UtpErrorCode::UtpConnReset);
    let socket = UtpSocket { addr: addr(1), data: 0u64 };
    let mut buf = [0u8; 1];
    match socket.poll_read(&mut ctx.error_channel, &mut data.reader, 5, &mut buf) {
        Poll::Ready(Err(e)) => assert_eq!(e.kind(), Some(ErrorKind::ConnectionReset)),
        _ => panic!("the socket has failed"),
    }
    assert_eq!(buf, [0]);
    let r = socket.poll_read(&mut ctx.error_channel, &mut data.reader, 5, &mut buf);
    assert_eq!(r, Poll::Ready(Ok(1)));
    assert_eq!(buf, [1]);
}

#[test]
fn writing_goes_to_the_handle_under_the_address() {
    let mut ctx = context();
    let (connect, _) = ctx.connect(addr(1), Ok("one"), give(11));
    let socket = connect.socket.unwrap();
    assert_eq!(socket.start_write(&mut ctx), Ok(Some(&"one")));
    assert_eq!(socket.poll_write(&mut ctx, Some(10), 1), Poll::Ready(Ok(10)));
    assert_eq!(socket.poll_write(&mut ctx, Some(0), 2), Poll::Pending);
    let mut data: SocketData<u32> = SocketData::new(addr(1), None);
    assert_eq!(ctx.on_state_change(&mut data, UtpState::UtpStateWritable), Some(2));
    assert_eq!(ctx.on_state_change(&mut data, UtpState::UtpStateWritable), None);
    ctx.udp_on_err(5);
    assert_eq!(socket.start_write(&mut ctx), Err(Error::Os(5)));
    let mut packet = SendProgress::new(3);
    assert!(!ctx.on_sendto(&mut packet, SendEvent::WouldBlock));
    assert_eq!(socket.start_write(&mut ctx), Ok(None));
    assert_eq!(socket.poll_write(&mut ctx, None, 3), Poll::Pending);
    assert_eq!(ctx.udp_on_write_ready(), vec![3]);
    assert_eq!(socket.start_write(&mut ctx), Ok(Some(&"one")));
    assert_eq!(socket.poll_flush::<i32>(), Poll::Ready(Ok(())));
    assert_eq!(socket.poll_shutdown::<i32>(), Poll::Ready(Ok(())));
}

#[test]
fn writers_are_woken_by_address_or_all_together() {
    let mut w: UtpWriter<u32> = UtpWriter::new();
    assert_eq!(w.poll_write(addr(1), None, 1), Poll::Pending);
    assert_eq!(w.poll_write(addr(2), Some(0), 2), Poll::Pending);
    assert_eq!(w.poll_write(addr(2), Some(0), 3), Poll::Pending);
    assert_eq!(w.poll_write(addr(3), Some(usize::MAX), 4), Poll::Ready(usize::MAX));
    assert_eq!(w.set_udp_writable(false), vec![]);
    assert!(!w.udp_writable);
    assert_eq!(w.wake_addr(&addr(2)), Some(3));
    assert_eq!(w.wake_addr(&addr(2)), None);
    assert_eq!(w.set_udp_writable(true), vec![1]);
    assert_eq!(w.wake_all(), vec![]);
}

#[test]
fn states_of_a_socket() {
    let mut ctx = context();
    let mut data: SocketData<u32> = SocketData::new(addr(1), Some(UtpConnector::new()));
    assert!(matches!(data.connector.as_mut().unwrap().poll_connected(1), Poll::Pending));
    assert_eq!(ctx.on_state_change(&mut data, UtpState::UtpStateDestroying), None);
    assert_eq!(ctx.on_state_change(&mut data, UtpState::UtpInvalid), None);
    assert!(!data.connector.as_ref().unwrap().connected);
    assert_eq!(ctx.on_state_change(&mut data, UtpState::UtpStateConnect), Some(1));
    assert!(data.connector.as_ref().unwrap().connected);
    assert!(!data.reader.eof());
    assert_eq!(ctx.on_state_change(&mut data, UtpState::UtpStateEOF), None);
    assert!(data.reader.eof());
    let mut accepted: SocketData<u32> = SocketData::new(addr(2), None);
    assert_eq!(ctx.on_state_change(&mut accepted, UtpState::UtpStateConnect), None);
    assert!(accepted.connector.is_none());
}

#[test]
fn a_packet_is_sent_in_parts() {
    let mut ctx = context();
    let mut packet = SendProgress::new(10);
    assert!(ctx.on_sendto(&mut packet, SendEvent::Sent(4)));
    assert!(ctx.on_sendto(&mut packet, SendEvent::Failed(1)));
    assert_eq!(packet.sent, 4);
    assert!(!ctx.on_sendto(&mut packet, SendEvent::Sent(6)));
    assert_eq!(packet.sent, 10);
    assert_eq!(ctx.error_channel.check_context_err(), Err(Error::Os(1)));
    assert!(ctx.writer.udp_writable);
    let mut empty = SendProgress::new(0);
    assert!(!ctx.on_sendto(&mut empty, SendEvent::Sent(0)));
}

#[test]
fn only_c_strings_are_logged() {
    assert_eq!(on_log(None), None);
    assert_eq!(on_log(Some(b"")), None);
    assert_eq!(on_log(Some(b"abc")), None);
    assert_eq!(on_log(Some(b"a\0c\0")), None);
    assert_eq!(on_log(Some(b"abc\0")), Some(&b"abc"[..]));
    assert_eq!(on_log(Some(b"\0")), Some(&b""[..]));
}

#[test]
fn queued_sockets_become_sockets() {
    let mut ctx = context();
    let (queued, replaced) = QueuedUtpSocket::new(&mut ctx, "h", addr(4), None, give(44));
    assert_eq!(replaced, None);
    let socket = queued.accept();
    assert_eq!(socket.peer_addr(), addr(4));
    assert_eq!(socket.data, 44);
    let pending: Connect<u64> = Connect { socket: Some(socket) };
    assert!(pending.socket.is_some());
}

#[test]
fn maps_and_sets_of_addresses() {
    let mut m: AddrMap<u32> = AddrMap::new();
    assert_eq!(m.insert(addr(1), 1), None);
    assert_eq!(m.insert(addr(2), 2), None);
    assert_eq!(m.insert(addr(1), 3), Some(1));
    assert_eq!(m.get(&addr(1)), Some(&3));
    assert!(m.contains(&addr(2)));
    assert_eq!(m.remove(&addr(2)), Some(2));
    assert_eq!(m.remove(&addr(2)), None);
    m.insert(SocketAddr::V6 { ip: 1, port: 1, flowinfo: 0, scope_id: 0 }, 4);
    m.insert(SocketAddr::V6 { ip: 1, port: 1, flowinfo: 0, scope_id: 1 }, 5);
    let mut all = m.drain();
    all.sort();
    assert_eq!(all, vec![3, 4, 5]);
    assert!(!m.contains(&addr(1)));
    let mut s = AddrSet::new();
    assert!(s.insert(addr(1)));
    assert!(!s.insert(addr(1)));
    let copy = s.clone();
    assert!(s.remove(&addr(1)));
    assert!(!s.remove(&addr(1)));
    assert!(copy.contains(&addr(1)));
    assert!(!s.contains(&addr(1)));
}
