use libutp_rs::wrappers::{
    connect_step, written, ConnectEvent, ConnectStep, UtpCallbackArgs, UtpContext, UtpErrorCode, UtpEvent, UtpSocket,
    UtpState, HANDLED,
};
use libutp_rs::{Error, ErrorKind, SocketAddr};
use std::rc::Rc;

#[test]
fn test_context_data() {
    let mut ctx = UtpContext::<u32, u32>::new();
    ctx.set_context_data(42);
    let data: u32 = *ctx.get_context_data();
    let data_mut: u32 = *ctx.get_context_data_mut();
    assert_eq!(data, 42);
    assert_eq!(data_mut, 42);
}

#[test]
fn test_socket_data() {
    let mut sock = UtpSocket::<u32>::new();
    sock.set_socket_data(42);
    let data: u32 = *sock.get_socket_data();
    let data_mut: u32 = *sock.get_socket_data_mut();
    assert_eq!(data, 42);
    assert_eq!(data_mut, 42);
}

#[test]
fn test_context_data_drop() {
    let data = Rc::new(42);
    {
        let mut ctx = UtpContext::<Rc<u32>, ()>::new();
        ctx.set_context_data(Rc::clone(&data));
        assert_eq!(Rc::strong_count(&data), 2);
        ctx.set_context_data(Rc::clone(&data));
        assert_eq!(Rc::strong_count(&data), 2);
    }
    assert_eq!(Rc::strong_count(&data), 1);
}

#[test]
fn test_socket_data_drop() {
    let data = Rc::new(42);
    {
        let mut sock = UtpSocket::<Rc<u32>>::new();
        sock.set_socket_data(Rc::clone(&data));
        assert_eq!(Rc::strong_count(&data), 2);
        sock.set_socket_data(Rc::clone(&data));
        assert_eq!(Rc::strong_count(&data), 2);
    }
    assert_eq!(Rc::strong_count(&data), 1);
}

#[test]
fn test_callback() {
    let mut ctx = UtpContext::<bool, fn(&mut bool) -> u64>::new();
    ctx.set_context_data(false);
    ctx.set_callback(UtpEvent::SendTo, |data| {
        *data = true;
        0
    });
    assert_eq!(false, *ctx.get_context_data());
    let callback = *ctx.get_callback(UtpEvent::SendTo).unwrap();
    assert_eq!(callback(ctx.get_context_data_mut()), 0);
    assert_eq!(true, *ctx.get_context_data());
}

#[test]
fn data_is_there_once_it_is_set() {
    let mut ctx = UtpContext::<u32, ()>::new();
    assert!(!ctx.has_context_data());
    ctx.set_context_data(1);
    assert!(ctx.has_context_data());
    *ctx.get_context_data_mut() = 2;
    assert_eq!(*ctx.get_context_data(), 2);
    let mut sock = UtpSocket::<u32>::new();
    assert!(!sock.has_socket_data());
    sock.set_socket_data(1);
    assert!(sock.has_socket_data());
    *sock.get_socket_data_mut() = 2;
    assert_eq!(*sock.get_socket_data(), 2);
}

#[test]
fn callbacks_are_kept_by_event() {
    let events = [
        UtpEvent::Log,
        UtpEvent::OnRead,
        UtpEvent::SendTo,
        UtpEvent::OnAccept,
        UtpEvent::OnError,
        UtpEvent::OnFirewall,
        UtpEvent::GetUdpMTU,
        UtpEvent::OnStateChange,
    ];
    let mut ctx = UtpContext::<(), i32>::new();
    for event in events {
        assert!(ctx.get_callback(event).is_none());
        ctx.set_callback(event, event.number());
    }
    ctx.clear_callback(UtpEvent::GetUdpMTU);
    for event in events {
        if event == UtpEvent::GetUdpMTU {
            assert!(ctx.get_callback(event).is_none());
        } else {
            assert_eq!(ctx.get_callback(event), Some(&mut event.number()));
        }
    }
}

#[test]
fn numbers_of_events() {
    assert_eq!(UtpEvent::OnFirewall.number(), 0);
    assert_eq!(UtpEvent::OnAccept.number(), 1);
    assert_eq!(UtpEvent::OnError.number(), 3);
    assert_eq!(UtpEvent::OnRead.number(), 4);
    assert_eq!(UtpEvent::OnStateChange.number(), 6);
    assert_eq!(UtpEvent::GetUdpMTU.number(), 9);
    assert_eq!(UtpEvent::Log.number(), 14);
    assert_eq!(UtpEvent::SendTo.number(), 15);
}

#[test]
fn numbers_of_states_and_failures_lead_back() {
    let states = [
        UtpState::UtpInvalid,
        UtpState::UtpStateConnect,
        UtpState::UtpStateWritable,
        UtpState::UtpStateEOF,
        UtpState::UtpStateDestroying,
        UtpState::UtpInvalid,
    ];
    for (n, state) in states.into_iter().enumerate() {
        assert_eq!(UtpState::from(n as i32), state);
        assert_eq!(UtpState::from(state.number()), state);
    }
    let codes = [
        UtpErrorCode::UtpConnRefused,
        UtpErrorCode::UtpConnReset,
        UtpErrorCode::UtpETimedOut,
        UtpErrorCode::Invalid,
    ];
    for (n, code) in codes.into_iter().enumerate() {
        assert_eq!(UtpErrorCode::from(n as i32), code);
        assert_eq!(code.number(), n as i32);
    }
    assert_eq!(UtpState::from(-1), UtpState::UtpInvalid);
    assert_eq!(UtpErrorCode::from(-1), UtpErrorCode::Invalid);
}

#[test]
fn arguments_of_a_callback() {
    let peer = SocketAddr::V4 { ip: 1, port: 2 };
    let args = UtpCallbackArgs { buf: None, address: Some(peer), first: 2, second: 7 };
    assert_eq!(args.address(), Some(peer));
    assert_eq!(args.send(), 2);
    assert_eq!(args.sample_ms(), 2);
    assert_eq!(args.error_code(), UtpErrorCode::UtpETimedOut);
    assert_eq!(args.state(), UtpState::UtpStateWritable);
    assert_eq!(args.bandwidth_type(), 7);
}

#[test]
fn callbacks_that_lack_something_are_not_acted_on() {
    assert_eq!(HANDLED, 0);
    let peer = Some(SocketAddr::V4 { ip: 1, port: 2 });
    let bytes: Option<&[u8]> = Some(b"abc");
    for socket in [false, true] {
        for buf in [None, bytes] {
            for address in [None, peer] {
                let args = UtpCallbackArgs { buf, address, first: 1, second: 0 };
                let with = |event| args.is_complete(event, socket);
                assert_eq!(with(UtpEvent::OnRead), socket && buf.is_some());
                assert_eq!(with(UtpEvent::OnError), socket);
                assert_eq!(with(UtpEvent::SendTo), address.is_some() && buf.is_some());
                assert_eq!(with(UtpEvent::OnAccept), socket && address.is_some());
                assert_eq!(with(UtpEvent::OnStateChange), socket);
                assert!(with(UtpEvent::Log));
                assert!(with(UtpEvent::OnFirewall));
                assert!(with(UtpEvent::GetUdpMTU));
            }
        }
    }
    for first in [0, 4, 5] {
        let args = UtpCallbackArgs { buf: None, address: None, first, second: 0 };
        assert!(args.is_complete(UtpEvent::OnStateChange, false));
    }
}

#[test]
fn results_of_libutp() {
    assert_eq!(connect_step::<()>(ConnectEvent::LookedUp(Ok(()))), ConnectStep::Call);
    assert_eq!(
        connect_step::<()>(ConnectEvent::LookedUp(Err(Error::Lookup(-2)))),
        ConnectStep::Fail(Error::Lookup(-2))
    );
    assert_eq!(connect_step::<()>(ConnectEvent::Called(0)), ConnectStep::Keep);
    match connect_step::<()>(ConnectEvent::Called(-1)) {
        ConnectStep::CloseAndFail(e) => {
            assert_eq!(e.kind(), Some(ErrorKind::Other));
            assert_eq!(e.message().unwrap(), "utp_connect returned non-zero error code");
        }
        _ => panic!("the attempt has failed"),
    }
    assert_eq!(written(0), 0);
    assert_eq!(written(1400), 1400);
    assert_eq!(written(-1), usize::MAX);
    assert_eq!(written(isize::MIN), isize::MIN as usize);
}
