//! What libutp's interface says in numbers and pointers, in types of its own: the events it calls
//! back on, the states and errors it reports, the arguments it hands to a callback, and the data
//! that hangs on its contexts and sockets.

use crate::addr::SocketAddr;
use crate::io::{Error, ErrorKind};
use vstd::prelude::*;

verus! {

/// An event on which libutp calls back.
#[derive(Clone, Copy, Debug, PartialEq, Eq, Hash, Structural)]
pub enum UtpEvent {
    Log,
    OnRead,
    SendTo,
    OnAccept,
    OnError,
    OnFirewall,
    GetUdpMTU,
    OnStateChange,
}

/// A state that a socket has entered.
#[derive(Clone, Copy, Debug, PartialEq, Eq, Hash, Structural)]
pub enum UtpState {
    UtpStateConnect,
    UtpStateWritable,
    UtpStateEOF,
    UtpStateDestroying,
    UtpInvalid,
}

/// A failure of a socket.
#[derive(Clone, Copy, Debug, PartialEq, Eq, Structural)]
pub enum UtpErrorCode {
    UtpConnRefused,
    UtpConnReset,
    UtpETimedOut,
    Invalid,
}

impl UtpEvent {
    /// The number that libutp's header gives the event.
    pub open spec fn spec_number(self) -> i32 {
        match self {
            UtpEvent::OnFirewall => 0,
            UtpEvent::OnAccept => 1,
            UtpEvent::OnError => 3,
            UtpEvent::OnRead => 4,
            UtpEvent::OnStateChange => 6,
            UtpEvent::GetUdpMTU => 9,
            UtpEvent::Log => 14,
            UtpEvent::SendTo => 15,
        }
    }

    /// The number that libutp's header gives the event.
    pub fn number(&self) -> (n: i32)
        ensures
            n == self.spec_number(),
    {
        match self {
            UtpEvent::OnFirewall => 0,
            UtpEvent::OnAccept => 1,
            UtpEvent::OnError => 3,
            UtpEvent::OnRead => 4,
            UtpEvent::OnStateChange => 6,
            UtpEvent::GetUdpMTU => 9,
            UtpEvent::Log => 14,
            UtpEvent::SendTo => 15,
        }
    }

    /// The event's place in a list of all events.
    spec fn spec_slot(self) -> int {
        match self {
            UtpEvent::Log => 0,
            UtpEvent::OnRead => 1,
            UtpEvent::SendTo => 2,
            UtpEvent::OnAccept => 3,
            UtpEvent::OnError => 4,
            UtpEvent::OnFirewall => 5,
            UtpEvent::GetUdpMTU => 6,
            UtpEvent::OnStateChange => 7,
        }
    }

    /// The event's place in a list of all events.
    fn slot(&self) -> (i: usize)
        ensures
            i == self.spec_slot(),
    {
        match self {
            UtpEvent::Log => 0,
            UtpEvent::OnRead => 1,
            UtpEvent::SendTo => 2,
            UtpEvent::OnAccept => 3,
            UtpEvent::OnError => 4,
            UtpEvent::OnFirewall => 5,
            UtpEvent::GetUdpMTU => 6,
            UtpEvent::OnStateChange => 7,
        }
    }
}

impl UtpState {
    /// The state that a number of libutp's stands for.
    pub open spec fn of_number(val: i32) -> UtpState {
        if val == 1 {
            UtpState::UtpStateConnect
        } else if val == 2 {
            UtpState::UtpStateWritable
        } else if val == 3 {
            UtpState::UtpStateEOF
        } else if val == 4 {
            UtpState::UtpStateDestroying
        } else {
            UtpState::UtpInvalid
        }
    }

    /// The number of the state. That of the invalid state follows those that libutp knows.
    pub open spec fn spec_number(self) -> i32 {
        match self {
            UtpState::UtpStateConnect => 1,
            UtpState::UtpStateWritable => 2,
            UtpState::UtpStateEOF => 3,
            UtpState::UtpStateDestroying => 4,
            UtpState::UtpInvalid => 5,
        }
    }

    /// The number of the state.
    pub fn number(&self) -> (n: i32)
        ensures
            n == self.spec_number(),
    {
        match self {
            UtpState::UtpStateConnect => 1,
            UtpState::UtpStateWritable => 2,
            UtpState::UtpStateEOF => 3,
            UtpState::UtpStateDestroying => 4,
            UtpState::UtpInvalid => 5,
        }
    }
}

impl From<i32> for UtpState {
    fn from(val: i32) -> (s: Self) {
        match val {
            1 => UtpState::UtpStateConnect,
            2 => UtpState::UtpStateWritable,
            3 => UtpState::UtpStateEOF,
            4 => UtpState::UtpStateDestroying,
            _ => UtpState::UtpInvalid,
        }
    }
}

impl vstd::std_specs::convert::FromSpecImpl<i32> for UtpState {
    open spec fn obeys_from_spec() -> bool {
        true
    }

    open spec fn from_spec(val: i32) -> Self {
        UtpState::of_number(val)
    }
}

impl UtpErrorCode {
    /// The failure that a number of libutp's stands for.
    pub open spec fn of_number(val: i32) -> UtpErrorCode {
        if val == 0 {
            UtpErrorCode::UtpConnRefused
        } else if val == 1 {
            UtpErrorCode::UtpConnReset
        } else if val == 2 {
            UtpErrorCode::UtpETimedOut
        } else {
            UtpErrorCode::Invalid
        }
    }

    /// The number of the failure. That of an invalid one follows those that libutp knows.
    pub open spec fn spec_number(self) -> i32 {
        match self {
            UtpErrorCode::UtpConnRefused => 0,
            UtpErrorCode::UtpConnReset => 1,
            UtpErrorCode::UtpETimedOut => 2,
            UtpErrorCode::Invalid => 3,
        }
    }

    /// The kind of error that tasks are told of.
    pub open spec fn spec_kind(self) -> ErrorKind {
        match self {
            UtpErrorCode::UtpConnRefused => ErrorKind::ConnectionRefused,
            UtpErrorCode::UtpConnReset => ErrorKind::ConnectionReset,
            UtpErrorCode::UtpETimedOut => ErrorKind::TimedOut,
            UtpErrorCode::Invalid => ErrorKind::Other,
        }
    }

    /// The number of the failure.
    pub fn number(&self) -> (n: i32)
        ensures
            n == self.spec_number(),
    {
        match self {
            UtpErrorCode::UtpConnRefused => 0,
            UtpErrorCode::UtpConnReset => 1,
            UtpErrorCode::UtpETimedOut => 2,
            UtpErrorCode::Invalid => 3,
        }
    }

    /// The kind of error that tasks are told of.
    pub fn kind(&self) -> (kind: ErrorKind)
        ensures
            kind == self.spec_kind(),
    {
        match self {
            UtpErrorCode::UtpConnRefused => ErrorKind::ConnectionRefused,
            UtpErrorCode::UtpConnReset => ErrorKind::ConnectionReset,
            UtpErrorCode::UtpETimedOut => ErrorKind::TimedOut,
            UtpErrorCode::Invalid => ErrorKind::Other,
        }
    }
}

impl From<i32> for UtpErrorCode {
    fn from(val: i32) -> (s: Self) {
        match val {
            0 => UtpErrorCode::UtpConnRefused,
            1 => UtpErrorCode::UtpConnReset,
            2 => UtpErrorCode::UtpETimedOut,
            _ => UtpErrorCode::Invalid,
        }
    }
}

impl vstd::std_specs::convert::FromSpecImpl<i32> for UtpErrorCode {
    open spec fn obeys_from_spec() -> bool {
        true
    }

    open spec fn from_spec(val: i32) -> Self {
        UtpErrorCode::of_number(val)
    }
}

/// The data and the callbacks of a libutp context. `C` is the data, `F` a callback.
pub struct UtpContext<C, F> {
    data: Option<C>,
    callbacks: Vec<Option<F>>,
}

impl<C, F> UtpContext<C, F> {
    /// Whether there is a place for each event's callback.
    pub closed spec fn wf(&self) -> bool {
        self.callbacks@.len() == 8
    }

    /// The data, where it was set.
    pub closed spec fn data(&self) -> Option<C> {
        self.data
    }

    /// The callbacks that are set.
    pub closed spec fn callbacks(&self) -> Map<UtpEvent, F> {
        Map::new(
            |e: UtpEvent| self.callbacks@[e.spec_slot()] is Some,
            |e: UtpEvent| self.callbacks@[e.spec_slot()]->0,
        )
    }

    /// A context without data and callbacks.
    pub fn new() -> (c: UtpContext<C, F>)
        ensures
            c.wf(),
            c.data() is None,
            c.callbacks() == Map::<UtpEvent, F>::empty(),
    {
        let mut callbacks: Vec<Option<F>> = Vec::new();
        while callbacks.len() < 8
            invariant
                callbacks@.len() <= 8,
                forall|i: int| 0 <= i < callbacks@.len() ==> #[trigger] callbacks@[i] is None,
            decreases 8 - callbacks@.len(),
        {
            callbacks.push(None);
        }
        UtpContext { data: None, callbacks }
    }

    /// Sets the data, and drops what was set before.
    pub fn set_context_data(&mut self, data: C)
        requires
            old(self).wf(),
        ensures
            final(self).wf(),
            final(self).data() == Some(data),
            final(self).callbacks() == old(self).callbacks(),
    {
        self.data = Some(data);
    }

    /// Whether data was set.
    pub fn has_context_data(&self) -> (b: bool)
        ensures
            b == self.data() is Some,
    {
        self.data.is_some()
    }

    /// The data that was set.
    pub fn get_context_data(&self) -> (data: &C)
        requires
            self.data() is Some,
        ensures
            Some(*data) == self.data(),
    {
        match &self.data {
            Some(data) => data,
            None => vstd::pervasive::unreached(),
        }
    }

    /// The data that was set, to be changed.
    pub fn get_context_data_mut(&mut self) -> (data: &mut C)
        requires
            old(self).wf(),
            old(self).data() is Some,
        ensures
            Some(*data) == old(self).data(),
            final(self).wf(),
            final(self).data() == Some(*final(data)),
            final(self).callbacks() == old(self).callbacks(),
    {
        match &mut self.data {
            Some(data) => data,
            None => vstd::pervasive::unreached(),
        }
    }

    /// Sets the callback of an event, in place of the one set before.
    pub fn set_callback(&mut self, event: UtpEvent, callback: F)
        requires
            old(self).wf(),
        ensures
            final(self).wf(),
            final(self).data() == old(self).data(),
            final(self).callbacks() == old(self).callbacks().insert(event, callback),
    {
        let i = event.slot();
        self.callbacks[i] = Some(callback);
    }

    /// Drops the callback of an event.
    pub fn clear_callback(&mut self, event: UtpEvent)
        requires
            old(self).wf(),
        ensures
            final(self).wf(),
            final(self).data() == old(self).data(),
            final(self).callbacks() == old(self).callbacks().remove(event),
    {
        let i = event.slot();
        self.callbacks[i] = None;
    }

    /// The callback of an event, where one is set.
    pub fn get_callback(&mut self, event: UtpEvent) -> (callback: Option<&mut F>)
        requires
            old(self).wf(),
        ensures
            final(self).wf(),
            final(self).data() == old(self).data(),
            match callback {
                Some(f) => {
                    &&& old(self).callbacks().contains_key(event)
                    &&& *f == old(self).callbacks()[event]
                    &&& final(self).callbacks() == old(self).callbacks().insert(event, *final(f))
                },
                None => {
                    &&& !old(self).callbacks().contains_key(event)
                    &&& final(self).callbacks() == old(self).callbacks()
                },
            },
    {
        let i = event.slot();
        match &mut self.callbacks[i] {
            Some(f) => Some(f),
            None => None,
        }
    }
}

/// The data of a libutp socket.
pub struct UtpSocket<S> {
    data: Option<S>,
}

impl<S> UtpSocket<S> {
    /// The data, where it was set.
    pub closed spec fn data(&self) -> Option<S> {
        self.data
    }

    /// A socket without data.
    pub fn new() -> (s: UtpSocket<S>)
        ensures
            s.data() is None,
    {
        UtpSocket { data: None }
    }

    /// Sets the data, and drops what was set before.
    pub fn set_socket_data(&mut self, data: S)
        ensures
            final(self).data() == Some(data),
    {
        self.data = Some(data);
    }

    /// Whether data was set.
    pub fn has_socket_data(&self) -> (b: bool)
        ensures
            b == self.data() is Some,
    {
        self.data.is_some()
    }

    /// The data that was set.
    pub fn get_socket_data(&self) -> (data: &S)
        requires
            self.data() is Some,
        ensures
            Some(*data) == self.data(),
    {
        match &self.data {
            Some(data) => data,
            None => vstd::pervasive::unreached(),
        }
    }

    /// The data that was set, to be changed.
    pub fn get_socket_data_mut(&mut self) -> (data: &mut S)
        requires
            old(self).data() is Some,
        ensures
            Some(*data) == old(self).data(),
            final(self).data() == Some(*final(data)),
    {
        match &mut self.data {
            Some(data) => data,
            None => vstd::pervasive::unreached(),
        }
    }
}

/// What libutp is answered by a callback on an event that asks for nothing.
pub const HANDLED: u64 = 0;

/// The arguments of a callback. libutp hands over an address, with its length, or two numbers; what
/// the numbers mean depends on the event.
pub struct UtpCallbackArgs<'a> {
    pub buf: Option<&'a [u8]>,
    pub address: Option<SocketAddr>,
    pub first: i32,
    pub second: i32,
}

impl<'a> UtpCallbackArgs<'a> {
    /// Whether the arguments hold all that the event needs; `socket` is whether libutp named one.
    pub open spec fn spec_is_complete(self, event: UtpEvent, socket: bool) -> bool {
        match event {
            UtpEvent::OnRead => socket && self.buf is Some,
            UtpEvent::OnError => socket,
            UtpEvent::SendTo => self.address is Some && self.buf is Some,
            UtpEvent::OnAccept => socket && self.address is Some,
            UtpEvent::OnStateChange => match UtpState::of_number(self.first) {
                UtpState::UtpStateDestroying | UtpState::UtpInvalid => true,
                _ => socket,
            },
            UtpEvent::Log | UtpEvent::OnFirewall | UtpEvent::GetUdpMTU => true,
        }
    }

    /// Whether the arguments hold all that the event needs; `socket` is whether libutp named one. A
    /// callback that lacks something is answered and not acted on, but for a change of state, which
    /// libutp does not report without the socket that it concerns.
    pub fn is_complete(&self, event: UtpEvent, socket: bool) -> (b: bool)
        ensures
            b == self.spec_is_complete(event, socket),
    {
        match event {
            UtpEvent::OnRead => socket && self.buf.is_some(),
            UtpEvent::OnError => socket,
            UtpEvent::SendTo => self.address.is_some() && self.buf.is_some(),
            UtpEvent::OnAccept => socket && self.address.is_some(),
            UtpEvent::OnStateChange => match self.state() {
                UtpState::UtpStateDestroying | UtpState::UtpInvalid => true,
                _ => socket,
            },
            UtpEvent::Log | UtpEvent::OnFirewall | UtpEvent::GetUdpMTU => true,
        }
    }

    /// The peer's address.
    pub fn address(&self) -> (addr: Option<SocketAddr>)
        ensures
            addr == self.address,
    {
        self.address
    }

    /// Whether statistics are of sending.
    pub fn send(&self) -> (n: i32)
        ensures
            n == self.first,
    {
        self.first
    }

    /// A sample of the delay, in milliseconds.
    pub fn sample_ms(&self) -> (n: i32)
        ensures
            n == self.first,
    {
        self.first
    }

    /// The failure that is reported.
    pub fn error_code(&self) -> (code: UtpErrorCode)
        ensures
            code == UtpErrorCode::of_number(self.first),
    {
        UtpErrorCode::from(self.first)
    }

    /// The state that is reported.
    pub fn state(&self) -> (state: UtpState)
        ensures
            state == UtpState::of_number(self.first),
    {
        UtpState::from(self.first)
    }

    /// The kind of bandwidth that statistics are of.
    pub fn bandwidth_type(&self) -> (n: i32)
        ensures
            n == self.second,
    {
        self.second
    }
}

/// What a step of an attempt to start a connection has ended with.
#[derive(Debug)]
pub enum ConnectEvent<E> {
    /// The peer's address was looked up, or could not be.
    LookedUp(Result<(), Error<E>>),
    /// libutp's `utp_connect` was called on a new socket, and returned this code.
    Called(i32),
}

/// The next step of an attempt to start a connection.
#[derive(Debug, PartialEq, Eq)]
pub enum ConnectStep<E> {
    /// Call `utp_connect` on a new socket.
    Call,
    /// Keep the socket: the attempt is under way.
    Keep,
    /// Close the socket, once, and fail so.
    CloseAndFail(Error<E>),
    /// Fail so. There is no socket on which `utp_connect` was called.
    Fail(Error<E>),
}

/// What follows in an attempt to start a connection. Without an address libutp is not asked; of the
/// codes that it returns zero, and nothing else, is success.
pub fn connect_step<E>(event: ConnectEvent<E>) -> (s: ConnectStep<E>)
    ensures
        s == (match event {
            ConnectEvent::LookedUp(Err(e)) => ConnectStep::Fail(e),
            ConnectEvent::LookedUp(Ok(_)) => ConnectStep::Call,
            ConnectEvent::Called(code) => if code == 0 {
                ConnectStep::Keep
            } else {
                ConnectStep::CloseAndFail(Error::Connect)
            },
        }),
{
    match event {
        ConnectEvent::LookedUp(Err(e)) => ConnectStep::Fail(e),
        ConnectEvent::LookedUp(Ok(_)) => ConnectStep::Call,
        ConnectEvent::Called(0) => ConnectStep::Keep,
        ConnectEvent::Called(_) => ConnectStep::CloseAndFail(Error::Connect),
    }
}

/// How many bytes a count returned by libutp's `utp_write` says were taken. A negative count, which
/// libutp gives where the socket cannot be written, is read as an unsigned number of the same bits.
pub fn written(count: isize) -> (n: usize)
    ensures
        n == (if count >= 0 {
            count as int
        } else {
            usize::MAX + 1 + count
        }),
{
    if count >= 0 {
        count as usize
    } else {
        usize::MAX - (-(count + 1)) as usize
    }
}

} // verus!
