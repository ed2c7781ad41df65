//! The wait until a connection stands.

use crate::io::Poll;
use vstd::prelude::*;

verus! {

/// Whether a connection stands, and the task that waits for it. `W` wakes a task.
pub struct UtpConnector<W> {
    pub connected: bool,
    pub waker: Option<W>,
}

impl<W> UtpConnector<W> {
    /// A connection that does not stand yet.
    pub open spec fn initial() -> Self {
        UtpConnector { connected: false, waker: None }
    }

    /// The connector after a task has polled it. A task that has to wait takes the place of one that
    /// waited before.
    pub open spec fn polled(self, waker: W) -> Self {
        if self.connected {
            self
        } else {
            UtpConnector { waker: Some(waker), ..self }
        }
    }

    /// The connector once the connection stands. No task waits any more.
    pub open spec fn stood(self) -> Self {
        UtpConnector { connected: true, waker: None }
    }

    /// The connector once the task that waited has been woken.
    pub open spec fn woken(self) -> Self {
        UtpConnector { waker: None, ..self }
    }

    /// A connection that does not stand yet.
    pub fn new() -> (c: UtpConnector<W>)
        ensures
            c == Self::initial(),
    {
        UtpConnector { connected: false, waker: None }
    }

    /// Whether the connection stands. Until it does, the task has to wait, and `waker` is kept in
    /// place of the one that was kept before.
    pub fn poll_connected(&mut self, waker: W) -> (r: Poll<()>)
        ensures
            *final(self) == old(self).polled(waker),
            r is Ready == old(self).connected,
            final(self).connected == old(self).connected,
            r is Pending ==> final(self).waker == Some(waker),
    {
        if self.connected {
            Poll::Ready(())
        } else {
            self.waker = Some(waker);
            Poll::Pending
        }
    }

    /// Notes that the connection stands, and hands back the waker of the task that waits for it.
    pub fn set_connected(&mut self) -> (woken: Option<W>)
        ensures
            *final(self) == old(self).stood(),
            final(self).connected,
            final(self).waker is None,
            woken == old(self).waker,
    {
        self.connected = true;
        self.waker.take()
    }

    /// Hands back the waker of the task that waits for the connection.
    pub fn wake(&mut self) -> (woken: Option<W>)
        ensures
            *final(self) == old(self).woken(),
            woken == old(self).waker,
    {
        self.waker.take()
    }
}

} // verus!
