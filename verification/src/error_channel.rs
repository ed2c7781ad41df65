//! Failures on their way to the tasks that they concern.

use crate::addr::SocketAddr;
use crate::addr_map::AddrMap;
use crate::io::Error;
use vstd::prelude::*;

verus! {

/// The failures that no task has been told of yet: the last one of the whole context, and the last
/// one of each socket, under the address of its peer.
pub struct ErrorChannel<E> {
    pub context: Option<Error<E>>,
    pub sockets: AddrMap<Error<E>>,
}

impl<E> ErrorChannel<E> {
    /// Whether the channel is in order.
    pub open spec fn wf(&self) -> bool {
        self.sockets.wf()
    }

    /// A channel without failures.
    pub fn new() -> (c: ErrorChannel<E>)
        ensures
            c.wf(),
            c.context is None,
            c.sockets@ == Map::<SocketAddr, Error<E>>::empty(),
    {
        ErrorChannel { context: None, sockets: AddrMap::new() }
    }

    /// Notes a failure of one socket, in place of an earlier one.
    pub fn set_socket_err(&mut self, addr: SocketAddr, e: Error<E>)
        requires
            old(self).wf(),
        ensures
            final(self).wf(),
            final(self).context == old(self).context,
            final(self).sockets@ == old(self).sockets@.insert(addr, e),
    {
        self.sockets.insert(addr, e);
    }

    /// Notes a failure of the whole context, in place of an earlier one.
    pub fn set_context_err(&mut self, e: Error<E>)
        ensures
            final(self).context == Some(e),
            final(self).sockets == old(self).sockets,
    {
        self.context = Some(e);
    }

    /// Gives out the failure of a socket or, where it has none, that of the context. What is given
    /// out is forgotten.
    pub fn check_err(&mut self, addr: &SocketAddr) -> (r: Result<(), Error<E>>)
        requires
            old(self).wf(),
        ensures
            final(self).wf(),
            final(self).sockets@ == old(self).sockets@.remove(*addr),
            if old(self).sockets@.contains_key(*addr) {
                &&& r == Result::<(), Error<E>>::Err(old(self).sockets@[*addr])
                &&& final(self).context == old(self).context
            } else {
                &&& final(self).context is None
                &&& match old(self).context {
                    Some(e) => r == Result::<(), Error<E>>::Err(e),
                    None => r is Ok,
                }
            },
    {
        match self.sockets.remove(addr) {
            Some(e) => Err(e),
            None => self.check_context_err(),
        }
    }

    /// Gives out the failure of the context, and forgets it.
    pub fn check_context_err(&mut self) -> (r: Result<(), Error<E>>)
        ensures
            final(self).sockets == old(self).sockets,
            final(self).context is None,
            match old(self).context {
                Some(e) => r == Result::<(), Error<E>>::Err(e),
                None => r is Ok,
            },
    {
        match self.context.take() {
            Some(e) => Err(e),
            None => Ok(()),
        }
    }
}

} // verus!
