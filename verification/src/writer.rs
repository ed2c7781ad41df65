//! The tasks that wait until they can send.

use crate::addr::SocketAddr;
use crate::addr_map::{lists_values, AddrMap};
use crate::io::Poll;
use vstd::prelude::*;

verus! {

/// Whether the UDP socket takes packets, and the tasks that wait to write, each under the address
/// of its socket's peer. `W` wakes a task.
pub struct UtpWriter<W> {
    pub udp_writable: bool,
    pub wakers: AddrMap<W>,
}

impl<W> UtpWriter<W> {
    /// Whether the writer is in order.
    pub open spec fn wf(&self) -> bool {
        self.wakers.wf()
    }

    /// A writer on a UDP socket that takes packets, for which no task waits.
    pub fn new() -> (w: UtpWriter<W>)
        ensures
            w.wf(),
            w.udp_writable,
            w.wakers@ == Map::<SocketAddr, W>::empty(),
    {
        UtpWriter { udp_writable: true, wakers: AddrMap::new() }
    }

    /// Ends an attempt to write. `written` says how many bytes libutp took, and is absent where it
    /// was not asked because the UDP socket took no packets. A task of whose bytes none were taken
    /// has to wait, and its waker is kept in place of the one kept for the same address.
    pub fn poll_write(&mut self, addr: SocketAddr, written: Option<usize>, waker: W) -> (r: Poll<
        usize,
    >)
        requires
            old(self).wf(),
        ensures
            final(self).wf(),
            final(self).udp_writable == old(self).udp_writable,
            match written {
                Some(n) if n != 0 => r == Poll::Ready(n) && final(self).wakers@
                    == old(self).wakers@,
                _ => r is Pending && final(self).wakers@ == old(self).wakers@.insert(addr, waker),
            },
    {
        match written {
            Some(n) => if n != 0 {
                return Poll::Ready(n);
            },
            None => {},
        }
        self.wakers.insert(addr, waker);
        Poll::Pending
    }

    /// Notes whether the UDP socket takes packets. Once it does, all tasks that wait are woken:
    /// their wakers are handed back.
    pub fn set_udp_writable(&mut self, writable: bool) -> (woken: Vec<W>)
        requires
            old(self).wf(),
        ensures
            final(self).wf(),
            final(self).udp_writable == writable,
            writable ==> lists_values(woken@, old(self).wakers@) && final(self).wakers@ == Map::<
                SocketAddr,
                W,
            >::empty(),
            !writable ==> woken@.len() == 0 && final(self).wakers@ == old(self).wakers@,
    {
        self.udp_writable = writable;
        if writable {
            self.wake_all()
        } else {
            Vec::new()
        }
    }

    /// Hands back the waker of the task that waits to write to an address.
    pub fn wake_addr(&mut self, addr: &SocketAddr) -> (woken: Option<W>)
        requires
            old(self).wf(),
        ensures
            final(self).wf(),
            final(self).udp_writable == old(self).udp_writable,
            final(self).wakers@ == old(self).wakers@.remove(*addr),
            woken == (if old(self).wakers@.contains_key(*addr) {
                Some(old(self).wakers@[*addr])
            } else {
                None
            }),
    {
        self.wakers.remove(addr)
    }

    /// Hands back the wakers of all tasks that wait to write.
    pub fn wake_all(&mut self) -> (woken: Vec<W>)
        requires
            old(self).wf(),
        ensures
            final(self).wf(),
            final(self).udp_writable == old(self).udp_writable,
            final(self).wakers@ == Map::<SocketAddr, W>::empty(),
            lists_values(woken@, old(self).wakers@),
    {
        self.wakers.drain()
    }
}

} // verus!
