//! The connections that peers have opened and that wait to be accepted.

use crate::io::Poll;
use crossbeam::queue::{ArrayQueue, PushError};
use std::collections::HashMap;
use vstd::prelude::*;

verus! {

/// How many connections can wait to be accepted.
pub const SOCKET_QUEUE_CAPACITY: usize = 1000;

/// crossbeam's bounded FIFO queue. Nothing inside it is visible here; what it holds is
/// [`queued_tickets`], and how much it can hold is [`ticket_limit`].
#[verifier::external_type_specification]
#[verifier::external_body]
#[verifier::reject_recursive_types(T)]
pub struct ExArrayQueue<T>(crossbeam::queue::ArrayQueue<T>);

/// The numbers that an `ArrayQueue` holds, the next one to be popped first.
pub uninterp spec fn queued_tickets(queue: ArrayQueue<u64>) -> Seq<u64>;

/// How many numbers an `ArrayQueue` can hold.
pub uninterp spec fn ticket_limit(queue: ArrayQueue<u64>) -> nat;

/// `ArrayQueue::new`: the new queue holds nothing, and can hold as much as was asked for. The
/// function panics on a capacity of zero and on one that memory cannot hold.
#[verifier::external_body]
fn array_new(cap: usize) -> (queue: ArrayQueue<u64>)
    requires
        0 < cap <= 0xffff,
    ensures
        queued_tickets(queue) == Seq::<u64>::empty(),
        ticket_limit(queue) == cap,
{
    ArrayQueue::new(cap)
}

/// `ArrayQueue::push` on a queue that no one else uses meanwhile: the number goes to the back; where
/// the queue is full, and only there, it is handed back and the queue stays as it is.
#[verifier::external_body]
fn array_push(queue: &mut ArrayQueue<u64>, ticket: u64) -> (r: Result<(), u64>)
    ensures
        ticket_limit(*final(queue)) == ticket_limit(*old(queue)),
        match r {
            Ok(_) => {
                &&& queued_tickets(*old(queue)).len() < ticket_limit(*old(queue))
                &&& queued_tickets(*final(queue)) == queued_tickets(*old(queue)).push(ticket)
            },
            Err(back) => {
                &&& queued_tickets(*old(queue)).len() >= ticket_limit(*old(queue))
                &&& queued_tickets(*final(queue)) == queued_tickets(*old(queue))
                &&& back == ticket
            },
        },
{
    queue.push(ticket).map_err(|PushError(back)| back)
}

/// `ArrayQueue::pop` on a queue that no one else uses meanwhile: the number at the front leaves, and
/// an empty queue, and no other, has none to give.
#[verifier::external_body]
fn array_pop(queue: &mut ArrayQueue<u64>) -> (ticket: Option<u64>)
    ensures
        ticket_limit(*final(queue)) == ticket_limit(*old(queue)),
        match ticket {
            Some(t) => {
                &&& queued_tickets(*old(queue)).len() > 0
                &&& t == queued_tickets(*old(queue))[0]
                &&& queued_tickets(*final(queue)) == queued_tickets(*old(queue)).drop_first()
            },
            None => {
                &&& queued_tickets(*old(queue)).len() == 0
                &&& queued_tickets(*final(queue)).len() == 0
            },
        },
{
    queue.pop().ok()
}

/// The ticket at index `i` of `len` consecutive ones before `next`. Tickets start over at zero
/// behind the largest number.
spec fn ticket_at(next: u64, len: int, i: int) -> int {
    if next - len + i >= 0 {
        next - len + i
    } else {
        next - len + i + 0x1_0000_0000_0000_0000
    }
}

/// Connections that wait to be accepted, and the task that waits for one. `S` is a connection, `W`
/// wakes a task. The queue itself holds tickets; the connection of each is parked beside it.
pub struct UtpSocketQueue<S, W> {
    sockets: ArrayQueue<u64>,
    parked: HashMap<u64, S>,
    next_ticket: u64,
    waker: Option<W>,
}

impl<S, W> UtpSocketQueue<S, W> {
    /// Whether the tickets in the queue are consecutive and each has its connection.
    pub closed spec fn wf(&self) -> bool {
        let tickets = queued_tickets(self.sockets);
        &&& ticket_limit(self.sockets) == SOCKET_QUEUE_CAPACITY
        &&& tickets.len() <= SOCKET_QUEUE_CAPACITY
        &&& forall|i: int|
            0 <= i < tickets.len() ==> #[trigger] tickets[i] == ticket_at(
                self.next_ticket,
                tickets.len() as int,
                i,
            )
        &&& forall|t: u64| #[trigger] self.parked@.contains_key(t) <==> tickets.contains(t)
    }

    /// The connections that wait, the next one to be accepted first.
    pub closed spec fn view(&self) -> Seq<S> {
        let tickets = queued_tickets(self.sockets);
        Seq::new(tickets.len(), |i: int| self.parked@[tickets[i]])
    }

    /// What wakes the task that waits for a connection.
    pub closed spec fn waiting(&self) -> Option<W> {
        self.waker
    }

    /// An empty queue.
    pub fn new() -> (q: UtpSocketQueue<S, W>)
        ensures
            q.wf(),
            q@ == Seq::<S>::empty(),
            q.waiting() is None,
    {
        UtpSocketQueue {
            sockets: array_new(SOCKET_QUEUE_CAPACITY),
            parked: HashMap::new(),
            next_ticket: 0,
            waker: None,
        }
    }

    /// Hands back the waker of the task that waits for a connection.
    pub fn wake(&mut self) -> (woken: Option<W>)
        requires
            old(self).wf(),
        ensures
            final(self).wf(),
            final(self)@ == old(self)@,
            woken == old(self).waiting(),
            final(self).waiting() is None,
    {
        self.waker.take()
    }

    /// Gives out the connection that waits longest. Where none waits, the task has to wait, and
    /// `waker` is kept in place of the one that was kept before.
    pub fn poll_next(&mut self, waker: W) -> (r: Poll<S>)
        requires
            old(self).wf(),
        ensures
            final(self).wf(),
            if old(self)@.len() > 0 {
                &&& r == Poll::Ready(old(self)@[0])
                &&& final(self)@ == old(self)@.drop_first()
                &&& final(self).waiting() == old(self).waiting()
            } else {
                &&& r is Pending
                &&& final(self)@ == old(self)@
                &&& final(self).waiting() == Some(waker)
            },
    {
        broadcast use vstd::std_specs::hash::group_hash_axioms;

        match array_pop(&mut self.sockets) {
            Some(ticket) => {
                let ghost before = queued_tickets(old(self).sockets);
                let ghost after = queued_tickets(self.sockets);
                let socket = self.parked.remove(&ticket).unwrap();
                proof {
                    assert forall|i: int| 0 <= i < after.len() implies #[trigger] after[i]
                        == ticket_at(self.next_ticket, after.len() as int, i) && after[i]
                        != ticket by {
                        assert(before[i + 1] == ticket_at(
                            self.next_ticket,
                            before.len() as int,
                            i + 1,
                        ));
                    }
                    assert forall|t: u64| #[trigger]
                        self.parked@.contains_key(t) <==> after.contains(t) by {
                        if before.contains(t) && t != ticket {
                            let j = before.index_of(t);
                            assert(after[j - 1] == t);
                        }
                    }
                }
                Poll::Ready(socket)
            },
            None => {
                self.waker = Some(waker);
                Poll::Pending
            },
        }
    }

    /// Lets a connection wait to be accepted, and hands back the waker of the task that waits for
    /// one. A connection for which there is no room is handed back.
    pub fn push_socket(&mut self, socket: S) -> (r: (Option<S>, Option<W>))
        requires
            old(self).wf(),
        ensures
            final(self).wf(),
            if old(self)@.len() < SOCKET_QUEUE_CAPACITY {
                r.0 is None && final(self)@ == old(self)@.push(socket)
            } else {
                r.0 == Some(socket) && final(self)@ == old(self)@
            },
            r.1 == old(self).waiting(),
            final(self).waiting() is None,
    {
        broadcast use vstd::std_specs::hash::group_hash_axioms;

        let ghost before = queued_tickets(self.sockets);
        let ticket = self.next_ticket;
        let refused = match array_push(&mut self.sockets, ticket) {
            Ok(_) => {
                self.parked.insert(ticket, socket);
                self.next_ticket = ticket.wrapping_add(1);
                proof {
                    let after = queued_tickets(self.sockets);
                    assert forall|t: u64| #[trigger]
                        self.parked@.contains_key(t) <==> after.contains(t) by {
                        if before.contains(t) {
                            let j = before.index_of(t);
                            assert(after[j] == t);
                        }
                        assert(after[before.len() as int] == ticket);
                    }
                }
                None
            },
            Err(_) => Some(socket),
        };
        (refused, self.waker.take())
    }
}

/// Never more connections wait than there is room for.
pub proof fn law_queue_is_bounded<S, W>(q: UtpSocketQueue<S, W>)
    requires
        q.wf(),
    ensures
        q@.len() <= SOCKET_QUEUE_CAPACITY,
{
}

} // verus!
