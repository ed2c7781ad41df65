//! What the event loop of a UDP socket does next.

use crate::thread::StopFlag;
use vstd::prelude::*;

verus! {

/// What one of the operating system's events says of a socket.
#[derive(Clone, Copy, Debug, PartialEq, Eq, Structural)]
pub struct Readiness {
    pub readable: bool,
    pub writable: bool,
}

/// What the event loop's last step has ended with. `E` is an error of the operating system.
#[derive(Debug)]
pub enum LoopEvent<E> {
    /// A round is to begin.
    Round,
    /// Polling has brought these events, in their order.
    Polled(Vec<Readiness>),
    /// Polling has failed, and has brought no events.
    PollFailed(E),
    /// The failure was reported.
    Reported,
    /// The socket was read, and whether until it had nothing left.
    Read(bool),
    /// What waited to be written was seen to.
    Written,
}

/// The event loop's next step.
#[derive(Debug, PartialEq, Eq)]
pub enum LoopAction<E> {
    /// End the loop.
    End,
    /// Begin a round.
    Round,
    /// Poll the operating system for events.
    Poll,
    /// Report this failure.
    Report(E),
    /// Read from the socket.
    Read,
    /// See to what waits to be written.
    Write,
}

/// The event loop of a UDP socket. In each round it polls for events, reports a failure to do so,
/// then reads if the socket was said to be readable and has not been read empty since, then writes
/// if it was said to be writable and has not been written since.
#[derive(Debug)]
pub struct EventLoop {
    pub read_ready: bool,
    pub send_ready: bool,
}

impl EventLoop {
    /// What is known of the socket's readiness after some events: what was known before, and what
    /// any of the events says.
    pub open spec fn observe(self, events: Seq<Readiness>) -> EventLoop {
        EventLoop {
            read_ready: self.read_ready || exists|j: int|
                0 <= j < events.len() && (#[trigger] events[j]).readable,
            send_ready: self.send_ready || exists|j: int|
                0 <= j < events.len() && (#[trigger] events[j]).writable,
        }
    }

    /// The step that follows reading, or follows polling where there is nothing to read.
    pub open spec fn write_or_round<E>(self) -> LoopAction<E> {
        if self.send_ready {
            LoopAction::Write
        } else {
            LoopAction::Round
        }
    }

    /// The step that follows polling.
    pub open spec fn read_or_later<E>(self) -> LoopAction<E> {
        if self.read_ready {
            LoopAction::Read
        } else {
            self.write_or_round()
        }
    }

    /// The loop and its next step after an event; `stop` is whether the loop was asked to end.
    pub open spec fn step<E>(self, stop: bool, event: LoopEvent<E>) -> (EventLoop, LoopAction<E>) {
        match event {
            LoopEvent::Round => (
                self,
                if stop {
                    LoopAction::End
                } else {
                    LoopAction::Poll
                },
            ),
            LoopEvent::Polled(events) => (
                self.observe(events@),
                self.observe(events@).read_or_later(),
            ),
            LoopEvent::PollFailed(e) => (self, LoopAction::Report(e)),
            LoopEvent::Reported => (self, self.read_or_later()),
            LoopEvent::Read(emptied) => (
                EventLoop { read_ready: !emptied, ..self },
                self.write_or_round(),
            ),
            LoopEvent::Written => (EventLoop { send_ready: false, ..self }, LoopAction::Round),
        }
    }

    /// A loop on a socket of which nothing is known.
    pub fn new() -> (l: EventLoop)
        ensures
            !l.read_ready,
            !l.send_ready,
    {
        EventLoop { read_ready: false, send_ready: false }
    }

    /// The step that follows an event.
    pub fn run<E>(&mut self, stop_flag: &StopFlag, event: LoopEvent<E>) -> (action: LoopAction<E>)
        ensures
            (*final(self), action) == old(self).step(stop_flag@, event),
    {
        match event {
            LoopEvent::Round => {
                if stop_flag.is_set() {
                    LoopAction::End
                } else {
                    LoopAction::Poll
                }
            },
            LoopEvent::Polled(events) => {
                let mut i: usize = 0;
                while i < events.len()
                    invariant
                        i <= events@.len(),
                        self.read_ready <==> old(self).read_ready || exists|j: int|
                            0 <= j < i && (#[trigger] events@[j]).readable,
                        self.send_ready <==> old(self).send_ready || exists|j: int|
                            0 <= j < i && (#[trigger] events@[j]).writable,
                    decreases events@.len() - i,
                {
                    self.read_ready = self.read_ready || events[i].readable;
                    self.send_ready = self.send_ready || events[i].writable;
                    i += 1;
                }
                self.next_after_poll()
            },
            LoopEvent::PollFailed(e) => LoopAction::Report(e),
            LoopEvent::Reported => self.next_after_poll(),
            LoopEvent::Read(emptied) => {
                self.read_ready = !emptied;
                self.next_after_read()
            },
            LoopEvent::Written => {
                self.send_ready = false;
                LoopAction::Round
            },
        }
    }

    /// The step that follows polling.
    fn next_after_poll<E>(&self) -> (action: LoopAction<E>)
        ensures
            action == self.read_or_later::<E>(),
    {
        if self.read_ready {
            LoopAction::Read
        } else {
            self.next_after_read()
        }
    }

    /// The step that follows reading, or follows polling where there is nothing to read.
    fn next_after_read<E>(&self) -> (action: LoopAction<E>)
        ensures
            action == self.write_or_round::<E>(),
    {
        if self.send_ready {
            LoopAction::Write
        } else {
            LoopAction::Round
        }
    }
}

} // verus!
