//! The receiving half of a socket.

use crate::data_queue::{DataQueue, QueueView};
use crate::io::Poll;
use vstd::prelude::*;

verus! {

/// The bytes that a socket has received, and the task that waits for more. `W` wakes a task.
pub struct UtpReader<W> {
    pub data: DataQueue,
    pub waker: Option<W>,
    pub eof: bool,
}

/// What a [`UtpReader`] holds.
#[verifier::ext_equal]
pub struct ReaderView<W> {
    pub data: QueueView,
    pub waker: Option<W>,
    pub eof: bool,
}

impl<W> ReaderView<W> {
    /// A reader that has received nothing.
    pub open spec fn initial() -> Self {
        ReaderView { data: QueueView::empty(), waker: None, eof: false }
    }

    /// What polling with a buffer of `room` bytes gives: how many bytes were moved; or zero, once the
    /// peer has ended the stream; or word that the task has to wait.
    pub open spec fn poll_result(self, room: nat) -> Poll<usize> {
        if self.data.readable(room) == 0 && !self.eof {
            Poll::Pending
        } else {
            Poll::Ready(self.data.readable(room) as usize)
        }
    }

    /// The reader after a task has polled it. A task that has to wait takes the place of one that
    /// waited before.
    pub open spec fn polled(self, waker: W, room: nat) -> Self {
        ReaderView {
            data: self.data.after_read(room),
            waker: if self.poll_result(room) is Pending {
                Some(waker)
            } else {
                self.waker
            },
            ..self
        }
    }

    /// The reader once bytes have come. No task waits any more.
    pub open spec fn received(self, bytes: Seq<u8>) -> Self {
        ReaderView { data: self.data.pushed(bytes), waker: None, ..self }
    }

    /// The reader once the peer has ended the stream.
    pub open spec fn ended(self) -> Self {
        ReaderView { eof: true, ..self }
    }

    /// The reader once the task that waited has been woken.
    pub open spec fn woken(self) -> Self {
        ReaderView { waker: None, ..self }
    }
}

impl<W> UtpReader<W> {
    /// What the reader holds.
    pub open spec fn view(&self) -> ReaderView<W> {
        ReaderView { data: self.data@, waker: self.waker, eof: self.eof }
    }

    /// A reader that has received nothing.
    pub fn new() -> (r: UtpReader<W>)
        ensures
            r@ == ReaderView::<W>::initial(),
    {
        UtpReader { data: DataQueue::new(), waker: None, eof: false }
    }

    /// Moves received bytes into `buf`. Where there is nothing to move, the answer is zero once the
    /// peer has ended the stream; before that, the task has to wait, and `waker` is kept in place of
    /// the one that was kept before.
    pub fn poll_read(&mut self, waker: W, buf: &mut [u8]) -> (r: Poll<usize>)
        ensures
            r == old(self)@.poll_result(old(buf)@.len()),
            final(buf)@ == old(self)@.data.filled(old(buf)@),
            final(self)@ == old(self)@.polled(waker, old(buf)@.len()),
            final(self)@.data.bytes() == old(self)@.data.bytes().skip(
                if old(buf)@.len() <= old(self)@.data.bytes().len() {
                    old(buf)@.len() as int
                } else {
                    old(self)@.data.bytes().len() as int
                },
            ),
            final(self).eof == old(self).eof,
    {
        let read = self.data.read(buf);
        if read == 0 {
            if self.eof {
                Poll::Ready(0)
            } else {
                self.waker = Some(waker);
                Poll::Pending
            }
        } else {
            Poll::Ready(read)
        }
    }

    /// Takes in received bytes, and hands back the waker of the task that waited for them.
    pub fn push(&mut self, data: &[u8]) -> (woken: Option<W>)
        ensures
            final(self)@ == old(self)@.received(data@),
            final(self)@.data.chunks == old(self)@.data.chunks.push(data@),
            final(self)@.data.front == old(self)@.data.front,
            final(self).waker is None,
            final(self).eof == old(self).eof,
            woken == old(self)@.waker,
    {
        self.data.push(vstd::slice::slice_to_vec(data));
        self.waker.take()
    }

    /// Hands back the waker of the task that waits for bytes.
    pub fn wake(&mut self) -> (woken: Option<W>)
        ensures
            final(self)@ == old(self)@.woken(),
            woken == old(self)@.waker,
    {
        self.waker.take()
    }

    /// Notes that the peer has ended the stream. No task is woken.
    pub fn set_eof(&mut self)
        ensures
            final(self)@ == old(self)@.ended(),
            final(self).eof,
            final(self).waker == old(self).waker,
            final(self)@.data == old(self)@.data,
    {
        self.eof = true;
    }

    /// Whether the peer has ended the stream.
    pub fn eof(&self) -> (b: bool)
        ensures
            b == self@.eof,
    {
        self.eof
    }
}

} // verus!
