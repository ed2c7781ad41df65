//! The bytes that have arrived for one socket and wait to be read.

use crossbeam::queue::SegQueue;
use vstd::prelude::*;

verus! {

/// crossbeam's unbounded FIFO queue. Nothing inside it is visible here; what it holds is
/// [`queued_chunks`].
#[verifier::external_type_specification]
#[verifier::external_body]
#[verifier::reject_recursive_types(T)]
pub struct ExSegQueue<T>(crossbeam::queue::SegQueue<T>);

/// The chunks that a `SegQueue` holds, the next one to be popped first.
pub uninterp spec fn queued_chunks(queue: SegQueue<Vec<u8>>) -> Seq<Seq<u8>>;

/// `SegQueue::new`: the new queue holds nothing.
#[verifier::external_body]
fn seg_new() -> (queue: SegQueue<Vec<u8>>)
    ensures
        queued_chunks(queue) == Seq::<Seq<u8>>::empty(),
{
    SegQueue::new()
}

/// `SegQueue::push` on a queue that no one else uses meanwhile: the chunk goes to the back.
#[verifier::external_body]
fn seg_push(queue: &mut SegQueue<Vec<u8>>, chunk: Vec<u8>)
    ensures
        queued_chunks(*final(queue)) == queued_chunks(*old(queue)).push(chunk@),
{
    queue.push(chunk)
}

/// `SegQueue::pop` on a queue that no one else uses meanwhile: the chunk at the front leaves, and
/// an empty queue, and no other, has none to give.
#[verifier::external_body]
fn seg_pop(queue: &mut SegQueue<Vec<u8>>) -> (chunk: Option<Vec<u8>>)
    ensures
        match chunk {
            Some(c) => {
                &&& queued_chunks(*old(queue)).len() > 0
                &&& c@ == queued_chunks(*old(queue))[0]
                &&& queued_chunks(*final(queue)) == queued_chunks(*old(queue)).drop_first()
            },
            None => {
                &&& queued_chunks(*old(queue)).len() == 0
                &&& queued_chunks(*final(queue)).len() == 0
            },
        },
{
    queue.pop().ok()
}

/// `SegQueue::is_empty`: whether the queue holds nothing.
#[verifier::external_body]
fn seg_is_empty(queue: &SegQueue<Vec<u8>>) -> (empty: bool)
    ensures
        empty == (queued_chunks(*queue).len() == 0),
{
    queue.is_empty()
}

/// `SegQueue::len`: how many chunks the queue holds.
#[verifier::external_body]
fn seg_len(queue: &SegQueue<Vec<u8>>) -> (len: usize)
    ensures
        len == queued_chunks(*queue).len(),
{
    queue.len()
}

/// The bytes of a chunk that may be missing.
pub open spec fn bytes_of(front: Option<Seq<u8>>) -> Seq<u8> {
    match front {
        Some(bytes) => bytes,
        None => Seq::<u8>::empty(),
    }
}

/// All bytes of a chunk in front and of the chunks behind it, in the order in which they are read.
pub open spec fn bytes_in(front: Option<Seq<u8>>, chunks: Seq<Seq<u8>>) -> Seq<u8> {
    bytes_of(front) + chunks.flatten()
}

/// What is left of a chunk in front and the chunks behind it once `room` bytes, or all there are,
/// have been taken out: chunks that fit whole are gone, and the one that was cut is in front.
pub open spec fn left_after(front: Option<Seq<u8>>, chunks: Seq<Seq<u8>>, room: nat) -> (
    Option<Seq<u8>>,
    Seq<Seq<u8>>,
)
    decreases chunks.len(), if front is Some { 1nat } else { 0nat },
{
    if room == 0 {
        (front, chunks)
    } else {
        match front {
            Some(c) => if room < c.len() {
                (Some(c.skip(room as int)), chunks)
            } else {
                left_after(None, chunks, (room - c.len()) as nat)
            },
            None => if chunks.len() == 0 {
                (None, chunks)
            } else if room < chunks[0].len() {
                (Some(chunks[0].skip(room as int)), chunks.drop_first())
            } else {
                left_after(None, chunks.drop_first(), (room - chunks[0].len()) as nat)
            },
        }
    }
}

/// The smaller of two numbers.
pub open spec fn least(a: nat, b: nat) -> nat {
    if a <= b {
        a
    } else {
        b
    }
}

/// What a [`DataQueue`] holds: what is left of a chunk that was read in part, and the chunks of
/// which nothing was read yet.
#[verifier::ext_equal]
pub struct QueueView {
    pub front: Option<Seq<u8>>,
    pub chunks: Seq<Seq<u8>>,
}

impl QueueView {
    /// A queue that holds nothing.
    pub open spec fn empty() -> QueueView {
        QueueView { front: None, chunks: Seq::empty() }
    }

    /// All bytes, in the order in which they will be read.
    pub open spec fn bytes(self) -> Seq<u8> {
        bytes_in(self.front, self.chunks)
    }

    /// The queue with one more chunk.
    pub open spec fn pushed(self, chunk: Seq<u8>) -> QueueView {
        QueueView { chunks: self.chunks.push(chunk), ..self }
    }

    /// How many bytes a read into a buffer of `room` bytes moves.
    pub open spec fn readable(self, room: nat) -> nat {
        least(room, self.bytes().len())
    }

    /// What a read into a buffer makes of the buffer.
    pub open spec fn filled(self, buf: Seq<u8>) -> Seq<u8> {
        self.bytes().take(self.readable(buf.len()) as int) + buf.skip(
            self.readable(buf.len()) as int,
        )
    }

    /// The queue after a read into a buffer of `room` bytes.
    pub open spec fn after_read(self, room: nat) -> QueueView {
        let left = left_after(self.front, self.chunks, room);
        QueueView { front: left.0, chunks: left.1 }
    }
}

/// A FIFO of byte chunks that is read as one stream of bytes. A chunk of which only a part was
/// read is kept in front of the others.
pub struct DataQueue {
    queue: SegQueue<Vec<u8>>,
    popped: Option<Vec<u8>>,
}

impl DataQueue {
    /// What the queue holds.
    pub closed spec fn view(&self) -> QueueView {
        QueueView {
            front: match self.popped {
                Some(c) => Some(c@),
                None => None,
            },
            chunks: queued_chunks(self.queue),
        }
    }

    /// An empty queue.
    pub fn new() -> (q: DataQueue)
        ensures
            q@ == QueueView::empty(),
    {
        DataQueue { queue: seg_new(), popped: None }
    }

    /// Appends a chunk.
    pub fn push(&mut self, chunk: Vec<u8>)
        ensures
            final(self)@ == old(self)@.pushed(chunk@),
    {
        seg_push(&mut self.queue, chunk);
    }

    /// How many chunks wait of which nothing was read yet.
    pub fn len(&self) -> (len: usize)
        ensures
            len == self@.chunks.len(),
    {
        seg_len(&self.queue)
    }

    /// Whether no chunk waits of which nothing was read yet.
    pub fn is_empty(&self) -> (empty: bool)
        ensures
            empty == (self@.chunks.len() == 0),
    {
        seg_is_empty(&self.queue)
    }

    /// Moves as many of the waiting bytes into `buf` as there are or as fit, and says how many.
    #[verifier::rlimit(30)]
    pub fn read(&mut self, buf: &mut [u8]) -> (read: usize)
        ensures
            read == old(self)@.readable(old(buf)@.len()),
            final(buf)@ == old(self)@.filled(old(buf)@),
            final(self)@ == old(self)@.after_read(old(buf)@.len()),
            final(self)@.bytes() == old(self)@.bytes().skip(read as int),
    {
        let mut read: usize = 0;
        let ghost all = self@.bytes();
        let ghost target = self@.after_read(buf@.len());
        let ghost buf0 = buf@;
        while read < buf.len() && (!seg_is_empty(&self.queue) || self.popped.is_some())
            invariant
                all == old(self)@.bytes(),
                buf0 == old(buf)@,
                target == old(self)@.after_read(buf0.len()),
                buf@.len() == buf0.len(),
                read <= buf@.len(),
                read <= all.len(),
                buf@ =~= all.take(read as int) + buf0.skip(read as int),
                self@.bytes() =~= all.skip(read as int),
                self@.after_read((buf@.len() - read) as nat) == target,
            decreases self@.chunks.len(), if self@.front is Some { 1nat } else { 0nat },
        {
            let ghost before = self@.bytes();
            let mut chunk: Vec<u8> = match self.popped.take() {
                Some(c) => c,
                None => seg_pop(&mut self.queue).unwrap(),
            };
            let n = copy_into(chunk.as_slice(), buf, read);
            let ghost start = read as int;
            read += n;
            proof {
                assert(all.take(start) + chunk@.take(n as int) =~= all.take(start + n)) by {
                    assert forall|i: int| 0 <= i < n implies chunk@[i] == all[start + i] by {
                        assert(before[i] == all.skip(start)[i]);
                    }
                }
                assert(before.skip(n as int) =~= all.skip(start + n));
            }
            if n < chunk.len() {
                let rest = chunk.split_off(n);
                self.popped = Some(rest);
                return read;
            }
        }
        read
    }
}

/// Copies the start of `chunk` into `buf` from index `at` on, as much as there is or as fits, and
/// says how many bytes that were.
fn copy_into(chunk: &[u8], buf: &mut [u8], at: usize) -> (n: usize)
    requires
        at <= old(buf)@.len(),
    ensures
        n == least(chunk@.len(), (old(buf)@.len() - at) as nat),
        final(buf)@ == old(buf)@.take(at as int) + chunk@.take(n as int) + old(buf)@.skip(at + n),
{
    let room: usize = buf.len() - at;
    let n: usize = if chunk.len() <= room {
        chunk.len()
    } else {
        room
    };
    let ghost buf0 = buf@;
    let mut i: usize = 0;
    while i < n
        invariant
            i <= n <= chunk@.len(),
            at + n <= buf0.len() == buf@.len(),
            buf0.len() <= usize::MAX,
            buf@ =~= buf0.take(at as int) + chunk@.take(i as int) + buf0.skip(at + i),
        decreases n - i,
    {
        buf[at + i] = chunk[i];
        i += 1;
    }
    n
}

} // verus!
