//! An in-memory byte pipe: what is written is read back in the same order.

use std::collections::VecDeque;
use vstd::prelude::*;

use crate::poll::Async;

verus! {

/// A first-in first-out queue of bytes that can be read and written like a
/// transport.  Reads never wait: they take what is there.
pub struct IoQueue {
    buffer: VecDeque<u8>,
}

/// The bytes that a read into a buffer of `capacity` bytes takes from a queue
/// holding `queued`: as many as fit, from the front.
pub open spec fn read_count(queued: Seq<u8>, capacity: nat) -> nat {
    if capacity < queued.len() {
        capacity
    } else {
        queued.len()
    }
}

/// What a buffer of `capacity` bytes holds after a read from a queue holding
/// `queued`: the bytes taken, then zeros up to its end.
pub open spec fn read_filled(queued: Seq<u8>, capacity: nat) -> Seq<u8> {
    let count = read_count(queued, capacity);
    queued.take(count as int) + Seq::new((capacity - count) as nat, |i: int| 0u8)
}

impl View for IoQueue {
    type V = Seq<u8>;

    /// The bytes written and not read yet, oldest first.
    closed spec fn view(&self) -> Seq<u8> {
        self.buffer@
    }
}

impl IoQueue {
    /// An empty queue.
    pub fn new() -> (queue: Self)
        ensures
            queue@ == Seq::<u8>::empty(),
    {
        IoQueue { buffer: VecDeque::new() }
    }

    /// An empty queue with room for `capacity` bytes before it reallocates.
    pub fn with_capacity(capacity: usize) -> (queue: Self)
        ensures
            queue@ == Seq::<u8>::empty(),
    {
        IoQueue { buffer: VecDeque::with_capacity(capacity) }
    }

    /// Moves the oldest bytes into `buffer`, as many as it holds, and fills
    /// the rest of `buffer` with zeros.  Returns the number of bytes moved,
    /// which is 0 when the queue is empty.
    pub fn read(&mut self, buffer: &mut [u8]) -> (result: Result<usize, std::io::Error>)
        ensures
            result == Ok::<usize, std::io::Error>(
                read_count(old(self)@, old(buffer)@.len()) as usize,
            ),
            final(buffer)@ == read_filled(old(self)@, old(buffer)@.len()),
            final(self)@ == old(self)@.skip(read_count(old(self)@, old(buffer)@.len()) as int),
            result matches Ok(count) && {
                &&& count <= old(buffer)@.len()
                &&& count <= old(self)@.len()
                &&& (count == old(buffer)@.len() || count == old(self)@.len())
                &&& final(buffer)@.len() == old(buffer)@.len()
                &&& forall|i: int| 0 <= i < count ==> #[trigger] final(buffer)@[i] == old(self)@[i]
                &&& forall|i: int|
                    count <= i < old(buffer)@.len() ==> #[trigger] final(buffer)@[i] == 0u8
                &&& final(self)@ == old(self)@.subrange(
                    count as int,
                    old(self)@.len() as int,
                )
            },
    {
        let ghost queued = self@;
        let ghost capacity = buffer@.len();
        let count: usize = if buffer.len() < self.buffer.len() {
            buffer.len()
        } else {
            self.buffer.len()
        };
        let mut i: usize = 0;
        while i < count
            invariant
                count == read_count(queued, capacity),
                count <= queued.len(),
                i <= count,
                buffer@.len() == capacity,
                self@ == queued.skip(i as int),
                forall|j: int| 0 <= j < i ==> buffer@[j] == queued[j],
            decreases count - i,
        {
            let byte = self.buffer.pop_front();
            match byte {
                Some(b) => {
                    buffer[i] = b;
                },
                None => {},
            }
            proof {
                assert(queued.skip(i as int).skip(1) =~= queued.skip(i + 1));
            }
            i = i + 1;
        }
        while i < buffer.len()
            invariant
                count == read_count(queued, capacity),
                count <= i <= capacity,
                buffer@.len() == capacity,
                self@ == queued.skip(count as int),
                forall|j: int| 0 <= j < count ==> buffer@[j] == queued[j],
                forall|j: int| count <= j < i ==> buffer@[j] == 0u8,
            decreases capacity - i,
        {
            buffer[i] = 0;
            i = i + 1;
        }
        assert(buffer@ =~= read_filled(queued, capacity));
        Ok(count)
    }

    /// Appends all of `bytes` after the queued bytes and reports them all as
    /// written.
    pub fn write(&mut self, bytes: &[u8]) -> (result: Result<usize, std::io::Error>)
        ensures
            result == Ok::<usize, std::io::Error>(bytes@.len() as usize),
            final(self)@ == old(self)@ + bytes@,
    {
        let ghost queued = self@;
        let mut i: usize = 0;
        while i < bytes.len()
            invariant
                i <= bytes@.len(),
                self@ == queued + bytes@.take(i as int),
            decreases bytes@.len() - i,
        {
            self.buffer.push_back(bytes[i]);
            proof {
                assert(bytes@.take(i + 1) =~= bytes@.take(i as int).push(bytes@[i as int]));
            }
            i = i + 1;
        }
        assert(bytes@.take(bytes@.len() as int) =~= bytes@);
        Ok(bytes.len())
    }

    /// Nothing is buffered on the way in, so flushing always succeeds at once.
    pub fn flush(&mut self) -> (result: Result<(), std::io::Error>)
        ensures
            result == Ok::<(), std::io::Error>(()),
            final(self)@ == old(self)@,
    {
        Ok(())
    }

    /// Shutting the queue down completes at once and keeps its contents.
    pub fn shutdown(&mut self) -> (result: Result<Async<()>, std::io::Error>)
        ensures
            result == Ok::<Async<()>, std::io::Error>(Async::Ready(())),
            final(self)@ == old(self)@,
    {
        Ok(Async::Ready(()))
    }
}

/// The bytes that successive reads into buffers of the given capacities take
/// from a queue holding `queued`, one after the other.
pub open spec fn bytes_taken(queued: Seq<u8>, capacities: Seq<nat>) -> Seq<u8>
    decreases capacities.len(),
{
    if capacities.len() == 0 {
        Seq::empty()
    } else {
        let count = read_count(queued, capacities[0]);
        queued.take(count as int) + bytes_taken(queued.skip(count as int), capacities.drop_first())
    }
}

/// What a queue holding `queued` holds after successive reads into buffers
/// of the given capacities.
pub open spec fn bytes_left(queued: Seq<u8>, capacities: Seq<nat>) -> Seq<u8>
    decreases capacities.len(),
{
    if capacities.len() == 0 {
        queued
    } else {
        let count = read_count(queued, capacities[0]);
        bytes_left(queued.skip(count as int), capacities.drop_first())
    }
}

/// Reads take the bytes in the order they were written, none twice and none
/// skipped: whatever the sizes of the buffers, the bytes taken followed by the
/// bytes left are the bytes that were queued.
pub proof fn lemma_reads_take_bytes_in_order(queued: Seq<u8>, capacities: Seq<nat>)
    ensures
        bytes_taken(queued, capacities) + bytes_left(queued, capacities) == queued,
    decreases capacities.len(),
{
    if capacities.len() > 0 {
        let count = read_count(queued, capacities[0]);
        lemma_reads_take_bytes_in_order(queued.skip(count as int), capacities.drop_first());
        assert(queued.take(count as int) + queued.skip(count as int) =~= queued);
        assert(bytes_taken(queued, capacities) + bytes_left(queued, capacities) =~= queued.take(
            count as int,
        ) + (bytes_taken(queued.skip(count as int), capacities.drop_first()) + bytes_left(
            queued.skip(count as int),
            capacities.drop_first(),
        )));
    }
}

/// Bytes written to an empty queue come back whole from a read into a buffer
/// of the same size, which leaves the queue empty.
pub proof fn lemma_write_then_read(data: Seq<u8>)
    ensures
        read_count(Seq::<u8>::empty() + data, data.len()) == data.len(),
        read_filled(Seq::<u8>::empty() + data, data.len()) == data,
        (Seq::<u8>::empty() + data).skip(data.len() as int) == Seq::<u8>::empty(),
{
    assert(Seq::<u8>::empty() + data =~= data);
    assert(data.take(data.len() as int) + Seq::new(0, |i: int| 0u8) =~= data);
    assert(data.skip(data.len() as int) =~= Seq::<u8>::empty());
}

/// A read moves as many of the oldest bytes as fit: for every queue and every
/// buffer size, the count is the smaller of the two sizes, the buffer starts
/// with that many of the oldest queued bytes, in order, and the rest of the
/// buffer is zero.
pub proof fn lemma_read_moves_as_many_as_fit(queued: Seq<u8>, capacity: nat)
    ensures
        read_count(queued, capacity) <= capacity,
        read_count(queued, capacity) <= queued.len(),
        read_count(queued, capacity) == capacity || read_count(queued, capacity)
            == queued.len(),
        capacity >= queued.len() ==> read_count(queued, capacity) == queued.len(),
        capacity <= queued.len() ==> read_count(queued, capacity) == capacity,
        read_filled(queued, capacity).len() == capacity,
        forall|i: int|
            0 <= i < read_count(queued, capacity) ==> #[trigger] read_filled(queued, capacity)[i]
                == queued[i],
        forall|i: int|
            read_count(queued, capacity) <= i < capacity ==> #[trigger] read_filled(
                queued,
                capacity,
            )[i] == 0u8,
{
}

} // verus!
