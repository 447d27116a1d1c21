//! Copies every byte that passes through a reader or writer to an
//! interceptor writer, keeping what the interceptor does not take yet.

use bytes::BytesMut;
use vstd::prelude::*;

use crate::byte_buffer::{
    bytes_mut_as_slice, bytes_mut_contents, bytes_mut_extend, bytes_mut_len, bytes_mut_new,
    bytes_mut_split_to, bytes_mut_truncate,
};

verus! {

/// Wraps the `intercepted` reader or writer and copies each byte that passes
/// through it to the `interceptor` writer.
///
/// Bytes that the interceptor does not accept at once are kept in a queue and
/// offered to it again, first, before the next read or write.  The model
/// records the bytes that have passed and the bytes that the interceptor has
/// accepted: the accepted bytes followed by the queue are exactly the bytes
/// that have passed, as long as bytes are forwarded only once the queue has
/// drained, which is how reads and writes go through it.
pub struct IoInterceptor<T, S> {
    intercepted: T,
    interceptor: S,
    queue_buffer: BytesMut,
    passed: Ghost<Seq<u8>>,
    delivered: Ghost<Seq<u8>>,
}

impl<T, S> IoInterceptor<T, S> {
    /// The reader or writer that is wrapped.
    pub closed spec fn intercepted(&self) -> T {
        self.intercepted
    }

    /// The writer that receives a copy of every byte.
    pub closed spec fn interceptor(&self) -> S {
        self.interceptor
    }

    /// The bytes waiting to be offered to the interceptor again, oldest first.
    pub closed spec fn queued(&self) -> Seq<u8> {
        bytes_mut_contents(self.queue_buffer)
    }

    /// Every byte that has passed through the wrapped reader or writer, in
    /// order.
    pub closed spec fn passed(&self) -> Seq<u8> {
        self.passed@
    }

    /// Every byte that the interceptor has accepted, in order.
    pub closed spec fn delivered(&self) -> Seq<u8> {
        self.delivered@
    }

    /// The accepted bytes followed by the queued ones are the bytes that
    /// passed: nothing is lost, repeated or reordered.
    pub closed spec fn wf(&self) -> bool {
        self.delivered@ + bytes_mut_contents(self.queue_buffer) == self.passed@
    }

    /// An interceptor that has seen no bytes yet.
    pub fn new(intercepted: T, interceptor: S) -> (io: Self)
        ensures
            io.wf(),
            io.intercepted() == intercepted,
            io.interceptor() == interceptor,
            io.queued() == Seq::<u8>::empty(),
            io.passed() == Seq::<u8>::empty(),
            io.delivered() == Seq::<u8>::empty(),
    {
        IoInterceptor {
            intercepted,
            interceptor,
            queue_buffer: bytes_mut_new(),
            passed: Ghost(Seq::empty()),
            delivered: Ghost(Seq::empty()),
        }
    }

    /// The wrapped reader or writer, which a read or write goes to first.
    pub fn intercepted_mut(&mut self) -> (intercepted: &mut T)
        ensures
            *intercepted == old(self).intercepted(),
            final(self).intercepted() == *final(intercepted),
            final(self).interceptor() == old(self).interceptor(),
            final(self).queued() == old(self).queued(),
            final(self).passed() == old(self).passed(),
            final(self).delivered() == old(self).delivered(),
            final(self).wf() == old(self).wf(),
    {
        &mut self.intercepted
    }

    /// The interceptor writer, which the bytes that passed are offered to.
    pub fn interceptor_mut(&mut self) -> (interceptor: &mut S)
        ensures
            *interceptor == old(self).interceptor(),
            final(self).interceptor() == *final(interceptor),
            final(self).intercepted() == old(self).intercepted(),
            final(self).queued() == old(self).queued(),
            final(self).passed() == old(self).passed(),
            final(self).delivered() == old(self).delivered(),
            final(self).wf() == old(self).wf(),
    {
        &mut self.interceptor
    }

    /// Whether bytes are waiting to be offered to the interceptor.
    pub fn has_queued_data(&self) -> (queued: bool)
        ensures
            queued == (self.queued().len() > 0),
    {
        bytes_mut_len(&self.queue_buffer) > 0
    }

    /// The interceptor together with the queued bytes, which are to be written
    /// to it next.
    pub fn interceptor_and_queued_data(&mut self) -> (parts: (&mut S, &[u8]))
        ensures
            *parts.0 == old(self).interceptor(),
            parts.1@ == old(self).queued(),
            final(self).interceptor() == *final(parts.0),
            final(self).intercepted() == old(self).intercepted(),
            final(self).queued() == old(self).queued(),
            final(self).passed() == old(self).passed(),
            final(self).delivered() == old(self).delivered(),
            final(self).wf() == old(self).wf(),
    {
        (&mut self.interceptor, bytes_mut_as_slice(&self.queue_buffer))
    }

    /// Records that the interceptor accepted the first `written` queued bytes:
    /// they leave the queue and count as delivered.
    pub fn queued_data_written(&mut self, written: usize)
        requires
            written <= old(self).queued().len(),
        ensures
            old(self).wf() ==> final(self).wf(),
            final(self).queued() == old(self).queued().skip(written as int),
            final(self).delivered() == old(self).delivered() + old(self).queued().take(
                written as int,
            ),
            final(self).delivered() + final(self).queued() == old(self).delivered() + old(
                self,
            ).queued(),
            final(self).passed() == old(self).passed(),
            final(self).intercepted() == old(self).intercepted(),
            final(self).interceptor() == old(self).interceptor(),
    {
        let ghost queued = self.queued();
        let _written_part = bytes_mut_split_to(&mut self.queue_buffer, written);
        proof {
            self.delivered@ = self.delivered@ + queued.take(written as int);
            assert(queued.take(written as int) + queued.skip(written as int) =~= queued);
            assert(self.delivered@ + self.queued() =~= old(self).delivered() + queued);
        }
    }

    /// Ends a round of writing queued bytes: the queue is emptied.  Queued
    /// bytes that are still there are dropped and never reach the
    /// interceptor, so the model stays whole exactly when the queue was
    /// already empty, as it is after a round that wrote everything.
    pub fn finish_queued_data(&mut self)
        ensures
            old(self).wf() ==> (final(self).wf() <==> old(self).queued().len() == 0),
            final(self).queued() == Seq::<u8>::empty(),
            final(self).delivered() == old(self).delivered(),
            final(self).passed() == old(self).passed(),
            final(self).intercepted() == old(self).intercepted(),
            final(self).interceptor() == old(self).interceptor(),
    {
        bytes_mut_truncate(&mut self.queue_buffer, 0);
        assert(self.queued() =~= Seq::<u8>::empty());
        assert(self.delivered@ + self.queued() =~= self.delivered@);
        proof {
            if old(self).wf() && old(self).queued().len() > 0 {
                assert((self.delivered@ + old(self).queued()).len() > self.delivered@.len());
            }
        }
    }

    /// What forwarding `data` does, when offering it to the interceptor gave
    /// `written` and the call returned `result`.
    ///
    /// The bytes that the interceptor did not accept are queued after those
    /// already waiting.  An error of the interceptor is handed on, with all of
    /// `data` queued; otherwise all of `data` counts as done.  The accepted
    /// bytes and the queue still make up the bytes that passed when nothing
    /// was waiting before, or when the interceptor took nothing; bytes it
    /// takes while older ones wait overtake them.
    pub open spec fn forwards<E>(
        before: Self,
        after: Self,
        data: Seq<u8>,
        written: Result<usize, E>,
        result: Result<usize, E>,
    ) -> bool {
        &&& after.passed() == before.passed() + data
        &&& after.intercepted() == before.intercepted()
        &&& after.interceptor() == before.interceptor()
        &&& match written {
            Ok(n) => {
                &&& result == Ok::<usize, E>(data.len() as usize)
                &&& after.delivered() == before.delivered() + data.take(n as int)
                &&& after.queued() == before.queued() + data.skip(n as int)
                &&& before.wf() && (before.queued().len() == 0 || n == 0) ==> after.wf()
            },
            Err(e) => {
                &&& result == Err::<usize, E>(e)
                &&& after.delivered() == before.delivered()
                &&& after.queued() == before.queued() + data
                &&& before.wf() ==> after.wf()
            },
        }
    }

    /// Records that `data` passed through the wrapped reader or writer and
    /// that offering it to the interceptor gave `written` (see `forwards`).
    pub fn forward_data<E>(&mut self, data: &[u8], written: Result<usize, E>) -> (result: Result<
        usize,
        E,
    >)
        requires
            old(self).queued().len() + data@.len() <= isize::MAX,
            written matches Ok(n) ==> n <= data@.len(),
        ensures
            Self::forwards(*old(self), *final(self), data@, written, result),
            written is Ok ==> result == Ok::<usize, E>(data@.len() as usize),
            written matches Err(e) ==> result == Err::<usize, E>(e),
    {
        let length = data.len();
        let ghost old_delivered = self.delivered@;
        let ghost old_queued = self.queued();
        let (bytes_written, error) = match written {
            Ok(bytes_written) => (bytes_written, None),
            Err(error) => (0, Some(error)),
        };
        if bytes_written != length {
            let rest = slice_from(data, bytes_written);
            bytes_mut_extend(&mut self.queue_buffer, rest);
        }
        proof {
            self.passed@ = self.passed@ + data@;
            self.delivered@ = old_delivered + data@.take(bytes_written as int);
            assert(data@.take(bytes_written as int) + data@.skip(bytes_written as int) =~= data@);
            if bytes_written == length {
                assert(data@.skip(bytes_written as int) =~= Seq::<u8>::empty());
                assert(old_queued + data@.skip(bytes_written as int) =~= old_queued);
            }
            assert(data@.take(0) =~= Seq::<u8>::empty());
            assert(data@.skip(0) =~= data@);
            assert(old_delivered + Seq::<u8>::empty() =~= old_delivered);
            if old(self).wf() && (old_queued.len() == 0 || bytes_written == 0) {
                if old_queued.len() == 0 {
                    assert(old_queued + data@.skip(bytes_written as int) =~= data@.skip(
                        bytes_written as int,
                    ));
                    assert(old_delivered + data@.take(bytes_written as int) + data@.skip(
                        bytes_written as int,
                    ) =~= old_delivered + data@);
                } else {
                    assert(old_delivered + (old_queued + data@) =~= (old_delivered + old_queued)
                        + data@);
                }
                assert(self.delivered@ + self.queued() =~= self.passed@);
            }
        }
        match error {
            Some(error) => Err(error),
            None => Ok(length),
        }
    }

    /// The interceptor together with the first `count` bytes of `buffer`, the
    /// bytes that just passed and are to be offered to it.
    pub fn interceptor_and_prefix<'a, 'b>(&'a mut self, buffer: &'b [u8], count: usize) -> (parts: (
        &'a mut S,
        &'b [u8],
    ))
        requires
            count <= buffer@.len(),
        ensures
            *parts.0 == old(self).interceptor(),
            parts.1@ == buffer@.take(count as int),
            final(self).interceptor() == *final(parts.0),
            final(self).intercepted() == old(self).intercepted(),
            final(self).queued() == old(self).queued(),
            final(self).passed() == old(self).passed(),
            final(self).delivered() == old(self).delivered(),
            final(self).wf() == old(self).wf(),
    {
        let prefix = vstd::slice::slice_subrange(buffer, 0, count);
        assert(prefix@ =~= buffer@.take(count as int));
        (&mut self.interceptor, prefix)
    }

    /// Records that the first `count` bytes of `buffer` passed through the
    /// wrapped reader or writer (as a read or write reports) and that
    /// offering just those bytes to the interceptor gave `written`.
    pub fn forward_prefix<E>(&mut self, buffer: &[u8], count: usize, written: Result<
        usize,
        E,
    >) -> (result: Result<usize, E>)
        requires
            count <= buffer@.len(),
            old(self).queued().len() + count <= isize::MAX,
            written matches Ok(n) ==> n <= count,
        ensures
            Self::forwards(*old(self), *final(self), buffer@.take(count as int), written, result),
            written is Ok ==> result == Ok::<usize, E>(count),
            written matches Err(e) ==> result == Err::<usize, E>(e),
    {
        let data = vstd::slice::slice_subrange(buffer, 0, count);
        assert(data@ =~= buffer@.take(count as int));
        self.forward_data(data, written)
    }
}

/// The bytes of `data` from `start` to its end.
fn slice_from(data: &[u8], start: usize) -> (rest: &[u8])
    requires
        start <= data@.len(),
    ensures
        rest@ == data@.skip(start as int),
{
    vstd::slice::slice_subrange(data, start, data.len())
}

/// Once the queue is empty, the interceptor has accepted exactly the bytes
/// that passed through the wrapped reader or writer, in the same order.
pub proof fn lemma_drained_interceptor_has_all_bytes<T, S>(io: IoInterceptor<T, S>)
    requires
        io.wf(),
        io.queued().len() == 0,
    ensures
        io.delivered() == io.passed(),
{
    assert(io.delivered() + io.queued() =~= io.delivered());
}

/// A whole read or write through the interceptor keeps every byte: starting
/// from a whole model, once the queued bytes have all been accepted and the
/// bytes that then passed have been forwarded, the accepted bytes followed
/// by the queue are all the earlier bytes followed by the new ones.  What the
/// interceptor accepted of the new bytes comes right after all the earlier
/// bytes.
pub proof fn lemma_read_or_write_keeps_every_byte<T, S, E>(
    start: IoInterceptor<T, S>,
    drained: IoInterceptor<T, S>,
    finished: IoInterceptor<T, S>,
    data: Seq<u8>,
    written: Result<usize, E>,
    result: Result<usize, E>,
)
    requires
        start.wf(),
        drained.passed() == start.passed(),
        drained.delivered() + drained.queued() == start.delivered() + start.queued(),
        drained.queued().len() == 0,
        IoInterceptor::forwards(drained, finished, data, written, result),
    ensures
        finished.wf(),
        finished.passed() == start.passed() + data,
        finished.delivered() + finished.queued() == start.passed() + data,
        written matches Ok(n) ==> finished.delivered() == start.passed() + data.take(n as int),
        written is Err ==> finished.delivered() == start.passed(),
{
    assert(drained.delivered() + drained.queued() =~= drained.delivered());
    assert(drained.wf());
    lemma_drained_interceptor_has_all_bytes(drained);
    assert(finished.delivered() + finished.queued() =~= finished.passed());
}

/// Forwarding reports what passed, not what the interceptor took: whenever
/// the interceptor accepted any number of the bytes (none included), the
/// result is the count of all the bytes that passed; an error of the
/// interceptor is handed on as it is.  Nothing that passed is lost either:
/// what the interceptor did not take joins the queue.
pub proof fn lemma_forward_reports_all_that_passed<T, S, E>(
    before: IoInterceptor<T, S>,
    after: IoInterceptor<T, S>,
    data: Seq<u8>,
    written: Result<usize, E>,
    result: Result<usize, E>,
)
    requires
        data.len() <= usize::MAX,
        written matches Ok(n) ==> n <= data.len(),
        IoInterceptor::forwards(before, after, data, written, result),
    ensures
        written is Ok ==> result == Ok::<usize, E>(data.len() as usize),
        written matches Err(e) ==> result == Err::<usize, E>(e),
        written matches Ok(n) ==> after.queued().len() == before.queued().len() + data.len() - n,
        written is Err ==> after.queued().len() == before.queued().len() + data.len(),
        after.passed().len() == before.passed().len() + data.len(),
{
}

} // verus!
