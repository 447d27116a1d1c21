//! A transport that is either used as it is or split and intercepted.

use tokio_io::io::{ReadHalf, WriteHalf};
use vstd::prelude::*;

use crate::io::{IoChannel, IoInterceptor};

verus! {

/// The transport that a protocol is bound to: the connection itself, or its
/// two halves with every byte read copied to `I` and every byte written
/// copied to `O`.
#[verifier::reject_recursive_types(T)]
pub enum PossiblyInterceptedIo<T, I, O> {
    NotIntercepted(T),
    Intercepted(IoChannel<IoInterceptor<ReadHalf<T>, I>, IoInterceptor<WriteHalf<T>, O>>),
}

impl<T, I, O> PossiblyInterceptedIo<T, I, O> {
    /// Intercepts a connection that has been split into `read` and `write`:
    /// reads go through an interceptor that copies them to
    /// `read_interceptor`, writes through one that copies them to
    /// `write_interceptor`.  Neither has seen a byte yet.
    pub fn intercept(
        read: ReadHalf<T>,
        write: WriteHalf<T>,
        read_interceptor: I,
        write_interceptor: O,
    ) -> (io: Self)
        ensures
            io matches PossiblyInterceptedIo::Intercepted(channel) && {
                &&& channel.input().wf()
                &&& channel.input().intercepted() == read
                &&& channel.input().interceptor() == read_interceptor
                &&& channel.input().queued() == Seq::<u8>::empty()
                &&& channel.input().passed() == Seq::<u8>::empty()
                &&& channel.input().delivered() == Seq::<u8>::empty()
                &&& channel.output().wf()
                &&& channel.output().intercepted() == write
                &&& channel.output().interceptor() == write_interceptor
                &&& channel.output().queued() == Seq::<u8>::empty()
                &&& channel.output().passed() == Seq::<u8>::empty()
                &&& channel.output().delivered() == Seq::<u8>::empty()
            },
    {
        let input = IoInterceptor::new(read, read_interceptor);
        let output = IoInterceptor::new(write, write_interceptor);
        let intercepted_io = IoChannel::new(input, output);

        PossiblyInterceptedIo::Intercepted(intercepted_io)
    }

    /// Uses the connection as it is.
    pub fn dont_intercept(io: T) -> (result: Self)
        ensures
            result == PossiblyInterceptedIo::<T, I, O>::NotIntercepted(io),
    {
        PossiblyInterceptedIo::NotIntercepted(io)
    }
}

} // verus!
