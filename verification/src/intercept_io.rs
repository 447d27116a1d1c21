//! The future that decides whether a new connection is intercepted.

use std::marker::PhantomData;
use std::sync::{Arc, Mutex};
use vstd::prelude::*;

use crate::next_item::NextItem;
use crate::poll::Async;

verus! {

/// What to bind the protocol to, once the channel factory has answered.
pub enum Interception<T, I, O> {
    /// A channel came: the connection `io` is intercepted, reads copied to
    /// `read_interceptor` and writes to `write_interceptor`.
    Intercept { io: T, read_interceptor: I, write_interceptor: O },
    /// The channel factory has ended: the connection is used as it is.
    DontIntercept(T),
}

/// Waits for the next channel of a shared channel factory, then hands the
/// connection on, intercepted through that channel or, when the factory has
/// ended, as it is.  `E` is the error that the future reports.
#[verifier::reject_recursive_types(C)]
pub struct InterceptIo<C, P, T, E> {
    channel: NextItem<C>,
    protocol: Arc<P>,
    io: Option<T>,
    _error: PhantomData<E>,
}

impl<C, P, T, E> InterceptIo<C, P, T, E> {
    /// The future for the next channel.
    pub closed spec fn channel(&self) -> NextItem<C> {
        self.channel
    }

    /// The protocol to bind to the connection.
    pub closed spec fn shared_protocol(&self) -> Arc<P> {
        self.protocol
    }

    /// The connection, until it has been handed on.
    pub closed spec fn io(&self) -> Option<T> {
        self.io
    }

    /// While a channel is awaited, the connection is still held.
    pub closed spec fn wf(&self) -> bool {
        self.channel.stream() is Some ==> self.io is Some
    }

    /// A future that takes the next channel of `channel_factory` for `io`,
    /// which `protocol` is then bound to.
    pub fn new(channel_factory: Arc<Mutex<C>>, protocol: Arc<P>, io: T) -> (intercept: Self)
        ensures
            intercept.wf(),
            intercept.channel().stream() == Some(channel_factory),
            intercept.shared_protocol() == protocol,
            intercept.io() == Some(io),
    {
        InterceptIo {
            channel: NextItem::new(channel_factory),
            io: Some(io),
            protocol,
            _error: PhantomData,
        }
    }

    /// The protocol to bind to the connection.
    pub fn protocol(&self) -> (protocol: &Arc<P>)
        ensures
            *protocol == self.shared_protocol(),
    {
        &self.protocol
    }

    /// The channel factory to lock and poll for the next channel, or `None`
    /// once the future has completed.
    pub fn channel_to_poll(&self) -> (stream: Option<&Arc<Mutex<C>>>)
        ensures
            stream is Some <==> self.channel().stream() is Some,
            stream matches Some(s) ==> *s == self.channel().stream()->0,
    {
        self.channel.stream_to_poll()
    }

    /// Completes a poll of the future, given what polling the channel factory
    /// gave.
    ///
    /// "Not ready" and errors are handed on.  A channel makes the connection
    /// intercepted through it; the end of the factory leaves it as it is.
    /// Either way the connection is handed on and the future is complete.
    pub fn poll<I, O, CE>(&mut self, channel_poll: Result<Async<Option<(I, O)>>, CE>) -> (result:
        Result<Async<Interception<T, I, O>>, CE>)
        requires
            old(self).wf(),
            old(self).channel().stream() is Some,
        ensures
            final(self).wf(),
            final(self).shared_protocol() == old(self).shared_protocol(),
            match channel_poll {
                Ok(Async::NotReady) => {
                    &&& result == Ok::<Async<Interception<T, I, O>>, CE>(Async::NotReady)
                    &&& final(self).channel().stream() == old(self).channel().stream()
                    &&& final(self).io() == old(self).io()
                },
                Err(error) => {
                    &&& result == Err::<Async<Interception<T, I, O>>, CE>(error)
                    &&& final(self).channel().stream() is None
                    &&& final(self).io() == old(self).io()
                },
                Ok(Async::Ready(Some((read_interceptor, write_interceptor)))) => {
                    &&& result == Ok::<Async<Interception<T, I, O>>, CE>(
                        Async::Ready(
                            Interception::Intercept {
                                io: old(self).io()->0,
                                read_interceptor,
                                write_interceptor,
                            },
                        ),
                    )
                    &&& final(self).channel().stream() is None
                    &&& final(self).io() is None
                },
                Ok(Async::Ready(None)) => {
                    &&& result == Ok::<Async<Interception<T, I, O>>, CE>(
                        Async::Ready(Interception::DontIntercept(old(self).io()->0)),
                    )
                    &&& final(self).channel().stream() is None
                    &&& final(self).io() is None
                },
            },
    {
        let maybe_channel = match self.channel.poll(channel_poll) {
            Ok(Async::Ready(maybe_channel)) => maybe_channel,
            Ok(Async::NotReady) => return Ok(Async::NotReady),
            Err(error) => return Err(error),
        };
        let io = self.io.take().unwrap();
        let interception = match maybe_channel {
            Some(channel) => {
                let (read_interceptor, write_interceptor) = channel;
                Interception::Intercept { io, read_interceptor, write_interceptor }
            },
            None => Interception::DontIntercept(io),
        };
        Ok(Async::Ready(interception))
    }
}

} // verus!
