//! The transport of an intercepted protocol, with its errors wrapped.

use std::marker::PhantomData;
use vstd::prelude::*;

use crate::error::InterceptError;
use crate::poll::{Async, AsyncSink};

verus! {

/// The message transport of a protocol bound to an intercepted connection.
/// Messages pass unchanged; its errors become `InterceptError`s, whose
/// channel and binding errors are `C` and `B`.
pub struct InterceptedTransport<C, B, T> {
    transport: T,
    _bind_error: PhantomData<B>,
    _channel_error: PhantomData<C>,
}

impl<C, B, T> InterceptedTransport<C, B, T> {
    /// The protocol's own transport.
    pub closed spec fn transport(&self) -> T {
        self.transport
    }

    /// The protocol's own transport, which receiving and sending go to.
    pub fn transport_mut(&mut self) -> (transport: &mut T)
        ensures
            *transport == old(self).transport(),
            final(self).transport() == *final(transport),
    {
        &mut self.transport
    }

    /// Hands on what receiving from the protocol's transport gave; its error
    /// becomes a receive error.
    pub fn poll<I, E>(&self, transport_poll: Result<Async<Option<I>>, E>) -> (result: Result<
        Async<Option<I>>,
        InterceptError<C, B, E>,
    >)
        ensures
            result == (match transport_poll {
                Ok(polled) => Ok(polled),
                Err(error) => Err(InterceptError::<C, B, E>::ProtocolReceiveError(error)),
            }),
    {
        match transport_poll {
            Ok(polled) => Ok(polled),
            Err(error) => Err(InterceptError::ProtocolReceiveError(error)),
        }
    }

    /// Hands on what offering a message to the protocol's transport gave; its
    /// error becomes a send error.
    pub fn start_send<I, E>(&self, transport_send: Result<AsyncSink<I>, E>) -> (result: Result<
        AsyncSink<I>,
        InterceptError<C, B, E>,
    >)
        ensures
            result == (match transport_send {
                Ok(sent) => Ok(sent),
                Err(error) => Err(InterceptError::<C, B, E>::ProtocolSendError(error)),
            }),
    {
        match transport_send {
            Ok(sent) => Ok(sent),
            Err(error) => Err(InterceptError::ProtocolSendError(error)),
        }
    }

    /// Hands on what completing the sends of the protocol's transport gave;
    /// its error becomes a send error.
    pub fn poll_complete<E>(&self, transport_complete: Result<Async<()>, E>) -> (result: Result<
        Async<()>,
        InterceptError<C, B, E>,
    >)
        ensures
            result == (match transport_complete {
                Ok(completed) => Ok(completed),
                Err(error) => Err(InterceptError::<C, B, E>::ProtocolSendError(error)),
            }),
    {
        match transport_complete {
            Ok(completed) => Ok(completed),
            Err(error) => Err(InterceptError::ProtocolSendError(error)),
        }
    }
}

impl<C, B, T> From<T> for InterceptedTransport<C, B, T> {
    fn from(transport: T) -> (intercepted: Self)
        ensures
            intercepted.transport() == transport,
    {
        InterceptedTransport { transport, _bind_error: PhantomData, _channel_error: PhantomData }
    }
}

impl<C, B, T> vstd::std_specs::convert::FromSpecImpl<T> for InterceptedTransport<C, B, T> {
    open spec fn obeys_from_spec() -> bool {
        true
    }

    closed spec fn from_spec(transport: T) -> Self {
        InterceptedTransport { transport, _bind_error: PhantomData, _channel_error: PhantomData }
    }
}

} // verus!
