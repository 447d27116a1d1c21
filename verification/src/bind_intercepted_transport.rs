//! The future that binds the protocol to an intercepted connection.

use std::marker::PhantomData;
use vstd::prelude::*;

use crate::error::InterceptError;
use crate::intercepted_transport::InterceptedTransport;
use crate::poll::Async;

verus! {

/// Waits for the protocol's binding future `B` and wraps the transport it
/// gives, so that its errors become `InterceptError`s with channel errors `C`
/// and protocol errors `P`.
pub struct BindInterceptedTransport<C, B, P> {
    bind_transport: B,
    _channel_error: PhantomData<C>,
    _protocol_error: PhantomData<P>,
}

impl<C, B, P> BindInterceptedTransport<C, B, P> {
    /// The protocol's binding future.
    pub closed spec fn bind_transport(&self) -> B {
        self.bind_transport
    }

    /// The protocol's binding future, which each poll goes to.
    pub fn bind_transport_mut(&mut self) -> (bind_transport: &mut B)
        ensures
            *bind_transport == old(self).bind_transport(),
            final(self).bind_transport() == *final(bind_transport),
    {
        &mut self.bind_transport
    }

    /// Hands on what polling the binding future gave: a transport is wrapped,
    /// "not ready" stays so, and an error becomes a binding error.
    pub fn poll<T, E>(&self, bind_poll: Result<Async<T>, E>) -> (result: Result<
        Async<InterceptedTransport<C, E, T>>,
        InterceptError<C, E, P>,
    >)
        ensures
            match bind_poll {
                Ok(Async::Ready(transport)) => result matches Ok(Async::Ready(intercepted))
                    && intercepted.transport() == transport,
                Ok(Async::NotReady) => result == Ok::<
                    Async<InterceptedTransport<C, E, T>>,
                    InterceptError<C, E, P>,
                >(Async::NotReady),
                Err(error) => result == Err::<
                    Async<InterceptedTransport<C, E, T>>,
                    InterceptError<C, E, P>,
                >(InterceptError::BindTransportError(error)),
            },
    {
        match bind_poll {
            Ok(Async::Ready(transport)) => Ok(Async::Ready(InterceptedTransport::from(transport))),
            Ok(Async::NotReady) => Ok(Async::NotReady),
            Err(error) => Err(InterceptError::BindTransportError(error)),
        }
    }
}

impl<C, B, P> From<B> for BindInterceptedTransport<C, B, P> {
    fn from(bind_transport: B) -> (bind: Self)
        ensures
            bind.bind_transport() == bind_transport,
    {
        BindInterceptedTransport {
            bind_transport,
            _channel_error: PhantomData,
            _protocol_error: PhantomData,
        }
    }
}

impl<C, B, P> vstd::std_specs::convert::FromSpecImpl<B> for BindInterceptedTransport<C, B, P> {
    open spec fn obeys_from_spec() -> bool {
        true
    }

    closed spec fn from_spec(bind_transport: B) -> Self {
        BindInterceptedTransport {
            bind_transport,
            _channel_error: PhantomData,
            _protocol_error: PhantomData,
        }
    }
}

} // verus!
