//! A server protocol wrapped so that its connections can be intercepted.

use std::sync::{Arc, Mutex};
use vstd::prelude::*;

use crate::intercept_io::InterceptIo;
use crate::sync::{clone_arc, new_mutex};

verus! {

/// Wraps the server protocol `P`: every connection first asks the channel
/// factory `C`, which all connections share, for an interception channel.
#[verifier::reject_recursive_types(C)]
pub struct ProtocolInterceptor<C, P> {
    channel_factory: Arc<Mutex<C>>,
    protocol: Arc<P>,
    held_factory: Ghost<C>,
}

impl<C, P> ProtocolInterceptor<C, P> {
    /// The channel factory that all connections share.
    pub closed spec fn channel_factory(&self) -> Arc<Mutex<C>> {
        self.channel_factory
    }

    /// The channel factory that was put behind the shared lock.
    pub closed spec fn held_factory(&self) -> C {
        self.held_factory@
    }

    /// The wrapped protocol, shared by all connections.
    pub closed spec fn protocol(&self) -> Arc<P> {
        self.protocol
    }

    /// Wraps `protocol`, with connections intercepted through the channels of
    /// `channel_factory`.
    pub fn new(channel_factory: C, protocol: P) -> (interceptor: Self)
        ensures
            interceptor.held_factory() == channel_factory,
            *interceptor.protocol() == protocol,
    {
        let ghost held = channel_factory;
        ProtocolInterceptor {
            channel_factory: Arc::new(new_mutex(channel_factory)),
            protocol: Arc::new(protocol),
            held_factory: Ghost(held),
        }
    }

    /// The future that binds the protocol to the new connection `io`: it
    /// waits for the next channel of the shared factory, then hands the
    /// connection on, intercepted or not.
    pub fn bind_transport<T, E>(&self, io: T) -> (bind: InterceptIo<C, P, T, E>)
        ensures
            bind.wf(),
            bind.channel().stream() == Some(self.channel_factory()),
            bind.shared_protocol() == self.protocol(),
            bind.io() == Some(io),
    {
        let channel_factory = clone_arc(&self.channel_factory);
        let protocol = clone_arc(&self.protocol);

        InterceptIo::new(channel_factory, protocol, io)
    }
}

} // verus!
