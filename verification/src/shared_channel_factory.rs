//! A channel factory whose channels all write to one shared channel.

use tokio_io::io::{ReadHalf, WriteHalf};
use vstd::prelude::*;

use crate::poll::Async;
use crate::shared_write_half::SharedWriteHalf;

verus! {

/// Hands every connection the write ends of one and the same channel, so
/// that a single reader sees the traffic of all connections.  It never ends.
#[verifier::reject_recursive_types(T)]
pub struct SharedChannelFactory<T> {
    requests: SharedWriteHalf<T>,
    responses: SharedWriteHalf<T>,
}

impl<T> SharedChannelFactory<T> {
    /// The shared end that requests are written to.
    pub closed spec fn requests(&self) -> SharedWriteHalf<T> {
        self.requests
    }

    /// The shared end that responses are written to.
    pub closed spec fn responses(&self) -> SharedWriteHalf<T> {
        self.responses
    }

    /// Builds the factory around a new channel, `(read ends, write ends)`,
    /// each a pair for requests and responses.  The write ends are shared by
    /// the factory; the read ends are handed back for the one reader.
    pub fn new(
        channel: ((ReadHalf<T>, ReadHalf<T>), (WriteHalf<T>, WriteHalf<T>)),
    ) -> (factory_and_reader: (Self, (ReadHalf<T>, ReadHalf<T>)))
        ensures
            factory_and_reader.1 == channel.0,
            factory_and_reader.0.requests().held() == channel.1.0,
            factory_and_reader.0.responses().held() == channel.1.1,
    {
        let (read_channel, write_channel) = channel;
        let (requests, responses) = write_channel;

        let channel_factory = SharedChannelFactory {
            requests: SharedWriteHalf::from(requests),
            responses: SharedWriteHalf::from(responses),
        };

        (channel_factory, read_channel)
    }

    /// The next channel: clones of the shared write ends, always ready; the
    /// stream never ends.
    pub fn poll(&mut self) -> (result: Result<
        Async<Option<(SharedWriteHalf<T>, SharedWriteHalf<T>)>>,
        (),
    >)
        ensures
            *final(self) == *old(self),
            result matches Ok(Async::Ready(Some((requests, responses)))) && {
                &&& requests.shared() == old(self).requests().shared()
                &&& requests.held() == old(self).requests().held()
                &&& responses.shared() == old(self).responses().shared()
                &&& responses.held() == old(self).responses().held()
            },
    {
        let requests = self.requests.clone();
        let responses = self.responses.clone();
        let write_channel = (requests, responses);

        Ok(Async::Ready(Some(write_channel)))
    }
}

} // verus!
