//! A future for the next item of a stream that several tasks share.

use std::sync::{Arc, Mutex};
use vstd::prelude::*;

use crate::poll::Async;

verus! {

/// Waits for one item of a shared stream.
///
/// Each poll locks the stream and polls it once.  The outcome decides what
/// happens to the future: an item (or the end of the stream) or an error
/// completes it and lets go of the stream; "not ready" keeps it for the next
/// poll.  A completed future must not be polled again.
#[verifier::reject_recursive_types(S)]
pub struct NextItem<S> {
    stream: Option<Arc<Mutex<S>>>,
}

impl<S> NextItem<S> {
    /// The stream that the next poll goes to, or `None` once the future has
    /// completed.
    pub closed spec fn stream(&self) -> Option<Arc<Mutex<S>>> {
        self.stream
    }

    /// A future for the next item of `stream`.
    pub fn new(stream: Arc<Mutex<S>>) -> (next: Self)
        ensures
            next.stream() == Some(stream),
    {
        NextItem { stream: Some(stream) }
    }

    /// The stream to lock and poll, or `None` when the future has completed.
    pub fn stream_to_poll(&self) -> (stream: Option<&Arc<Mutex<S>>>)
        ensures
            stream is Some <==> self.stream() is Some,
            stream matches Some(s) ==> *s == self.stream()->0,
    {
        match &self.stream {
            Some(stream) => Some(stream),
            None => None,
        }
    }

    /// Completes a poll of the future, given what polling the stream gave.
    ///
    /// An item, the end of the stream and an error are handed on and complete
    /// the future; "not ready" is handed on and keeps the stream.
    pub fn poll<I, E>(&mut self, stream_poll: Result<Async<Option<I>>, E>) -> (result: Result<
        Async<Option<I>>,
        E,
    >)
        requires
            old(self).stream() is Some,
        ensures
            result == stream_poll,
            final(self).stream() == (match stream_poll {
                Ok(Async::NotReady) => old(self).stream(),
                _ => None,
            }),
    {
        let stream = self.stream.take();
        match stream_poll {
            Ok(Async::Ready(item)) => Ok(Async::Ready(item)),
            Ok(Async::NotReady) => {
                self.stream = stream;
                Ok(Async::NotReady)
            },
            Err(error) => Err(error),
        }
    }
}

} // verus!
