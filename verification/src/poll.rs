//! Readiness of an asynchronous operation, as futures 0.1 reports it.

use vstd::prelude::*;

verus! {

/// The outcome of polling: either the value is ready, or the operation must be
/// polled again later.
#[derive(Debug, PartialEq, Eq)]
pub enum Async<T> {
    Ready(T),
    NotReady,
}

/// The outcome of offering an item to a sink: either it was taken, or it is
/// handed back because the sink cannot take it now.
#[derive(Debug, PartialEq, Eq)]
pub enum AsyncSink<T> {
    Ready,
    NotReady(T),
}

} // verus!
