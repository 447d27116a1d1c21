//! The write half of a transport, shared by every connection that writes to
//! it.

use std::sync::{Arc, Mutex};
use tokio_io::io::WriteHalf;
use vstd::prelude::*;

use crate::sync::{clone_arc, new_mutex};

verus! {

/// A write half behind a lock, so that clones of it can all write to the
/// same transport.  The model records which write half went behind the lock.
#[verifier::reject_recursive_types(T)]
pub struct SharedWriteHalf<T> {
    write_half: Arc<Mutex<WriteHalf<T>>>,
    held: Ghost<WriteHalf<T>>,
}

impl<T> SharedWriteHalf<T> {
    /// The locked write half that all clones share.
    pub closed spec fn shared(&self) -> Arc<Mutex<WriteHalf<T>>> {
        self.write_half
    }

    /// The write half that was put behind the lock.
    pub closed spec fn held(&self) -> WriteHalf<T> {
        self.held@
    }

    /// The locked write half, which a write, flush or shutdown locks.
    pub fn write_half(&self) -> (write_half: &Arc<Mutex<WriteHalf<T>>>)
        ensures
            *write_half == self.shared(),
    {
        &self.write_half
    }
}

impl<T> From<WriteHalf<T>> for SharedWriteHalf<T> {
    fn from(write_half: WriteHalf<T>) -> (shared: Self)
        ensures
            shared.held() == write_half,
    {
        let ghost held = write_half;
        SharedWriteHalf { write_half: Arc::new(new_mutex(write_half)), held: Ghost(held) }
    }
}

/// The conversion's result is described by the `ensures` of `from` (the write
/// half it holds); the locked cell itself is opaque (see `new_mutex`), so no
/// whole value is promised here.
impl<T> vstd::std_specs::convert::FromSpecImpl<WriteHalf<T>> for SharedWriteHalf<T> {
    open spec fn obeys_from_spec() -> bool {
        false
    }

    closed spec fn from_spec(write_half: WriteHalf<T>) -> Self {
        vstd::pervasive::arbitrary()
    }
}

impl<T> Clone for SharedWriteHalf<T> {
    fn clone(&self) -> (copy: Self)
        ensures
            copy.shared() == self.shared(),
            copy.held() == self.held(),
    {
        SharedWriteHalf { write_half: clone_arc(&self.write_half), held: Ghost(self.held@) }
    }
}

} // verus!
