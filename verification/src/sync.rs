//! The shared, locked cells that connections use to reach one channel factory.

use std::sync::{Arc, Mutex};
use vstd::prelude::*;

verus! {

#[verifier::external_type_specification]
#[verifier::external_body]
#[verifier::reject_recursive_types(T)]
pub struct ExMutex<T: ?Sized>(Mutex<T>);

/// Calls `Mutex::new`, which puts `value` in a new, unlocked mutex.
///
/// Nothing is stated of the result: what a mutex holds is not visible to
/// Verus, and a name for it would need a type parameter, which names for
/// outside results do not take here.
#[verifier::external_body]
pub(crate) fn new_mutex<T>(value: T) -> Mutex<T> {
    Mutex::new(value)
}

/// Calls `<Arc<T> as Clone>::clone`, which std documents as another pointer to
/// the same allocation: the clone points to the same value.
#[verifier::external_body]
pub(crate) fn clone_arc<T>(shared: &Arc<T>) -> (copy: Arc<T>)
    ensures
        copy == *shared,
{
    shared.clone()
}

} // verus!
