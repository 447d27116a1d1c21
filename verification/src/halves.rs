//! The two halves that tokio-io splits a transport into.

use tokio_io::io::{ReadHalf, WriteHalf};
use vstd::prelude::*;

verus! {

#[verifier::external_type_specification]
#[verifier::external_body]
#[verifier::reject_recursive_types(T)]
pub struct ExReadHalf<T>(ReadHalf<T>);

#[verifier::external_type_specification]
#[verifier::external_body]
#[verifier::reject_recursive_types(T)]
pub struct ExWriteHalf<T>(WriteHalf<T>);

} // verus!
