//! The errors of an intercepted protocol.

use vstd::prelude::*;

verus! {

#[verifier::external_type_specification]
#[verifier::external_body]
pub struct ExIoError(std::io::Error);

/// What can go wrong while a protocol runs over an intercepted transport.
///
/// `C` is the error of the channel factory, `B` the error of binding the
/// protocol to its transport, and `P` the error of the protocol itself.
#[derive(Debug)]
pub enum InterceptError<C, B, P> {
    /// Binding the protocol to the transport failed.
    BindTransportError(B),
    /// No interception channel could be obtained.
    CreateChannelError(C),
    /// Reading or writing the transport failed.
    IoError(std::io::Error),
    /// The protocol failed to receive a message.
    ProtocolReceiveError(P),
    /// The protocol failed to send a message.
    ProtocolSendError(P),
}

impl<C, B, P> From<std::io::Error> for InterceptError<C, B, P> {
    fn from(io_error: std::io::Error) -> (error: Self) {
        InterceptError::IoError(io_error)
    }
}

impl<C, B, P> vstd::std_specs::convert::FromSpecImpl<std::io::Error> for InterceptError<C, B, P> {
    open spec fn obeys_from_spec() -> bool {
        true
    }

    open spec fn from_spec(io_error: std::io::Error) -> Self {
        InterceptError::IoError(io_error)
    }
}

} // verus!
