//! Interception of the byte streams that a protocol reads and writes.
//!
//! A `ProtocolInterceptor` wraps a server protocol.  For every new
//! connection it asks a shared channel factory for an interception channel;
//! when one comes, the connection is split and every byte the protocol reads
//! or writes is also copied, in order, to the channel's two writers.  When
//! the factory has ended, connections are served as they are.

pub mod io;

pub mod async_queue;
pub mod bind_intercepted_transport;
pub mod byte_buffer;
pub mod channel_factory;
pub mod error;
pub mod halves;
pub mod intercept_io;
pub mod intercepted_transport;
pub mod io_queue;
pub mod next_item;
pub mod poll;
pub mod possibly_intercepted_io;
pub mod protocol_interceptor;
pub mod shared_channel_factory;
pub mod shared_write_half;
pub mod sync;

pub use async_queue::AsyncQueue;
pub use bind_intercepted_transport::BindInterceptedTransport;
pub use channel_factory::ChannelFactory;
pub use error::InterceptError;
pub use intercept_io::{InterceptIo, Interception};
pub use intercepted_transport::InterceptedTransport;
pub use next_item::NextItem;
pub use poll::{Async, AsyncSink};
pub use possibly_intercepted_io::PossiblyInterceptedIo;
pub use protocol_interceptor::ProtocolInterceptor;
pub use shared_channel_factory::SharedChannelFactory;
pub use shared_write_half::SharedWriteHalf;
