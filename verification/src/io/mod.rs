//! Byte-level plumbing: a transport made of two halves, and the interceptor
//! that copies a stream of bytes to a second writer.

pub mod channel;
pub mod interceptor;

pub use self::channel::IoChannel;
pub use self::interceptor::IoInterceptor;
pub use crate::io_queue::IoQueue;
