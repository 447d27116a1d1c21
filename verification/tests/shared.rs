use std::io::Cursor;
use std::sync::Arc;

use protocol_interceptor::{Async, PossiblyInterceptedIo, SharedChannelFactory, SharedWriteHalf};
use tokio_io::io::AllowStdIo;
use tokio_io::AsyncRead;

type Io = AllowStdIo<Cursor<Vec<u8>>>;

fn new_io() -> Io {
    AllowStdIo::new(Cursor::new(Vec::new()))
}

#[test]
fn shared_write_half_clones_share_the_lock() {
    let (_read, write) = new_io().split();
    let shared = SharedWriteHalf::from(write);
    let copy = shared.clone();
    assert!(Arc::ptr_eq(shared.write_half(), copy.write_half()));
}

#[test]
fn shared_channel_factory_hands_out_the_same_ends_forever() {
    let (request_read, request_write) = new_io().split();
    let (response_read, response_write) = new_io().split();
    let (mut factory, _reader) =
        SharedChannelFactory::new(((request_read, response_read), (request_write, response_write)));
    let first = match factory.poll() {
        Ok(Async::Ready(Some(channel))) => channel,
        _ => panic!("expected a channel"),
    };
    let second = match factory.poll() {
        Ok(Async::Ready(Some(channel))) => channel,
        _ => panic!("expected a channel"),
    };
    assert!(Arc::ptr_eq(first.0.write_half(), second.0.write_half()));
    assert!(Arc::ptr_eq(first.1.write_half(), second.1.write_half()));
    assert!(!Arc::ptr_eq(first.0.write_half(), first.1.write_half()));
}

#[test]
fn possibly_intercepted_io_variants() {
    let plain: PossiblyInterceptedIo<u8, (), ()> = PossiblyInterceptedIo::dont_intercept(4);
    match plain {
        PossiblyInterceptedIo::NotIntercepted(io) => assert_eq!(io, 4),
        PossiblyInterceptedIo::Intercepted(_) => panic!("expected the plain connection"),
    }

    let (read, write) = new_io().split();
    let intercepted: PossiblyInterceptedIo<Io, Vec<u8>, Vec<u8>> =
        PossiblyInterceptedIo::intercept(read, write, vec![1], vec![2]);
    match intercepted {
        PossiblyInterceptedIo::Intercepted(mut channel) => {
            assert_eq!(*channel.input_mut().interceptor_mut(), vec![1]);
            assert_eq!(*channel.output_mut().interceptor_mut(), vec![2]);
            assert!(!channel.input_mut().has_queued_data());
            assert!(!channel.output_mut().has_queued_data());
        },
        PossiblyInterceptedIo::NotIntercepted(_) => panic!("expected interception"),
    }
}
