use std::sync::{Arc, Mutex};

use protocol_interceptor::{
    Async, AsyncSink, BindInterceptedTransport, InterceptError, InterceptIo, InterceptedTransport,
    Interception, NextItem, ProtocolInterceptor,
};

#[test]
fn next_item_not_ready_keeps_the_stream() {
    let stream = Arc::new(Mutex::new(5u8));
    let mut next = NextItem::new(stream.clone());
    let polled: Result<Async<Option<u8>>, ()> = next.poll(Ok(Async::NotReady));
    assert_eq!(polled, Ok(Async::NotReady));
    assert!(Arc::ptr_eq(next.stream_to_poll().unwrap(), &stream));
    let polled: Result<Async<Option<u8>>, ()> = next.poll(Ok(Async::Ready(Some(9))));
    assert_eq!(polled, Ok(Async::Ready(Some(9))));
    assert!(next.stream_to_poll().is_none());
}

#[test]
fn next_item_end_and_error_complete_it() {
    let mut ended = NextItem::new(Arc::new(Mutex::new(())));
    let polled: Result<Async<Option<u8>>, ()> = ended.poll(Ok(Async::Ready(None)));
    assert_eq!(polled, Ok(Async::Ready(None)));
    assert!(ended.stream_to_poll().is_none());

    let mut failed = NextItem::new(Arc::new(Mutex::new(())));
    let polled: Result<Async<Option<u8>>, &str> = failed.poll(Err("broken"));
    assert_eq!(polled, Err("broken"));
    assert!(failed.stream_to_poll().is_none());
}

fn intercept_io() -> InterceptIo<u8, &'static str, String, ()> {
    InterceptIo::new(Arc::new(Mutex::new(0u8)), Arc::new("protocol"), "connection".to_string())
}

#[test]
fn intercept_io_with_channel_intercepts() {
    let mut io = intercept_io();
    assert_eq!(**io.protocol(), "protocol");
    assert!(io.channel_to_poll().is_some());
    match io.poll::<u8, u16, ()>(Ok(Async::NotReady)) {
        Ok(Async::NotReady) => {},
        _ => panic!("expected not ready"),
    }
    assert!(io.channel_to_poll().is_some());
    match io.poll::<u8, u16, ()>(Ok(Async::Ready(Some((1, 2))))) {
        Ok(Async::Ready(Interception::Intercept { io, read_interceptor, write_interceptor })) => {
            assert_eq!(io, "connection");
            assert_eq!(read_interceptor, 1);
            assert_eq!(write_interceptor, 2);
        },
        _ => panic!("expected interception"),
    }
    assert!(io.channel_to_poll().is_none());
}

#[test]
fn intercept_io_without_channel_passes_through() {
    let mut io = intercept_io();
    match io.poll::<u8, u16, ()>(Ok(Async::Ready(None))) {
        Ok(Async::Ready(Interception::DontIntercept(io))) => assert_eq!(io, "connection"),
        _ => panic!("expected no interception"),
    }
    assert!(io.channel_to_poll().is_none());
}

#[test]
fn intercept_io_hands_channel_errors_on() {
    let mut io = intercept_io();
    match io.poll::<u8, u16, &str>(Err("no channel")) {
        Err(error) => assert_eq!(error, "no channel"),
        _ => panic!("expected an error"),
    }
    assert!(io.channel_to_poll().is_none());
}

#[test]
fn protocol_interceptor_binds_with_shared_factory() {
    let interceptor = ProtocolInterceptor::new(3u8, "protocol");
    let mut first: InterceptIo<u8, &str, u32, ()> = interceptor.bind_transport(1);
    let second: InterceptIo<u8, &str, u32, ()> = interceptor.bind_transport(2);
    assert!(Arc::ptr_eq(first.channel_to_poll().unwrap(), second.channel_to_poll().unwrap()));
    assert!(Arc::ptr_eq(first.protocol(), second.protocol()));
    assert_eq!(**first.protocol(), "protocol");
    assert_eq!(*first.channel_to_poll().unwrap().lock().unwrap(), 3);
    match first.poll::<(), (), ()>(Ok(Async::Ready(None))) {
        Ok(Async::Ready(Interception::DontIntercept(io))) => assert_eq!(io, 1),
        _ => panic!("expected no interception"),
    }
}

type Transport = InterceptedTransport<u8, u16, Vec<u32>>;

#[test]
fn intercepted_transport_wraps_errors() {
    let mut transport: Transport = InterceptedTransport::from(vec![1]);
    transport.transport_mut().push(2);
    assert_eq!(*transport.transport_mut(), vec![1, 2]);

    match transport.poll::<u32, &str>(Ok(Async::Ready(Some(4)))) {
        Ok(Async::Ready(Some(4))) => {},
        _ => panic!("expected the item"),
    }
    match transport.poll::<u32, &str>(Err("receive")) {
        Err(InterceptError::ProtocolReceiveError(error)) => assert_eq!(error, "receive"),
        _ => panic!("expected a receive error"),
    }
    match transport.start_send::<u32, &str>(Ok(AsyncSink::NotReady(5))) {
        Ok(AsyncSink::NotReady(5)) => {},
        _ => panic!("expected the item back"),
    }
    match transport.start_send::<u32, &str>(Err("send")) {
        Err(InterceptError::ProtocolSendError(error)) => assert_eq!(error, "send"),
        _ => panic!("expected a send error"),
    }
    match transport.poll_complete::<&str>(Ok(Async::Ready(()))) {
        Ok(Async::Ready(())) => {},
        _ => panic!("expected completion"),
    }
    match transport.poll_complete::<&str>(Err("flush")) {
        Err(InterceptError::ProtocolSendError(error)) => assert_eq!(error, "flush"),
        _ => panic!("expected a send error"),
    }
}

#[test]
fn bind_intercepted_transport_wraps_the_transport() {
    let mut bind: BindInterceptedTransport<u8, u64, u16> = BindInterceptedTransport::from(77);
    assert_eq!(*bind.bind_transport_mut(), 77);
    match bind.poll::<Vec<u32>, &str>(Ok(Async::Ready(vec![3]))) {
        Ok(Async::Ready(mut transport)) => assert_eq!(*transport.transport_mut(), vec![3]),
        _ => panic!("expected a transport"),
    }
    match bind.poll::<Vec<u32>, &str>(Ok(Async::NotReady)) {
        Ok(Async::NotReady) => {},
        _ => panic!("expected not ready"),
    }
    match bind.poll::<Vec<u32>, &str>(Err("bind")) {
        Err(InterceptError::BindTransportError(error)) => assert_eq!(error, "bind"),
        _ => panic!("expected a bind error"),
    }
}

#[test]
fn io_errors_convert_into_intercept_errors() {
    let io_error = std::io::Error::new(std::io::ErrorKind::Other, "disk");
    let error: InterceptError<u8, u8, u8> = InterceptError::from(io_error);
    match error {
        InterceptError::IoError(inner) => assert_eq!(inner.to_string(), "disk"),
        _ => panic!("expected an IO error"),
    }
}
