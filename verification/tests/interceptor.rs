use protocol_interceptor::io::{IoChannel, IoInterceptor};

fn queued(interceptor: &mut IoInterceptor<u8, Vec<u8>>) -> Vec<u8> {
    interceptor.interceptor_and_queued_data().1.to_vec()
}

#[test]
fn forward_data_accepted_whole() {
    let mut io: IoInterceptor<u8, Vec<u8>> = IoInterceptor::new(0, Vec::new());
    assert!(!io.has_queued_data());
    let result: Result<usize, String> = io.forward_data(b"abc", Ok(3));
    assert_eq!(result, Ok(3));
    assert!(!io.has_queued_data());
    assert_eq!(queued(&mut io), Vec::<u8>::new());
}

#[test]
fn forward_data_partly_accepted_queues_the_rest() {
    let mut io: IoInterceptor<u8, Vec<u8>> = IoInterceptor::new(0, Vec::new());
    let result: Result<usize, String> = io.forward_data(b"abcdef", Ok(2));
    assert_eq!(result, Ok(6));
    assert!(io.has_queued_data());
    assert_eq!(queued(&mut io), b"cdef".to_vec());
    io.queued_data_written(3);
    assert_eq!(queued(&mut io), b"f".to_vec());
    io.queued_data_written(1);
    assert!(!io.has_queued_data());
    io.finish_queued_data();
    assert!(!io.has_queued_data());
}

#[test]
fn forward_data_error_queues_everything_and_hands_the_error_on() {
    let mut io: IoInterceptor<u8, Vec<u8>> = IoInterceptor::new(0, Vec::new());
    let result: Result<usize, String> = io.forward_data(b"xyz", Err("closed".to_string()));
    assert_eq!(result, Err("closed".to_string()));
    assert_eq!(queued(&mut io), b"xyz".to_vec());
}

#[test]
fn forward_data_of_nothing() {
    let mut io: IoInterceptor<u8, Vec<u8>> = IoInterceptor::new(0, Vec::new());
    let result: Result<usize, String> = io.forward_data(b"", Err("closed".to_string()));
    assert_eq!(result, Err("closed".to_string()));
    assert!(!io.has_queued_data());
    let result: Result<usize, String> = io.forward_data(b"", Ok(0));
    assert_eq!(result, Ok(0));
}

#[test]
fn queued_data_written_keeps_order() {
    let mut io: IoInterceptor<u8, Vec<u8>> = IoInterceptor::new(0, Vec::new());
    let _: Result<usize, ()> = io.forward_data(b"0123456789", Ok(0));
    let mut delivered = Vec::new();
    for step in [4usize, 0, 3, 3] {
        let (interceptor, data) = io.interceptor_and_queued_data();
        interceptor.extend_from_slice(&data[..step]);
        delivered.extend_from_slice(&data[..step]);
        io.queued_data_written(step);
    }
    assert!(!io.has_queued_data());
    assert_eq!(delivered, b"0123456789".to_vec());
    assert_eq!(*io.interceptor_mut(), b"0123456789".to_vec());
}

#[test]
fn accessors_reach_the_wrapped_parts() {
    let mut io: IoInterceptor<u8, Vec<u8>> = IoInterceptor::new(7, vec![1]);
    *io.intercepted_mut() += 1;
    io.interceptor_mut().push(2);
    assert_eq!(*io.intercepted_mut(), 8);
    assert_eq!(*io.interceptor_mut(), vec![1, 2]);
}

#[test]
fn io_channel_halves() {
    let mut channel = IoChannel::new(1u8, "out");
    *channel.input_mut() = 2;
    assert_eq!(*channel.input_mut(), 2);
    assert_eq!(*channel.output_mut(), "out");
}

#[test]
fn finish_queued_data_empties_the_queue() {
    let mut io: IoInterceptor<u8, Vec<u8>> = IoInterceptor::new(0, Vec::new());
    let _: Result<usize, ()> = io.forward_data(b"left", Ok(1));
    assert!(io.has_queued_data());
    io.finish_queued_data();
    assert!(!io.has_queued_data());
    assert_eq!(queued(&mut io), Vec::<u8>::new());
}

#[test]
fn forward_data_queues_after_older_bytes() {
    let mut io: IoInterceptor<u8, Vec<u8>> = IoInterceptor::new(0, Vec::new());
    let _: Result<usize, ()> = io.forward_data(b"ab", Ok(0));
    let result: Result<usize, ()> = io.forward_data(b"cde", Ok(1));
    assert_eq!(result, Ok(3));
    assert_eq!(queued(&mut io), b"abde".to_vec());
    let result: Result<usize, &str> = io.forward_data(b"fg", Err("busy"));
    assert_eq!(result, Err("busy"));
    assert_eq!(queued(&mut io), b"abdefg".to_vec());
}

#[test]
fn forward_prefix_forwards_only_what_passed() {
    let mut io: IoInterceptor<u8, Vec<u8>> = IoInterceptor::new(0, Vec::new());
    let result: Result<usize, ()> = io.forward_prefix(b"hello world", 5, Ok(2));
    assert_eq!(result, Ok(5));
    assert_eq!(queued(&mut io), b"llo".to_vec());
    let result: Result<usize, ()> = io.forward_prefix(b"xyz", 0, Ok(0));
    assert_eq!(result, Ok(0));
    assert_eq!(queued(&mut io), b"llo".to_vec());
}

#[test]
fn interceptor_and_prefix_gives_the_bytes_that_passed() {
    let mut io: IoInterceptor<u8, Vec<u8>> = IoInterceptor::new(0, Vec::new());
    let buffer = b"abcdef";
    let written = {
        let (interceptor, prefix) = io.interceptor_and_prefix(buffer, 4);
        assert_eq!(prefix, b"abcd");
        interceptor.extend_from_slice(prefix);
        prefix.len()
    };
    let result: Result<usize, ()> = io.forward_prefix(buffer, 4, Ok(written));
    assert_eq!(result, Ok(4));
    assert!(!io.has_queued_data());
    assert_eq!(*io.interceptor_mut(), b"abcd".to_vec());
}
