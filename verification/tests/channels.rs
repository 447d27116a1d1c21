use std::cell::Cell;

use protocol_interceptor::ChannelFactory;

fn counter_channel(next: &Cell<u32>) -> impl FnOnce() -> (u32, u32) + '_ {
    move || {
        let id = next.get();
        next.set(id + 1);
        (id, id + 100)
    }
}

#[test]
fn reads_first_then_writes_pair_up() {
    let next = Cell::new(0);
    let mut factory = ChannelFactory::new();
    assert_eq!(factory.read_channel(counter_channel(&next)), 0);
    assert_eq!(factory.read_channel(counter_channel(&next)), 1);
    assert_eq!(factory.write_channel(counter_channel(&next)), 100);
    assert_eq!(factory.write_channel(counter_channel(&next)), 101);
    assert_eq!(next.get(), 2);
}

#[test]
fn writes_first_then_reads_pair_up() {
    let next = Cell::new(0);
    let mut factory = ChannelFactory::new();
    assert_eq!(factory.write_channel(counter_channel(&next)), 100);
    assert_eq!(factory.read_channel(counter_channel(&next)), 0);
    assert_eq!(factory.read_channel(counter_channel(&next)), 1);
    assert_eq!(factory.write_channel(counter_channel(&next)), 101);
    assert_eq!(factory.write_channel(counter_channel(&next)), 102);
    assert_eq!(factory.read_channel(counter_channel(&next)), 2);
    assert_eq!(next.get(), 3);
}

#[test]
fn interleaved_requests_pair_the_nth_ends() {
    let next = Cell::new(0);
    let mut factory = ChannelFactory::new();
    let mut reads = Vec::new();
    let mut writes = Vec::new();
    for round in 0..6 {
        if round % 3 == 0 {
            writes.push(factory.write_channel(counter_channel(&next)));
        } else {
            reads.push(factory.read_channel(counter_channel(&next)));
        }
    }
    while writes.len() < reads.len() {
        writes.push(factory.write_channel(counter_channel(&next)));
    }
    for (read, write) in reads.iter().zip(writes.iter()) {
        assert_eq!(read + 100, *write);
    }
    assert_eq!(reads, vec![0, 1, 2, 3]);
}
