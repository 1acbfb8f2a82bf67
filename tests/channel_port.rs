use argus::chain_event::{BlockRef, ChainEvent, Message};
use argus::channel::Channel;
use argus::config::CHANNEL_CAPACITY;

fn reset(i: u64) -> Message {
    ChainEvent::reset(BlockRef { index: i, hash: vec![i as u8] })
}

#[test]
fn full_channel_refuses_until_consumer_takes_one() {
    let mut c = Channel::new(3);
    for i in 0..3 {
        assert!(c.try_send(reset(i)).is_ok());
    }
    assert!(c.is_full());
    let back = c.try_send(reset(3)).unwrap_err();
    assert_eq!(back, reset(3));
    assert_eq!(c.len(), 3);
    assert_eq!(c.recv().unwrap(), reset(0));
    assert!(c.try_send(back).is_ok());
    let rest: Vec<Message> = (0..3).map(|_| c.recv().unwrap()).collect();
    assert_eq!(rest, vec![reset(1), reset(2), reset(3)]);
    assert!(c.recv().is_none());
}

#[test]
fn pipeline_channel_holds_one_hundred() {
    let mut c = Channel::new(CHANNEL_CAPACITY);
    assert_eq!(c.capacity(), 100);
    for i in 0..100 {
        assert!(c.try_send(reset(i)).is_ok());
    }
    assert!(c.try_send(reset(100)).is_err());
    for i in 0..100 {
        assert_eq!(c.recv().unwrap(), reset(i));
    }
}

#[test]
fn zero_capacity_always_refuses() {
    let mut c = Channel::new(0);
    assert!(c.try_send(reset(1)).is_err());
    assert!(c.recv().is_none());
}
