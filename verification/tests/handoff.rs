use live_translate::handoff::{handoff, handoff_bounded, Polled, PushError};

#[test]
fn new_queue_is_open_and_empty() {
    let (producer, mut consumer) = handoff::<Vec<f32>>();
    assert!(!producer.is_closed());
    assert!(!consumer.is_closed());
    assert!(matches!(consumer.poll(), Polled::Empty));
    assert!(!consumer.is_closed());
}

#[test]
fn items_come_out_in_the_order_they_went_in() {
    let (mut producer, mut consumer) = handoff::<Vec<f32>>();
    assert!(producer.push(vec![1.0, 2.0]).is_ok());
    assert!(producer.push(vec![3.0]).is_ok());
    assert!(producer.push(vec![]).is_ok());
    assert!(matches!(consumer.poll(), Polled::Item(v) if v == vec![1.0, 2.0]));
    assert!(matches!(consumer.poll(), Polled::Item(v) if v == vec![3.0]));
    assert!(matches!(consumer.poll(), Polled::Item(v) if v.is_empty()));
    assert!(matches!(consumer.poll(), Polled::Empty));
}

#[test]
fn queue_grows_instead_of_blocking_the_producer() {
    let (mut producer, mut consumer) = handoff::<u32>();
    for n in 0..10_000u32 {
        assert!(producer.push(n).is_ok());
    }
    let all = consumer.drain(usize::MAX);
    assert_eq!(all, (0..10_000).collect::<Vec<u32>>());
}

#[test]
fn push_fails_for_good_once_the_consumer_is_gone() {
    let (mut producer, consumer) = handoff::<String>();
    assert!(producer.push("first".to_string()).is_ok());
    drop(consumer);
    match producer.push("second".to_string()) {
        Err(PushError::Closed(item)) => assert_eq!(item, "second"),
        _ => panic!("the consumer is gone"),
    }
    assert!(producer.is_closed());
    match producer.push("third".to_string()) {
        Err(e) => assert_eq!(e.into_item(), "third"),
        Ok(()) => panic!("a closed producer delivers nothing"),
    }
    assert!(producer.is_closed());
}

#[test]
fn consumer_sees_the_end_after_the_last_item() {
    let (mut producer, mut consumer) = handoff::<i32>();
    assert!(producer.push(7).is_ok());
    drop(producer);
    assert!(matches!(consumer.poll(), Polled::Item(7)));
    assert!(!consumer.is_closed());
    assert!(matches!(consumer.poll(), Polled::Closed));
    assert!(consumer.is_closed());
    assert!(matches!(consumer.poll(), Polled::Closed));
}

#[test]
fn shared_producers_feed_the_same_queue() {
    let (mut first, mut consumer) = handoff::<&'static str>();
    let mut second = first.share();
    assert!(!second.is_closed());
    assert!(first.push("a").is_ok());
    assert!(second.push("b").is_ok());
    drop(first);
    assert!(second.push("c").is_ok());
    assert_eq!(consumer.drain(10), vec!["a", "b", "c"]);
    assert!(!consumer.is_closed());
    drop(second);
    assert!(consumer.drain(10).is_empty());
    assert!(consumer.is_closed());
}

#[test]
fn drain_stops_at_its_limit() {
    let (mut producer, mut consumer) = handoff::<u8>();
    for n in 0..5u8 {
        assert!(producer.push(n).is_ok());
    }
    assert!(consumer.drain(0).is_empty());
    assert_eq!(consumer.drain(2), vec![0, 1]);
    assert_eq!(consumer.drain(2), vec![2, 3]);
    assert_eq!(consumer.drain(2), vec![4]);
    assert!(consumer.drain(2).is_empty());
    assert!(!consumer.is_closed());
}

#[test]
fn bounded_queue_refuses_what_it_cannot_hold() {
    let (mut producer, mut consumer) = handoff_bounded::<u32>(2);
    assert!(producer.push(1).is_ok());
    assert!(producer.push(2).is_ok());
    match producer.push(3) {
        Err(PushError::Full(item)) => assert_eq!(item, 3),
        _ => panic!("the queue holds two items"),
    }
    assert!(!producer.is_closed());
    assert!(matches!(consumer.poll(), Polled::Item(1)));
    assert!(producer.push(4).is_ok());
    assert_eq!(consumer.drain(10), vec![2, 4]);
}

#[test]
fn bounded_queue_closes_like_any_other() {
    let (mut producer, consumer) = handoff_bounded::<u32>(1);
    drop(consumer);
    assert!(matches!(producer.push(9), Err(PushError::Closed(9))));
    assert!(producer.is_closed());
}

#[test]
fn producer_closes_when_told_that_the_consumer_is_gone() {
    let (mut producer, _consumer) = handoff::<u8>();
    assert!(producer.settle(Ok(())).is_ok());
    assert!(!producer.is_closed());
    assert!(matches!(producer.settle(Err(PushError::Full(1))), Err(PushError::Full(1))));
    assert!(!producer.is_closed());
    assert!(matches!(producer.settle(Err(PushError::Closed(2))), Err(PushError::Closed(2))));
    assert!(producer.is_closed());
    assert!(producer.settle(Ok(())).is_ok());
    assert!(producer.is_closed());
    assert!(matches!(producer.push(3), Err(PushError::Closed(3))));
}

#[test]
fn consumer_closes_when_told_that_nothing_will_come() {
    let (mut producer, mut consumer) = handoff::<u8>();
    assert!(matches!(consumer.note(Polled::Empty), Polled::Empty));
    assert!(matches!(consumer.note(Polled::Item(5)), Polled::Item(5)));
    assert!(!consumer.is_closed());
    assert!(matches!(consumer.note(Polled::Closed), Polled::Closed));
    assert!(consumer.is_closed());
    assert!(producer.push(1).is_ok());
    assert!(matches!(consumer.poll(), Polled::Closed));
    assert!(consumer.drain(5).is_empty());
}
