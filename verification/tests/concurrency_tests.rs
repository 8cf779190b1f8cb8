use safeguards::aggregate::SharedData;
use safeguards::channel::{Channel, RecvOutcome};
use safeguards::counter::{FlagCounter, SafeCounter};
use safeguards::rw_guard::RwGuardState;

#[test]
fn counter_ten_workers_of_thousand_increments_is_exact() {
    let mut counter = SafeCounter::new();
    for _ in 0..10 {
        counter.add_many(1000);
    }
    assert_eq!(counter.get_count(), 10_000);
}

#[test]
fn counter_zero_workers_stay_at_zero() {
    let mut counter = SafeCounter::new();
    counter.add_many(0);
    assert_eq!(counter.get_count(), 0);
}

#[test]
fn counter_single_increments_accumulate() {
    let mut counter = SafeCounter::new();
    counter.increment();
    counter.increment();
    counter.increment();
    assert_eq!(counter.get_count(), 3);
}

#[test]
fn flag_counter_reports_seen_values_and_crossing() {
    let mut fc = FlagCounter::new();
    let mut seen = Vec::new();
    for _ in 0..5 {
        seen.push(fc.fetch_increment());
    }
    assert_eq!(seen, vec![0, 1, 2, 3, 4]);
    assert_eq!(fc.snapshot(), (5, true));
}

#[test]
fn flag_stays_down_below_three() {
    let mut fc = FlagCounter::new();
    fc.run(2);
    assert_eq!(fc.snapshot(), (2, false));
    fc.run(1);
    assert_eq!(fc.snapshot(), (3, true));
}

#[test]
fn aggregate_updates_stay_consistent() {
    let mut data = SharedData::new();
    assert_eq!(data.stats(), (0, 0, false));
    for i in 0..10 {
        data.add_value(i);
        let (len, sum, processing) = data.stats();
        let expected_len = (i + 1) as usize;
        let expected_sum: i32 = (0..=i).sum();
        assert_eq!(len, expected_len);
        assert_eq!(sum, expected_sum);
        assert_eq!(processing, expected_len % 2 == 1);
    }
    assert_eq!(data.stats(), (10, 45, false));
    assert_eq!(data.value_at(0), Some(0));
    assert_eq!(data.value_at(9), Some(9));
    assert_eq!(data.value_at(10), None);
}

#[test]
fn aggregate_handles_negative_values() {
    let mut data = SharedData::new();
    data.add_value(-5);
    data.add_value(3);
    assert_eq!(data.stats(), (2, -2, false));
}

#[test]
fn readers_overlap_but_never_a_writer() {
    let mut guard = RwGuardState::new();

    assert!(guard.try_acquire_read());
    assert!(guard.try_acquire_read());
    assert!(guard.try_acquire_read());

    assert!(!guard.try_acquire_write());

    guard.release_read();
    guard.release_read();
    assert!(!guard.try_acquire_write());
    guard.release_read();

    assert!(guard.try_acquire_write());
    assert!(!guard.try_acquire_read());
    assert!(!guard.try_acquire_write());

    guard.release_write();
    assert!(guard.try_acquire_read());
    guard.release_read();
}

#[test]
fn channel_delivers_in_send_order_then_closure() {
    let mut channel = Channel::new();
    for i in 0..5 {
        channel.send(format!("Message {}", i));
    }
    channel.close();

    let received = channel.drain();
    let expected: Vec<String> = (0..5).map(|i| format!("Message {}", i)).collect();
    assert_eq!(received, expected);

    match channel.recv() {
        RecvOutcome::Closed => {}
        _ => panic!("a drained, closed channel must report closure"),
    }
}

#[test]
fn channel_open_and_empty_would_block() {
    let mut channel = Channel::new();
    match channel.recv() {
        RecvOutcome::Pending => {}
        _ => panic!("an open, empty channel must leave the consumer waiting"),
    }
    channel.send("only".to_string());
    match channel.recv() {
        RecvOutcome::Message(m) => assert_eq!(m, "only"),
        _ => panic!("a pending message must be delivered"),
    }
}

#[test]
fn channel_drain_after_partial_receive() {
    let mut channel = Channel::new();
    channel.send("a".to_string());
    channel.send("b".to_string());
    channel.send("c".to_string());
    match channel.recv() {
        RecvOutcome::Message(m) => assert_eq!(m, "a"),
        _ => panic!("first message must arrive first"),
    }
    channel.close();
    assert_eq!(channel.drain(), vec!["b".to_string(), "c".to_string()]);
}
