use vireon_php::pool::pool_member_index;
use vireon_php::subscription::{
    _ensure_link, batch_limit, batch_status, publish_target, recv_status, settle_recv, BatchCollector, BATCH_CAP,
};

#[test]
fn batch_limits() {
    assert_eq!(BATCH_CAP, 256);
    assert_eq!(batch_limit(10), 10);
    assert_eq!(batch_limit(1), 1);
    assert_eq!(batch_limit(256), 256);
    assert_eq!(batch_limit(1000), 256);
    assert_eq!(batch_limit(0), 1);
    assert_eq!(batch_limit(-1), 256);
    assert_eq!(batch_limit(i32::MIN), 256);
}

#[test]
fn batch_collects_up_to_limit_in_order() {
    let mut batch = BatchCollector::start(1u64, 3);
    let mut waiting = vec![2u64, 3, 4, 5].into_iter();
    while batch.wants_more() {
        match waiting.next() {
            Some(m) => batch.push(m),
            None => break,
        }
    }
    assert_eq!(batch.into_messages(), vec![1, 2, 3]);
}

#[test]
fn batch_stops_when_nothing_waits() {
    let mut batch = BatchCollector::start("a", 5);
    assert!(batch.wants_more());
    batch.push("b");
    assert_eq!(batch.into_messages(), vec!["a", "b"]);
}

#[test]
fn batch_of_one() {
    let batch = BatchCollector::start(9u8, 1);
    assert!(!batch.wants_more());
    assert_eq!(batch.into_messages(), vec![9]);
}

#[test]
fn delivered_message_keeps_receiver_open() {
    let mut source = Some("sub");
    assert_eq!(settle_recv(&mut source, Some(5)), Some(5));
    assert_eq!(source, Some("sub"));
}

#[test]
fn end_of_stream_closes_receiver_for_good() {
    let mut source = Some("sub");
    assert_eq!(settle_recv::<_, u32>(&mut source, None), None);
    assert_eq!(source, None);
    assert_eq!(settle_recv(&mut source, Some(1u32)), None);
    assert_eq!(source, None);
}

#[test]
fn status_codes() {
    assert_eq!(recv_status(&Some(1)), 0);
    assert_eq!(recv_status::<u8>(&None), 1);
    assert_eq!(batch_status(0), 1);
    assert_eq!(batch_status(3), 0);
}

#[test]
fn pool_member_indices() {
    assert_eq!(pool_member_index(0, 4), Some(0));
    assert_eq!(pool_member_index(3, 4), Some(3));
    assert_eq!(pool_member_index(4, 4), None);
    assert_eq!(pool_member_index(0, 0), None);
    assert_eq!(pool_member_index(-1, 4), None);
}

#[test]
fn ensure_link_does_nothing() {
    _ensure_link(0);
}

fn drain(first: u32, limit: usize, waiting: &[u32]) -> Vec<u32> {
    let mut batch = BatchCollector::start(first, limit);
    let mut source = waiting.iter().copied();
    let mut more = batch.wants_more();
    while more {
        more = batch.take_waiting(source.next());
    }
    batch.into_messages()
}

#[test]
fn batch_is_first_then_waiting_up_to_limit() {
    assert_eq!(drain(1, 3, &[2, 3, 4, 5]), vec![1, 2, 3]);
    assert_eq!(drain(1, 10, &[2, 3]), vec![1, 2, 3]);
    assert_eq!(drain(1, 1, &[2, 3]), vec![1]);
    assert_eq!(drain(1, 5, &[]), vec![1]);
    assert_eq!(drain(1, 3, &[2, 3]), vec![1, 2, 3]);
}

#[test]
fn take_waiting_steps() {
    let mut batch = BatchCollector::start(0u8, 3);
    assert!(batch.take_waiting(Some(1)));
    assert!(!batch.take_waiting(Some(2)));
    assert_eq!(batch.into_messages(), vec![0, 1, 2]);
    let mut batch = BatchCollector::start(0u8, 3);
    assert!(!batch.take_waiting(None));
    assert_eq!(batch.into_messages(), vec![0]);
}

#[test]
fn publish_target_of_open_and_closed_slots() {
    let open = Some(7u8);
    assert_eq!(publish_target(&open), Some(&7));
    let mut slot = Some(7u8);
    settle_recv::<_, u8>(&mut slot, None);
    assert_eq!(publish_target(&slot), None);
}
