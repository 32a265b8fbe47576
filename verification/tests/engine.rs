use ble_peripheral::assembler::ReadOutcome;
use ble_peripheral::engine::{
    ControlEvent, EngineAction, EngineEvent, EngineLoop, SharedState, WriteOutcome,
};
use ble_peripheral::message::BleMessage;

fn notify(mtu: usize) -> EngineEvent {
    EngineEvent::Control(ControlEvent::NotifySubscribed { mtu })
}

fn write_accepted(mtu: usize) -> EngineEvent {
    EngineEvent::Control(ControlEvent::WriteAccepted { mtu })
}

fn read(bytes: Vec<u8>) -> EngineEvent {
    EngineEvent::ReadCompleted(ReadOutcome::Bytes(bytes))
}

#[test]
fn fresh_engine_has_nothing_bound() {
    let engine = EngineLoop::new();
    let shared = SharedState::new();
    assert!(!engine.has_reader());
    assert!(!engine.has_writer());
    assert!(!engine.has_ended());
    assert!(shared.outbound.is_empty());
    assert!(shared.inbound.is_empty());
    assert!(!shared.subscription.is_subscribed());
}

#[test]
fn drain_writes_queue_in_order() {
    let mut engine = EngineLoop::new();
    let mut shared = SharedState::new();
    assert_eq!(engine.handle_event(&mut shared, notify(23)), EngineAction::BindWriter);
    shared.outbound.enqueue(BleMessage::from_text("A".to_string()));
    shared.outbound.enqueue(BleMessage::from_bytes(vec![1, 2, 3]));
    assert_eq!(
        engine.handle_event(&mut shared, EngineEvent::DrainTrigger),
        EngineAction::Write(vec![0x41])
    );
    assert_eq!(
        engine.handle_event(&mut shared, EngineEvent::WriteCompleted(WriteOutcome::Sent)),
        EngineAction::Idle
    );
    assert_eq!(
        engine.handle_event(&mut shared, EngineEvent::DrainTrigger),
        EngineAction::Write(vec![1, 2, 3])
    );
    assert_eq!(
        engine.handle_event(&mut shared, EngineEvent::WriteCompleted(WriteOutcome::Sent)),
        EngineAction::Idle
    );
    assert_eq!(engine.handle_event(&mut shared, EngineEvent::DrainTrigger), EngineAction::Idle);
    assert!(shared.subscription.is_subscribed());
}

#[test]
fn drain_takes_one_message_per_trigger() {
    let mut engine = EngineLoop::new();
    let mut shared = SharedState::new();
    engine.handle_event(&mut shared, notify(23));
    let mut i: u8 = 0;
    while i < 5 {
        shared.outbound.enqueue(BleMessage::from_bytes(vec![i, i]));
        i += 1;
    }
    let mut k: u8 = 0;
    while k < 5 {
        assert_eq!(shared.outbound.len(), (5 - k) as usize);
        assert_eq!(engine.on_drain(&mut shared), EngineAction::Write(vec![k, k]));
        k += 1;
    }
    assert!(shared.outbound.is_empty());
    assert_eq!(engine.on_drain(&mut shared), EngineAction::Idle);
}

#[test]
fn drain_without_writer_keeps_the_queue() {
    let mut engine = EngineLoop::new();
    let mut shared = SharedState::new();
    shared.outbound.enqueue(BleMessage::from_text("kept".to_string()));
    assert_eq!(engine.handle_event(&mut shared, EngineEvent::DrainTrigger), EngineAction::Idle);
    assert_eq!(shared.outbound.len(), 1);
    engine.handle_event(&mut shared, notify(23));
    assert_eq!(
        engine.handle_event(&mut shared, EngineEvent::DrainTrigger),
        EngineAction::Write("kept".as_bytes().to_vec())
    );
}

#[test]
fn subscription_follows_notify_and_write_failure() {
    let mut engine = EngineLoop::new();
    let mut shared = SharedState::new();
    assert!(!shared.subscription.is_subscribed());
    engine.handle_event(&mut shared, write_accepted(20));
    engine.handle_event(&mut shared, EngineEvent::DrainTrigger);
    assert!(!shared.subscription.is_subscribed());
    assert_eq!(engine.handle_event(&mut shared, notify(23)), EngineAction::BindWriter);
    assert!(shared.subscription.is_subscribed());
    assert!(engine.has_writer());
    assert_eq!(
        engine.handle_event(&mut shared, EngineEvent::WriteCompleted(WriteOutcome::Failed)),
        EngineAction::DropWriter
    );
    assert!(!shared.subscription.is_subscribed());
    assert!(!engine.has_writer());
    assert_eq!(engine.handle_event(&mut shared, notify(23)), EngineAction::BindWriter);
    assert!(shared.subscription.is_subscribed());
}

#[test]
fn failed_write_is_not_sent_again() {
    let mut engine = EngineLoop::new();
    let mut shared = SharedState::new();
    engine.handle_event(&mut shared, notify(23));
    shared.outbound.enqueue(BleMessage::from_bytes(vec![1]));
    shared.outbound.enqueue(BleMessage::from_bytes(vec![2]));
    assert_eq!(
        engine.handle_event(&mut shared, EngineEvent::DrainTrigger),
        EngineAction::Write(vec![1])
    );
    engine.handle_event(&mut shared, EngineEvent::WriteCompleted(WriteOutcome::Failed));
    assert_eq!(shared.outbound.len(), 1);
    assert_eq!(engine.handle_event(&mut shared, EngineEvent::DrainTrigger), EngineAction::Idle);
    assert_eq!(shared.outbound.len(), 1);
    engine.handle_event(&mut shared, notify(23));
    assert_eq!(
        engine.handle_event(&mut shared, EngineEvent::DrainTrigger),
        EngineAction::Write(vec![2])
    );
    assert_eq!(engine.handle_event(&mut shared, EngineEvent::DrainTrigger), EngineAction::Idle);
}

#[test]
fn inbound_chunks_become_one_message() {
    let mut engine = EngineLoop::new();
    let mut shared = SharedState::new();
    assert_eq!(
        engine.handle_event(&mut shared, write_accepted(3)),
        EngineAction::BindReader { capacity: 3 }
    );
    assert_eq!(engine.read_capacity(), 3);
    assert_eq!(engine.handle_event(&mut shared, read(vec![1, 2, 3])), EngineAction::Idle);
    assert_eq!(engine.handle_event(&mut shared, read(vec![4, 5])), EngineAction::Idle);
    assert!(shared.inbound.is_empty());
    assert_eq!(engine.handle_event(&mut shared, read(Vec::new())), EngineAction::Deliver);
    assert!(!engine.has_reader());
    assert_eq!(shared.inbound.len(), 1);
    assert_eq!(shared.inbound.dequeue(), Some(BleMessage::Raw(vec![1, 2, 3, 4, 5])));
}

#[test]
fn next_write_request_starts_a_new_message() {
    let mut engine = EngineLoop::new();
    let mut shared = SharedState::new();
    engine.handle_event(&mut shared, write_accepted(20));
    engine.handle_event(&mut shared, read(vec![1]));
    engine.handle_event(&mut shared, read(Vec::new()));
    engine.handle_event(&mut shared, write_accepted(20));
    engine.handle_event(&mut shared, read(vec![2]));
    engine.handle_event(&mut shared, read(Vec::new()));
    assert_eq!(shared.inbound.dequeue(), Some(BleMessage::Raw(vec![1])));
    assert_eq!(shared.inbound.dequeue(), Some(BleMessage::Raw(vec![2])));
    assert_eq!(shared.inbound.dequeue(), None);
}

#[test]
fn stream_error_after_a_chunk_gives_no_message() {
    let mut engine = EngineLoop::new();
    let mut shared = SharedState::new();
    engine.handle_event(&mut shared, write_accepted(20));
    assert_eq!(engine.handle_event(&mut shared, read(vec![1, 2, 3])), EngineAction::Idle);
    assert_eq!(
        engine.handle_event(&mut shared, EngineEvent::ReadCompleted(ReadOutcome::Failed)),
        EngineAction::DropReader
    );
    assert!(shared.inbound.is_empty());
    assert!(!engine.has_reader());
    assert_eq!(engine.handle_event(&mut shared, read(Vec::new())), EngineAction::Idle);
    assert!(shared.inbound.is_empty());
}

#[test]
fn second_write_request_discards_the_first_message() {
    let mut engine = EngineLoop::new();
    let mut shared = SharedState::new();
    engine.handle_event(&mut shared, write_accepted(20));
    engine.handle_event(&mut shared, read(vec![1, 2, 3]));
    assert_eq!(
        engine.handle_event(&mut shared, write_accepted(50)),
        EngineAction::BindReader { capacity: 50 }
    );
    engine.handle_event(&mut shared, read(vec![9]));
    assert_eq!(engine.handle_event(&mut shared, read(Vec::new())), EngineAction::Deliver);
    assert_eq!(shared.inbound.dequeue(), Some(BleMessage::Raw(vec![9])));
    assert_eq!(shared.inbound.dequeue(), None);
}

#[test]
fn reads_without_a_reader_change_nothing() {
    let mut engine = EngineLoop::new();
    let mut shared = SharedState::new();
    assert_eq!(engine.handle_event(&mut shared, read(vec![1])), EngineAction::Idle);
    assert_eq!(engine.handle_event(&mut shared, read(Vec::new())), EngineAction::Idle);
    assert_eq!(
        engine.handle_event(&mut shared, EngineEvent::ReadCompleted(ReadOutcome::Failed)),
        EngineAction::Idle
    );
    assert!(shared.inbound.is_empty());
}

#[test]
fn stream_end_terminates_the_loop_for_good() {
    let mut engine = EngineLoop::new();
    let mut shared = SharedState::new();
    engine.handle_event(&mut shared, notify(23));
    shared.outbound.enqueue(BleMessage::from_bytes(vec![1]));
    assert_eq!(
        engine.handle_event(&mut shared, EngineEvent::Control(ControlEvent::StreamEnded)),
        EngineAction::Terminate
    );
    assert!(engine.has_ended());
    assert_eq!(
        engine.handle_event(&mut shared, EngineEvent::DrainTrigger),
        EngineAction::Terminate
    );
    assert_eq!(engine.handle_event(&mut shared, write_accepted(20)), EngineAction::Terminate);
    assert!(!engine.has_reader());
    assert_eq!(shared.outbound.len(), 1);
    assert!(shared.subscription.is_subscribed());
}

#[test]
fn inbound_and_outbound_do_not_disturb_each_other() {
    let mut engine = EngineLoop::new();
    let mut shared = SharedState::new();
    engine.handle_event(&mut shared, notify(23));
    engine.handle_event(&mut shared, write_accepted(20));
    shared.outbound.enqueue(BleMessage::from_text("out".to_string()));
    engine.handle_event(&mut shared, read(vec![1]));
    assert_eq!(
        engine.handle_event(&mut shared, EngineEvent::DrainTrigger),
        EngineAction::Write(vec![0x6f, 0x75, 0x74])
    );
    engine.handle_event(&mut shared, read(vec![2]));
    engine.handle_event(&mut shared, EngineEvent::WriteCompleted(WriteOutcome::Failed));
    assert_eq!(engine.handle_event(&mut shared, read(Vec::new())), EngineAction::Deliver);
    assert_eq!(shared.inbound.dequeue(), Some(BleMessage::Raw(vec![1, 2])));
    assert!(!shared.subscription.is_subscribed());
}

#[test]
fn new_subscription_replaces_the_writer() {
    let mut engine = EngineLoop::new();
    let mut shared = SharedState::new();
    assert_eq!(
        engine.on_control(&mut shared, ControlEvent::NotifySubscribed { mtu: 23 }),
        EngineAction::BindWriter
    );
    assert_eq!(
        engine.on_control(&mut shared, ControlEvent::NotifySubscribed { mtu: 185 }),
        EngineAction::BindWriter
    );
    assert!(engine.has_writer());
    assert!(shared.subscription.is_subscribed());
    assert_eq!(engine.on_write_result(&mut shared, WriteOutcome::Sent), EngineAction::Idle);
    assert!(shared.subscription.is_subscribed());
    assert_eq!(
        engine.on_read(&mut shared, ReadOutcome::Bytes(vec![1])),
        EngineAction::Idle
    );
}
