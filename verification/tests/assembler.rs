use ble_peripheral::assembler::{InboundAssembler, ReadOutcome, ReadStep};
use ble_peripheral::message::BleMessage;

#[test]
fn new_assembler_is_unbound() {
    let assembler = InboundAssembler::new();
    assert!(!assembler.is_bound());
    assert_eq!(assembler.read_capacity(), 0);
}

#[test]
fn bind_sizes_the_buffer_to_the_mtu() {
    let mut assembler = InboundAssembler::new();
    assembler.bind(185);
    assert!(assembler.is_bound());
    assert_eq!(assembler.read_capacity(), 185);
}

#[test]
fn chunks_are_concatenated_until_the_empty_read() {
    let mut assembler = InboundAssembler::new();
    assembler.bind(4);
    assert_eq!(assembler.accept_read(ReadOutcome::Bytes(vec![1, 2, 3, 4])), ReadStep::Gathered);
    assert_eq!(assembler.accept_read(ReadOutcome::Bytes(vec![5, 6, 7, 8])), ReadStep::Gathered);
    assert_eq!(assembler.accept_read(ReadOutcome::Bytes(vec![9])), ReadStep::Gathered);
    assert!(assembler.is_bound());
    assert_eq!(
        assembler.accept_read(ReadOutcome::Bytes(Vec::new())),
        ReadStep::Complete(BleMessage::Raw(vec![1, 2, 3, 4, 5, 6, 7, 8, 9]))
    );
    assert!(!assembler.is_bound());
}

#[test]
fn empty_read_right_away_gives_an_empty_message() {
    let mut assembler = InboundAssembler::new();
    assembler.bind(20);
    assert_eq!(
        assembler.accept_read(ReadOutcome::Bytes(Vec::new())),
        ReadStep::Complete(BleMessage::Raw(Vec::new()))
    );
    assert!(!assembler.is_bound());
}

#[test]
fn failed_read_discards_what_was_gathered() {
    let mut assembler = InboundAssembler::new();
    assembler.bind(20);
    assert_eq!(assembler.accept_read(ReadOutcome::Bytes(vec![1, 2])), ReadStep::Gathered);
    assert_eq!(assembler.accept_read(ReadOutcome::Failed), ReadStep::Discarded);
    assert!(!assembler.is_bound());
    assembler.bind(20);
    assert_eq!(
        assembler.accept_read(ReadOutcome::Bytes(Vec::new())),
        ReadStep::Complete(BleMessage::Raw(Vec::new()))
    );
}

#[test]
fn reads_without_a_reader_are_not_counted() {
    let mut assembler = InboundAssembler::new();
    assert_eq!(assembler.accept_read(ReadOutcome::Bytes(vec![1])), ReadStep::Unbound);
    assert_eq!(assembler.accept_read(ReadOutcome::Bytes(Vec::new())), ReadStep::Unbound);
    assert_eq!(assembler.accept_read(ReadOutcome::Failed), ReadStep::Unbound);
    assert!(!assembler.is_bound());
}

#[test]
fn new_write_request_drops_the_message_in_progress() {
    let mut assembler = InboundAssembler::new();
    assembler.bind(20);
    assert_eq!(assembler.accept_read(ReadOutcome::Bytes(vec![1, 2, 3])), ReadStep::Gathered);
    assembler.bind(23);
    assert_eq!(assembler.read_capacity(), 23);
    assert_eq!(assembler.accept_read(ReadOutcome::Bytes(vec![4])), ReadStep::Gathered);
    assert_eq!(
        assembler.accept_read(ReadOutcome::Bytes(Vec::new())),
        ReadStep::Complete(BleMessage::Raw(vec![4]))
    );
}

#[test]
fn nothing_is_carried_into_the_next_message() {
    let mut assembler = InboundAssembler::new();
    assembler.bind(20);
    assert_eq!(assembler.accept_read(ReadOutcome::Bytes(vec![1])), ReadStep::Gathered);
    assert_eq!(
        assembler.accept_read(ReadOutcome::Bytes(Vec::new())),
        ReadStep::Complete(BleMessage::Raw(vec![1]))
    );
    assembler.bind(20);
    assert_eq!(assembler.accept_read(ReadOutcome::Bytes(vec![2])), ReadStep::Gathered);
    assert_eq!(
        assembler.accept_read(ReadOutcome::Bytes(Vec::new())),
        ReadStep::Complete(BleMessage::Raw(vec![2]))
    );
}

#[test]
fn release_unbinds_and_forgets() {
    let mut assembler = InboundAssembler::new();
    assembler.bind(20);
    assert_eq!(assembler.accept_read(ReadOutcome::Bytes(vec![1])), ReadStep::Gathered);
    assembler.release();
    assert!(!assembler.is_bound());
    assert_eq!(assembler.read_capacity(), 0);
    assert_eq!(assembler.accept_read(ReadOutcome::Bytes(Vec::new())), ReadStep::Unbound);
}
