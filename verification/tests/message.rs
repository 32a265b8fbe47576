use ble_peripheral::message::{BleMessage, ConversionError};

#[test]
fn text_to_bytes_is_utf8() {
    let msg = BleMessage::from_text("hello".to_string());
    assert_eq!(msg.take_bytes(), "hello".as_bytes().to_vec());
    assert_eq!(
        BleMessage::from_text("hello".to_string()).take_bytes(),
        vec![0x68, 0x65, 0x6c, 0x6c, 0x6f]
    );
}

#[test]
fn raw_to_bytes_is_identity() {
    let msg = BleMessage::from_bytes(vec![1, 2, 3]);
    assert_eq!(msg.take_bytes(), vec![1, 2, 3]);
    assert_eq!(BleMessage::from_bytes(Vec::new()).take_bytes(), Vec::<u8>::new());
}

#[test]
fn bytes_to_text_round_trip() {
    let msg = BleMessage::from_bytes("hello".as_bytes().to_vec());
    assert_eq!(msg.convert_to_text(), Ok(BleMessage::Text("hello".to_string())));
}

#[test]
fn round_trip_beyond_ascii() {
    let text = "gr\u{fc}\u{df}e \u{2713} \u{1f980}";
    let bytes = BleMessage::from_text(text.to_string()).take_bytes();
    assert_eq!(bytes.len(), 16);
    assert_eq!(
        BleMessage::from_bytes(bytes.clone()).convert_to_text(),
        Ok(BleMessage::Text(text.to_string()))
    );
    assert_eq!(BleMessage::from_bytes(bytes).as_string(), text);
}

#[test]
fn convert_text_is_refused() {
    let msg = BleMessage::from_text("already text".to_string());
    assert_eq!(msg.convert_to_text(), Err(ConversionError::TextFromNonRaw));
}

#[test]
fn lossy_decoding_replaces_ill_formed_bytes() {
    let msg = BleMessage::from_bytes(vec![0x61, 0xff, 0x62]);
    assert_eq!(msg.convert_to_text(), Ok(BleMessage::Text("a\u{fffd}b".to_string())));
    let truncated = BleMessage::from_bytes(vec![0xe2, 0x9c]);
    assert_eq!(truncated.as_string(), "\u{fffd}");
}

#[test]
fn convert_empty_raw_gives_empty_text() {
    assert_eq!(
        BleMessage::from_bytes(Vec::new()).convert_to_text(),
        Ok(BleMessage::Text(String::new()))
    );
}

#[test]
fn extend_raw_appends_in_place() {
    let mut msg = BleMessage::from_bytes(vec![1, 2]);
    assert_eq!(msg.extend_raw_bytes(vec![3, 4, 5]), Ok(()));
    assert_eq!(msg, BleMessage::Raw(vec![1, 2, 3, 4, 5]));
    assert_eq!(msg.extend_raw_bytes(Vec::new()), Ok(()));
    assert_eq!(msg, BleMessage::Raw(vec![1, 2, 3, 4, 5]));
}

#[test]
fn extend_text_is_refused_and_unchanged() {
    let mut msg = BleMessage::from_text("abc".to_string());
    assert_eq!(msg.extend_raw_bytes(vec![1]), Err(ConversionError::ExtendNonRaw));
    assert_eq!(msg, BleMessage::Text("abc".to_string()));
}

#[test]
fn as_string_of_both_variants() {
    assert_eq!(BleMessage::from_text("test".to_string()).as_string(), "test");
    assert_eq!(BleMessage::from_bytes(vec![0x74, 0x65, 0x73, 0x74]).as_string(), "test");
}

#[test]
fn conversion_error_messages() {
    assert_eq!(
        ConversionError::TextFromNonRaw.message(),
        "Message must be raw bytes in order to convert to text"
    );
    assert_eq!(
        ConversionError::ExtendNonRaw.message(),
        "Message must be raw bytes in order to extend them"
    );
}

#[test]
fn from_conversions_pick_the_variant() {
    assert_eq!(BleMessage::from("test"), BleMessage::Text("test".to_string()));
    assert_eq!(BleMessage::from("test".to_string()), BleMessage::Text("test".to_string()));
    assert_eq!(BleMessage::from(vec![7u8, 8]), BleMessage::Raw(vec![7, 8]));
    let msg: BleMessage = "into".into();
    assert_eq!(msg, BleMessage::Text("into".to_string()));
}

#[test]
fn constructors_do_not_coerce() {
    assert_eq!(
        BleMessage::from_bytes("hello".as_bytes().to_vec()),
        BleMessage::Raw(vec![0x68, 0x65, 0x6c, 0x6c, 0x6f])
    );
    assert_ne!(
        BleMessage::from_bytes("hello".as_bytes().to_vec()),
        BleMessage::from_text("hello".to_string())
    );
}
