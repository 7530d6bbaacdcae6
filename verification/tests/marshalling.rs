use editline::codec::decode;
use editline::codec::encode_duplicate;

#[test]
fn round_trip_plain_text() {
    let text = b"hello".to_vec();
    let buf = encode_duplicate(&text).unwrap();
    assert_eq!(buf, b"hello\0".to_vec());
    let back = decode(Some(&buf)).unwrap();
    assert_eq!(back, text);
}

#[test]
fn round_trip_empty_text() {
    let text: Vec<u8> = Vec::new();
    let buf = encode_duplicate(&text).unwrap();
    assert_eq!(buf, vec![0u8]);
    let back = decode(Some(&buf)).unwrap();
    assert_eq!(back, text);
}

#[test]
fn embedded_null_rejected() {
    let text = b"ab\0c".to_vec();
    assert!(encode_duplicate(&text).is_none());
}

#[test]
fn lone_null_rejected() {
    let text = vec![0u8];
    assert!(encode_duplicate(&text).is_none());
}

#[test]
fn control_bytes_other_than_null_pass_through() {
    let text = b"a\x07b\x1bc".to_vec();
    let buf = encode_duplicate(&text).unwrap();
    assert_eq!(buf, b"a\x07b\x1bc\0".to_vec());
    assert_eq!(decode(Some(&buf)).unwrap(), text);
}

#[test]
fn decode_of_null_pointer_is_nothing() {
    assert!(decode(None).is_none());
}

#[test]
fn decode_of_empty_buffer_is_empty_text() {
    let buf = vec![0u8];
    let back = decode(Some(&buf));
    assert_eq!(back, Some(Vec::new()));
}

#[test]
fn decode_stops_at_first_null() {
    let buf = b"ab\0cd\0".to_vec();
    assert_eq!(decode(Some(&buf)).unwrap(), b"ab".to_vec());
}

#[test]
fn decode_without_terminator_takes_all() {
    let buf = b"ab".to_vec();
    assert_eq!(decode(Some(&buf)).unwrap(), b"ab".to_vec());
}
