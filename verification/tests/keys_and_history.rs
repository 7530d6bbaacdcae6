use editline::history::history_request;
use editline::history::history_result;
use editline::keys::key_byte;
use editline::keys::status_code;
use editline::keys::uses_meta_map;
use editline::Key;
use editline::Status;

#[test]
fn control_d_is_byte_four_in_primary_table() {
    let key = Key::Ctrl('D');
    assert_eq!(key_byte(key), 0x04);
    assert!(!uses_meta_map(key));
}

#[test]
fn meta_d_is_plain_byte_in_meta_map() {
    let key = Key::Meta('d');
    assert_eq!(key_byte(key), 0x64);
    assert!(uses_meta_map(key));
}

#[test]
fn plain_key_is_unmodified_in_primary_table() {
    let key = Key::Plain('a');
    assert_eq!(key_byte(key), 0x61);
    assert!(!uses_meta_map(key));
}

#[test]
fn meta_control_key_is_masked_in_meta_map() {
    let key = Key::MetaCtrl('D');
    assert_eq!(key_byte(key), 0x04);
    assert!(uses_meta_map(key));
}

#[test]
fn status_ordinals_match_the_native_header() {
    assert_eq!(status_code(Status::Done), 0);
    assert_eq!(status_code(Status::EOF), 1);
    assert_eq!(status_code(Status::Move), 2);
    assert_eq!(status_code(Status::Dispatch), 3);
    assert_eq!(status_code(Status::Stay), 4);
    assert_eq!(status_code(Status::Signal), 5);
}

#[test]
fn history_failure_names_the_path() {
    let path = b"/no/such/place/history".to_vec();
    let r = history_result(1, &path);
    assert_eq!(r.unwrap_err().path, path);
}

#[test]
fn history_all_clear_code_is_success() {
    let path = b"/tmp/history".to_vec();
    assert!(history_result(0, &path).is_ok());
}

#[test]
fn history_request_encodes_the_path() {
    let path = b"/tmp/history".to_vec();
    let buf = history_request(&path).unwrap();
    assert_eq!(buf, b"/tmp/history\0".to_vec());
}

#[test]
fn history_request_rejects_embedded_null_naming_the_path() {
    let path = b"/tmp/hi\0story".to_vec();
    let r = history_request(&path);
    assert_eq!(r.unwrap_err().path, path);
}
