use fuse_bridge::outcome::{decode_native, encode_outcome, AdapterError, CallOutcome, ENCODING_ERRNO};
use fuse_bridge::text::marshal_text;
use fuse_bridge::view::ByteView;

#[test]
fn encode_success_keeps_payload() {
    assert_eq!(encode_outcome(&CallOutcome::Success(0)), 0);
    assert_eq!(encode_outcome(&CallOutcome::Success(5)), 5);
    assert_eq!(encode_outcome(&CallOutcome::Success(i32::MAX)), i32::MAX);
}

#[test]
fn encode_failure_negates_code() {
    assert_eq!(encode_outcome(&CallOutcome::Failed(1)), -1);
    assert_eq!(encode_outcome(&CallOutcome::Failed(38)), -38);
    assert_eq!(encode_outcome(&CallOutcome::Failed(ENCODING_ERRNO)), -84);
}

#[test]
fn decode_native_splits_on_sign() {
    assert_eq!(decode_native(9), CallOutcome::Success(9));
    assert_eq!(decode_native(0), CallOutcome::Success(0));
    assert_eq!(decode_native(-7), CallOutcome::Failed(7));
    assert_eq!(decode_native(i32::MIN), CallOutcome::Failed(i32::MAX));
}

#[test]
fn return_convention_round_trips() {
    for ret in [-131, -38, -1, 0, 1, 4096] {
        assert_eq!(encode_outcome(&decode_native(ret)), ret);
    }
}

#[test]
fn pair_round_trip_empty() {
    let view = ByteView::from_pair(Vec::new(), 0);
    assert_eq!(view.len(), 0);
    let (bytes, len) = view.into_pair();
    assert_eq!(bytes, Vec::<u8>::new());
    assert_eq!(len, 0);
}

#[test]
fn pair_round_trip_single() {
    let view = ByteView::from_pair(vec![0xa5], 1);
    assert_eq!(view.len(), 1);
    assert_eq!(view.read(0), 0xa5);
    let (bytes, len) = view.into_pair();
    assert_eq!(bytes, vec![0xa5]);
    assert_eq!(len, 1);
}

#[test]
fn pair_round_trip_many() {
    let original = vec![1u8, 2, 3, 4, 5, 6, 7];
    let view = ByteView::from_pair(original.clone(), original.len());
    let (bytes, len) = view.into_pair();
    assert_eq!(bytes, original);
    assert_eq!(len, original.len());
}

#[test]
fn view_write_keeps_length() {
    let mut view = ByteView::from_pair(vec![0u8, 0, 0], 3);
    view.write(1, 0x42);
    assert_eq!(view.len(), 3);
    assert_eq!(view.read(0), 0);
    assert_eq!(view.read(1), 0x42);
    assert_eq!(view.read(2), 0);
    assert_eq!(view.as_bytes(), &vec![0u8, 0x42, 0]);
}

#[test]
fn text_valid_ascii_decodes_identically() {
    let bytes: Vec<u8> = b"hello/world.txt".to_vec();
    let text = marshal_text(&bytes).expect("valid ascii must decode");
    assert_eq!(text, "hello/world.txt");
}

#[test]
fn text_valid_multibyte_decodes_identically() {
    let bytes: Vec<u8> = "caf\u{e9}/r\u{e9}sum\u{e9}.txt".as_bytes().to_vec();
    let text = marshal_text(&bytes).expect("valid utf-8 must decode");
    assert_eq!(text, "caf\u{e9}/r\u{e9}sum\u{e9}.txt");
    // More bytes than characters: decoding is by encoding, not identity
    // on bytes.
    assert!(bytes.len() > text.chars().count());
}

#[test]
fn text_invalid_bytes_are_a_distinguished_error() {
    let bytes: Vec<u8> = vec![0x66, 0x6f, 0xff, 0xfe];
    assert_eq!(marshal_text(&bytes), Err(AdapterError::Encoding));
    // A lone continuation byte is invalid too.
    assert_eq!(marshal_text(&vec![0x80u8]), Err(AdapterError::Encoding));
}
