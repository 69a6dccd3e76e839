use crossterm::{encode_char_buffer, write_char_buffer, NativeReply};

fn succeeded() -> NativeReply {
    NativeReply { status: 1, count: 0 }
}

fn failed() -> NativeReply {
    NativeReply { status: 0, count: 0 }
}

#[test]
fn multi_byte_text_reports_byte_length() {
    let text = encode_char_buffer("héllo".as_bytes());
    let expected: Vec<u16> = "héllo".encode_utf16().collect();
    assert_eq!(text.units, expected);
    assert_eq!(text.units.len(), 5);
    assert_eq!(text.unit_count, 5);
    assert_eq!(text.source_len, 6);
    assert_eq!(write_char_buffer(&text, succeeded()), 6);
}

#[test]
fn ascii_text_reports_length_or_zero() {
    let text = encode_char_buffer(b"hello world");
    assert_eq!(write_char_buffer(&text, succeeded()), 11);
    assert_eq!(write_char_buffer(&text, failed()), 0);
}

#[test]
fn failed_multi_byte_write_reports_zero() {
    let text = encode_char_buffer("héllo".as_bytes());
    assert_eq!(write_char_buffer(&text, failed()), 0);
}

#[test]
fn invalid_bytes_become_placeholder() {
    let a = encode_char_buffer(&[0xff, 0xfe, 0x41]);
    let b = encode_char_buffer(&[0xc3]);
    let placeholder: Vec<u16> = "123".encode_utf16().collect();
    assert_eq!(a.units, placeholder);
    assert_eq!(b.units, placeholder);
    assert_eq!(a.source_len, 3);
    assert_eq!(b.source_len, 3);
    assert_eq!(a.unit_count, 3);
    assert_eq!(write_char_buffer(&a, succeeded()), 3);
}

#[test]
fn characters_above_basic_plane_become_surrogate_pairs() {
    let text = encode_char_buffer("a\u{1F600}".as_bytes());
    assert_eq!(text.units, vec![0x61, 0xD83D, 0xDE00]);
    assert_eq!(text.unit_count, 3);
    assert_eq!(text.source_len, 5);
}

#[test]
fn empty_text_writes_nothing() {
    let text = encode_char_buffer(&[]);
    assert!(text.units.is_empty());
    assert_eq!(text.unit_count, 0);
    assert_eq!(text.source_len, 0);
    assert_eq!(write_char_buffer(&text, succeeded()), 0);
}
