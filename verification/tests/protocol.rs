use aviutl2_alias_inserter::protocol::{
    decode_utf16le, encode_utf16le, wide_null, MAX_PAYLOAD_BYTES, PIPE_NAME,
};
use aviutl2_alias_inserter::utf16::{decode_units, encode_units};

/// The basic case of decoding.
#[test]
fn test_decode_utf16le_ascii() {
    let input: Vec<u8> = "hello"
        .encode_utf16()
        .flat_map(|c| c.to_le_bytes())
        .collect();
    assert_eq!(decode_utf16le(&input).unwrap(), "hello");
}

/// The NUL at the end is taken off.
#[test]
fn test_decode_utf16le_null_terminated() {
    let input: Vec<u8> = "path"
        .encode_utf16()
        .chain(std::iter::once(0u16))
        .flat_map(|c| c.to_le_bytes())
        .collect();
    assert_eq!(decode_utf16le(&input).unwrap(), "path");
}

/// An odd number of bytes is an error.
#[test]
fn test_decode_utf16le_odd_bytes() {
    let result = decode_utf16le(&[0x68, 0x00, 0x65]);
    assert!(result.is_err());
    assert!(result.unwrap_err().contains("奇数"));
}

/// A Japanese path is decoded.
#[test]
fn test_decode_utf16le_japanese() {
    let path = "C:\\ユーザー\\テスト.object";
    let encoded: Vec<u8> = path
        .encode_utf16()
        .flat_map(|c| c.to_le_bytes())
        .collect();
    assert_eq!(decode_utf16le(&encoded).unwrap(), path);
}

/// No bytes are the empty text.
#[test]
fn test_decode_utf16le_empty() {
    assert_eq!(decode_utf16le(&[]).unwrap(), "");
}

/// ASCII text is encoded low byte first, with a NUL behind it.
#[test]
fn test_encode_utf16le_ascii() {
    let encoded = encode_utf16le("AB");
    assert_eq!(encoded, vec![0x41, 0x00, 0x42, 0x00, 0x00, 0x00]);
}

/// Japanese text is encoded.
#[test]
fn test_encode_utf16le_japanese() {
    let encoded = encode_utf16le("あ");
    assert_eq!(encoded, vec![0x42, 0x30, 0x00, 0x00]);
}

/// The empty text is just the NUL.
#[test]
fn test_encode_utf16le_empty() {
    let encoded = encode_utf16le("");
    assert_eq!(encoded, vec![0x00, 0x00]);
}

/// Every kind of text comes back as it went in.
#[test]
fn payload_round_trip() {
    for text in ["", "a", "C:\\ユーザー\\テスト.object", "𠮷野家.object", "😀a😀", "\u{FFFF}\u{10000}\u{10FFFF}"] {
        let payload = encode_utf16le(text);
        assert_eq!(decode_utf16le(&payload).unwrap(), text);
    }
}

/// A text with a NUL comes back up to it.
#[test]
fn payload_round_trip_stops_at_null() {
    let payload = encode_utf16le("ab\0cd");
    assert_eq!(payload.len(), 12);
    assert_eq!(decode_utf16le(&payload).unwrap(), "ab");
}

/// What follows the NUL does not matter, not even a lone surrogate.
#[test]
fn nothing_after_null_counts() {
    assert_eq!(decode_utf16le(&[0x41, 0, 0, 0, 0x00, 0xD8]).unwrap(), "A");
    assert_eq!(decode_utf16le(&[0, 0, 0x41, 0]).unwrap(), "");
}

/// A character beyond the basic plane is a surrogate pair.
#[test]
fn surrogate_pair_bytes() {
    assert_eq!(
        encode_utf16le("😀"),
        vec![0x3D, 0xD8, 0x00, 0xDE, 0x00, 0x00]
    );
    assert_eq!(decode_utf16le(&[0x3D, 0xD8, 0x00, 0xDE]).unwrap(), "😀");
}

/// A lone surrogate is an error, with the text that the standard library has for it.
#[test]
fn lone_surrogates_are_refused() {
    let expected = format!(
        "UTF-16 デコードエラー: {}",
        String::from_utf16(&[0xD800]).unwrap_err()
    );
    for units in [
        vec![0xD83Du16],
        vec![0xDE00],
        vec![0xDE00, 0xD83D],
        vec![0xD83D, 0x0041],
        vec![0xD83D, 0xD83D, 0xDE00],
        vec![0x0041, 0xD83D, 0xDE00, 0xDE00],
    ] {
        assert!(String::from_utf16(&units).is_err());
        let bytes: Vec<u8> = units.iter().flat_map(|c| c.to_le_bytes()).collect();
        assert_eq!(decode_utf16le(&bytes).unwrap_err(), expected);
    }
}

/// The message for an odd number of bytes names the number.
#[test]
fn odd_length_message_text() {
    assert_eq!(decode_utf16le(&[1]).unwrap_err(), "バイト数が奇数です: 1");
    assert_eq!(
        decode_utf16le(&[1; 1001]).unwrap_err(),
        "バイト数が奇数です: 1001"
    );
}

/// Every character has the units that the standard library gives it.
#[test]
fn every_character_as_in_the_standard_library() {
    for value in 0..=0x10FFFFu32 {
        if let Some(c) = char::from_u32(value) {
            let mut text = String::new();
            text.push(c);
            let expected: Vec<u16> = text.encode_utf16().collect();
            assert_eq!(encode_units(&text), expected);
            assert_eq!(decode_units(&expected).unwrap(), text);
        }
    }
}

/// A wide string ends in one NUL.
#[test]
fn wide_null_ends_in_null() {
    assert_eq!(wide_null("D:あ"), vec![0x44, 0x3A, 0x3042, 0]);
    assert_eq!(wide_null(""), vec![0]);
}

/// The name and the limit of the protocol.
#[test]
fn protocol_constants() {
    assert_eq!(PIPE_NAME, r"\\.\pipe\aviutl2_alias_inserter");
    assert_eq!(MAX_PAYLOAD_BYTES, 32_768);
}
