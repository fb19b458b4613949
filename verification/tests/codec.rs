use yowsl::error::{DecodeFailure, Error};
use yowsl::narrow_chars::{from_vec_u8, narrow_text, MAX_NARROW_LEN};
use yowsl::wide_chars::{from_vec_u16, to_vec_u16, MAX_WIDE_LEN, REPLACEMENT};

#[test]
fn encode_appends_one_terminator() {
    assert_eq!(to_vec_u16("abc"), vec![0x61, 0x62, 0x63, 0]);
    assert_eq!(to_vec_u16("Ubuntu-18.04"), "Ubuntu-18.04\0".encode_utf16().collect::<Vec<u16>>());
}

#[test]
fn encode_of_empty_text_is_the_terminator_alone() {
    assert_eq!(to_vec_u16(""), vec![0]);
}

#[test]
fn encode_uses_one_unit_below_the_surrogates_and_above_them() {
    assert_eq!(to_vec_u16("\u{D7FF}\u{E000}\u{FFFF}"), vec![0xD7FF, 0xE000, 0xFFFF, 0]);
    assert_eq!(to_vec_u16("é日"), vec![0x00E9, 0x65E5, 0]);
}

#[test]
fn encode_uses_a_surrogate_pair_above_the_basic_plane() {
    assert_eq!(to_vec_u16("\u{10000}"), vec![0xD800, 0xDC00, 0]);
    assert_eq!(to_vec_u16("\u{1F600}"), vec![0xD83D, 0xDE00, 0]);
    assert_eq!(to_vec_u16("\u{10FFFF}"), vec![0xDBFF, 0xDFFF, 0]);
}

#[test]
fn decode_of_a_null_pointer_fails() {
    assert_eq!(from_vec_u16(None), Err(Error::DecodeError(DecodeFailure::Null)));
}

#[test]
fn decode_without_terminator_fails() {
    assert_eq!(from_vec_u16(Some(&[])), Err(Error::DecodeError(DecodeFailure::Unterminated)));
    assert_eq!(
        from_vec_u16(Some(&[0x61, 0x62])),
        Err(Error::DecodeError(DecodeFailure::Unterminated))
    );
}

#[test]
fn decode_stops_at_the_first_terminator() {
    assert_eq!(from_vec_u16(Some(&[0x61, 0, 0x62, 0])), Ok("a".to_string()));
    assert_eq!(from_vec_u16(Some(&[0])), Ok(String::new()));
}

#[test]
fn decode_joins_surrogate_pairs() {
    assert_eq!(from_vec_u16(Some(&[0xD83D, 0xDE00, 0])), Ok("\u{1F600}".to_string()));
    assert_eq!(from_vec_u16(Some(&[0xD800, 0xDC00, 0x41, 0])), Ok("\u{10000}A".to_string()));
}

#[test]
fn decode_replaces_surrogates_without_partner() {
    assert_eq!(REPLACEMENT, '\u{FFFD}');
    assert_eq!(from_vec_u16(Some(&[0xD800, 0])), Ok("\u{FFFD}".to_string()));
    assert_eq!(from_vec_u16(Some(&[0xDC00, 0x41, 0])), Ok("\u{FFFD}A".to_string()));
    assert_eq!(from_vec_u16(Some(&[0xD800, 0x41, 0])), Ok("\u{FFFD}A".to_string()));
    assert_eq!(from_vec_u16(Some(&[0xD800, 0xD800, 0xDC00, 0])), Ok("\u{FFFD}\u{10000}".to_string()));
    assert_eq!(from_vec_u16(Some(&[0xDC00, 0xD800, 0])), Ok("\u{FFFD}\u{FFFD}".to_string()));
}

#[test]
fn decode_agrees_with_the_lossy_decoding_of_std() {
    let samples: Vec<Vec<u16>> = vec![
        vec![0x48, 0x69],
        vec![0xD834, 0xDD1E, 0x6D, 0x75, 0xD800, 0x69, 0x63],
        vec![0xDFFF, 0xDBFF, 0xDBFF, 0xDC00],
        vec![0xFFFF, 0xFFFE, 0xD7FF, 0xE000],
    ];
    for units in samples {
        let mut buffer = units.clone();
        buffer.push(0);
        assert_eq!(from_vec_u16(Some(&buffer)), Ok(String::from_utf16_lossy(&units)));
    }
}

#[test]
fn encode_then_decode_gives_the_text_back() {
    for text in ["", "Ubuntu", "Ubuntu-18.04", "дистрибутив", "日本語", "a\u{1F600}b\u{10FFFF}", "101"] {
        assert_eq!(from_vec_u16(Some(&to_vec_u16(text))), Ok(text.to_string()));
    }
}

#[test]
fn encode_then_decode_ends_at_a_character_zero() {
    assert_eq!(from_vec_u16(Some(&to_vec_u16("a\0b"))), Ok("a".to_string()));
}

#[test]
fn decode_scans_no_further_than_the_bound() {
    let longest = "x".repeat(MAX_WIDE_LEN);
    assert_eq!(from_vec_u16(Some(&to_vec_u16(&longest))), Ok(longest.clone()));
    let too_long = "x".repeat(MAX_WIDE_LEN + 1);
    assert_eq!(
        from_vec_u16(Some(&to_vec_u16(&too_long))),
        Err(Error::DecodeError(DecodeFailure::Unterminated))
    );
}

#[test]
fn narrow_decode_of_a_null_pointer_fails() {
    assert_eq!(narrow_text(None), Err(DecodeFailure::Null));
    assert_eq!(from_vec_u8(None), Err(Error::DecodeError(DecodeFailure::Null)));
}

#[test]
fn narrow_decode_without_terminator_fails() {
    assert_eq!(narrow_text(Some(b"PATH=/bin")), Err(DecodeFailure::Unterminated));
    assert_eq!(narrow_text(Some(b"")), Err(DecodeFailure::Unterminated));
    assert_eq!(from_vec_u8(Some(b"x")), Err(Error::DecodeError(DecodeFailure::Unterminated)));
}

#[test]
fn narrow_decode_stops_at_the_first_terminator() {
    assert_eq!(narrow_text(Some(b"PATH=/bin\0")), Ok("PATH=/bin".to_string()));
    assert_eq!(narrow_text(Some(b"A=1\0B=2\0")), Ok("A=1".to_string()));
    assert_eq!(narrow_text(Some(b"\0")), Ok(String::new()));
    assert_eq!(from_vec_u8(Some(b"LANG=C\0")), Ok("LANG=C".to_string()));
}

#[test]
fn narrow_decode_reads_utf8() {
    assert_eq!(narrow_text(Some("GRÜSSE=日本\u{1F600}\0".as_bytes())), Ok("GRÜSSE=日本\u{1F600}".to_string()));
}

#[test]
fn narrow_decode_of_bytes_that_are_not_utf8_fails() {
    assert_eq!(narrow_text(Some(&[0x41, 0xFF, 0])), Err(DecodeFailure::Malformed));
    assert_eq!(narrow_text(Some(&[0xC0, 0x80, 0])), Err(DecodeFailure::Malformed));
    assert_eq!(narrow_text(Some(&[0xED, 0xA0, 0x80, 0])), Err(DecodeFailure::Malformed));
    assert_eq!(narrow_text(Some(&[0xE6, 0x97, 0])), Err(DecodeFailure::Malformed));
    assert_eq!(from_vec_u8(Some(&[0x80, 0])), Err(Error::DecodeError(DecodeFailure::Malformed)));
}

#[test]
fn narrow_decode_scans_no_further_than_the_bound() {
    let mut longest = vec![b'x'; MAX_NARROW_LEN];
    longest.push(0);
    assert_eq!(narrow_text(Some(&longest)), Ok("x".repeat(MAX_NARROW_LEN)));
    let mut too_long = vec![b'x'; MAX_NARROW_LEN + 1];
    too_long.push(0);
    assert_eq!(narrow_text(Some(&too_long)), Err(DecodeFailure::Unterminated));
}
