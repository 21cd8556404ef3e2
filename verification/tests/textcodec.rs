use person_ffi::text::decode_text;
use person_ffi::text::encode_text;

#[test]
fn ascii_decode_is_identity() {
    let bytes = b"My street".to_vec();
    let s = decode_text(&bytes);
    assert_eq!(s, "My street");
}

#[test]
fn decode_stops_at_first_nul() {
    let bytes = b"abc\0def".to_vec();
    let s = decode_text(&bytes);
    assert_eq!(s, "abc");
}

#[test]
fn empty_payload_decodes_to_empty_string() {
    let bytes: Vec<u8> = Vec::new();
    assert_eq!(decode_text(&bytes), "");
    let only_nul = vec![0u8];
    assert_eq!(decode_text(&only_nul), "");
}

#[test]
fn multibyte_round_trip_is_identity() {
    let original = "Grüße, 東京 🦀!";
    let bytes = original.as_bytes().to_vec();
    let decoded = decode_text(&bytes);
    assert_eq!(decoded, original);
    let reencoded = encode_text(&decoded);
    assert_eq!(reencoded, bytes);
}

#[test]
fn two_byte_and_three_byte_scalars_decode() {
    let bytes = vec![0xc3, 0xa9, 0xe2, 0x82, 0xac];
    assert_eq!(decode_text(&bytes), "é€");
}

#[test]
fn four_byte_scalar_decodes() {
    let bytes = vec![0xf0, 0x9f, 0xa6, 0x80];
    assert_eq!(decode_text(&bytes), "🦀");
}

#[test]
fn invalid_byte_becomes_replacement_character() {
    let bytes = vec![0x66, 0xff, 0x6f];
    assert_eq!(decode_text(&bytes), "f\u{fffd}o");
}

#[test]
fn stray_continuation_byte_is_replaced() {
    let bytes = vec![0x80];
    assert_eq!(decode_text(&bytes), "\u{fffd}");
}

#[test]
fn truncated_two_byte_encoding_is_replaced() {
    let bytes = vec![0xc3];
    assert_eq!(decode_text(&bytes), "\u{fffd}");
}

#[test]
fn overlong_encoding_is_rejected() {
    // 0xc0 0xaf would be an overlong encoding of '/': both bytes are replaced.
    let bytes = vec![0xc0, 0xaf];
    assert_eq!(decode_text(&bytes), "\u{fffd}\u{fffd}");
}

#[test]
fn surrogate_encoding_is_rejected() {
    // 0xed 0xa0 0x80 would encode the surrogate U+D800.
    let bytes = vec![0xed, 0xa0, 0x80];
    assert_eq!(decode_text(&bytes), "\u{fffd}\u{fffd}\u{fffd}");
}

#[test]
fn scalar_above_unicode_range_is_rejected() {
    // 0xf5 0x90 0x80 0x80 would encode a value above U+10FFFF.
    let bytes = vec![0xf5, 0x90, 0x80, 0x80];
    assert_eq!(decode_text(&bytes), "\u{fffd}\u{fffd}\u{fffd}\u{fffd}");
}

#[test]
fn encode_text_yields_utf8_bytes() {
    assert_eq!(encode_text("abc"), b"abc".to_vec());
    assert_eq!(encode_text("é"), vec![0xc3, 0xa9]);
    assert_eq!(encode_text(""), Vec::<u8>::new());
}
