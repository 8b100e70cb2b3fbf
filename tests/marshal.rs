use dotnet_bridge_host::error::BridgeError;
use dotnet_bridge_host::marshal::{decode_response, nul_position, request_length, MAX_REQUEST_LEN};

#[test]
fn ping_request_sends_its_byte_length() {
    assert_eq!(request_length("ping"), Ok(4));
}

#[test]
fn pong_buffer_decodes_to_pong() {
    assert_eq!(decode_response(b"pong\0".to_vec()), "pong");
}

#[test]
fn empty_request_sends_zero_length() {
    assert_eq!(request_length(""), Ok(0));
}

#[test]
fn empty_response_decodes_to_empty_text() {
    assert_eq!(decode_response(vec![0u8]), "");
    assert_eq!(decode_response(Vec::new()), "");
}

#[test]
fn request_length_counts_utf8_bytes_not_chars() {
    assert_eq!(request_length("h\u{e9}llo"), Ok(6));
    assert_eq!(request_length("\u{1F600}"), Ok(4));
}

#[test]
fn largest_request_length_is_i32_max() {
    assert_eq!(MAX_REQUEST_LEN, i32::MAX as usize);
    assert_ne!(request_length("x"), Err(BridgeError::RequestTooLong));
}

#[test]
fn invalid_bytes_are_replaced_not_rejected() {
    assert_eq!(decode_response(vec![0x66, 0xFF, 0x6F, 0x00]), "f\u{FFFD}o");
    assert_eq!(decode_response(vec![0xC3, 0x00]), "\u{FFFD}");
}

#[test]
fn multibyte_response_decodes_exactly() {
    assert_eq!(decode_response(vec![0x63, 0x61, 0x66, 0xC3, 0xA9, 0x00]), "caf\u{e9}");
}

#[test]
fn response_stops_at_first_nul() {
    assert_eq!(decode_response(b"ab\0cd\0".to_vec()), "ab");
}

#[test]
fn response_without_terminator_is_taken_whole() {
    assert_eq!(decode_response(b"abc".to_vec()), "abc");
}

#[test]
fn nul_position_finds_first_nul_or_end() {
    assert_eq!(nul_position(b"ab\0c\0"), 2);
    assert_eq!(nul_position(b"\0"), 0);
    assert_eq!(nul_position(b"abc"), 3);
    assert_eq!(nul_position(b""), 0);
}

#[test]
fn same_request_and_buffer_give_same_response() {
    let request = "same request";
    assert_eq!(request_length(request), request_length(request));
    let first = decode_response(b"answer\xFF\0".to_vec());
    let second = decode_response(b"answer\xFF\0".to_vec());
    assert_eq!(first, second);
    assert_eq!(first, "answer\u{FFFD}");
}
