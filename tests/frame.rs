use rs_openshowvar::frame::{decode_response, encode_request, extract_value, reply_value};
use rs_openshowvar::OsvError;

fn response(pad: &[u8], value: &[u8]) -> Vec<u8> {
    let mut r = pad.to_vec();
    r.push((value.len() >> 8) as u8);
    r.push((value.len() & 0xff) as u8);
    r.extend_from_slice(value);
    r
}

#[test]
fn encode_read_request_bytes() {
    assert_eq!(encode_request("ab", ""), vec![0, 0, 0, 5, 0, 0, 2, b'a', b'b']);
}

#[test]
fn encode_write_request_bytes() {
    let expected = vec![0, 0, 0, 11, 1, 0, 1, b'v', 0, 5, b'h', b'e', b'l', b'l', b'o'];
    assert_eq!(encode_request("v", "hello"), expected);
}

#[test]
fn write_frame_length_field_matches_payload() {
    let f = encode_request("existing_var", "new_value");
    let declared = ((f[2] as usize) << 8) | f[3] as usize;
    assert_eq!(declared, f.len() - 4);
    assert_eq!(f[4], 1);
    assert_eq!(&f[0..2], &[0, 0]);
}

#[test]
fn write_frame_length_above_one_byte() {
    let value = "x".repeat(300);
    let f = encode_request("name", &value);
    assert_eq!(f.len(), 4 + 5 + 4 + 300);
    assert_eq!((f[2], f[3]), (1, 53));
    assert_eq!((f[11], f[12]), (1, 44));
}

#[test]
fn read_frame_has_no_value_segment() {
    let f = encode_request("existing_var", "");
    assert_eq!(f[4], 0);
    assert_eq!(f.len(), 7 + "existing_var".len());
    assert_eq!(&f[7..], b"existing_var");
    assert_eq!(((f[2] as usize) << 8) | f[3] as usize, 3 + 12);
}

#[test]
fn encode_counts_utf8_bytes() {
    let f = encode_request("é", "");
    assert_eq!(f, vec![0, 0, 0, 5, 0, 0, 2, 0xc3, 0xa9]);
}

#[test]
fn extract_value_round_trip() {
    let r = response(&[9, 9, 9, 9, 9], b"hello");
    assert_eq!(extract_value(&r), Ok("hello".to_string()));
}

#[test]
fn extract_value_round_trip_multibyte() {
    let text = "grüße, 世界";
    let r = response(&[0, 0, 0, 0, 0], text.as_bytes());
    assert_eq!(extract_value(&r), Ok(text.to_string()));
}

#[test]
fn extract_value_ignores_trailing_bytes() {
    let mut r = response(&[1, 2, 3, 4, 5], b"abc");
    r.extend_from_slice(b"zz");
    assert_eq!(extract_value(&r), Ok("abc".to_string()));
}

#[test]
fn extract_value_replaces_invalid_utf8() {
    let r = response(&[0, 0, 0, 0, 0], &[b'a', 0xff, b'b']);
    assert_eq!(extract_value(&r), Ok("a\u{fffd}b".to_string()));
}

#[test]
fn extract_value_empty_value() {
    let r = response(&[0, 0, 0, 0, 0], b"");
    assert_eq!(extract_value(&r), Ok(String::new()));
}

#[test]
fn short_response_is_invalid_length() {
    assert_eq!(extract_value(&vec![]), Err(OsvError::InvalidResponseLength));
    assert_eq!(extract_value(&vec![1, 2, 3, 4, 5, 6]), Err(OsvError::InvalidResponseLength));
    assert_eq!(reply_value(b"ABCDEF".to_vec()), Err(OsvError::InvalidResponseLength));
}

#[test]
fn declared_length_past_end_is_mismatch() {
    let r = vec![0, 0, 0, 0, 0, 0, 10, b'a', b'b'];
    assert_eq!(extract_value(&r), Err(OsvError::ResponseLengthMismatch));
    let r = vec![0, 0, 0, 0, 0, 1, 0, b'a'];
    assert_eq!(reply_value(r), Err(OsvError::ResponseLengthMismatch));
}

#[test]
fn absent_variable_responses() {
    assert_eq!(decode_response(vec![]), Err(OsvError::VariableNotFound));
    assert_eq!(decode_response(vec![b' ', b' ', 1, 7, 200]), Err(OsvError::VariableNotFound));
    assert_eq!(decode_response(vec![b'a', b'b', 0]), Err(OsvError::VariableNotFound));
    assert_eq!(reply_value(vec![0, 0, 0, 0, 0, 0, 1, b'x', 0]), Err(OsvError::VariableNotFound));
}

#[test]
fn present_variable_response_is_kept() {
    let r = vec![0, 0, 0, 0, 0, 0, 1, b'x'];
    assert_eq!(decode_response(r.clone()), Ok(r));
}

#[test]
fn echoed_write_gives_value() {
    let r = vec![0, 0, 0, 8, 1, 0, 5, b'h', b'e', b'l', b'l', b'o'];
    assert_eq!(reply_value(r), Ok("hello".to_string()));
}
