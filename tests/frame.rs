use tropic01_hal::frame::{check_ack, decode, encode, encode_frame, read_echo};
use tropic01_hal::SerialTransportError;

fn round_trip(data: &[u8]) {
    let frame = encode(data).expect("within the limit");
    assert_eq!(frame.len(), 2 * data.len() + 2);
    assert!(frame.ends_with("x\n"));
    let decoded = decode(frame.as_bytes(), data.len()).expect("decodes");
    assert_eq!(decoded, data);
    let echoed = read_echo(frame.as_bytes(), data.len()).expect("valid echo");
    assert_eq!(echoed, data);
}

#[test]
fn round_trip_empty() {
    round_trip(&[]);
}

#[test]
fn round_trip_one_byte() {
    round_trip(&[0xA5]);
}

#[test]
fn round_trip_largest() {
    let data: Vec<u8> = (0..2048).map(|i| (i * 7 % 256) as u8).collect();
    round_trip(&data);
}

#[test]
fn encode_rejects_2049_bytes() {
    let data = vec![0u8; 2049];
    assert!(matches!(encode(&data), Err(SerialTransportError::DataTooLong)));
}

#[test]
fn encode_is_uppercase_with_terminator() {
    assert_eq!(encode(&[0x00, 0xAB, 0x7F, 0x10]).unwrap(), "00AB7F10x\n");
    assert_eq!(encode_frame(&[0xDE, 0xAD]), b"DEADx\n".to_vec());
    assert_eq!(encode(&[]).unwrap(), "x\n");
}

#[test]
fn decode_accepts_both_cases() {
    assert_eq!(decode(b"aBfF", 2).unwrap(), vec![0xAB, 0xFF]);
}

#[test]
fn decode_reads_only_the_leading_chunks() {
    assert_eq!(decode(b"0102ZZ", 2).unwrap(), vec![0x01, 0x02]);
}

#[test]
fn decode_accepts_plus_sign_chunk() {
    assert_eq!(decode(b"+A", 1).unwrap(), vec![0x0A]);
}

#[test]
fn decode_rejects_non_hex_digit() {
    assert!(matches!(decode(b"0G", 1), Err(SerialTransportError::InvalidHexDigit)));
    assert!(matches!(decode(b"-1", 1), Err(SerialTransportError::InvalidHexDigit)));
}

#[test]
fn decode_rejects_non_utf8() {
    assert!(matches!(decode(&[0x30, 0xFF], 1), Err(SerialTransportError::NonUtf8Hex)));
    assert!(matches!(decode(&[0x80, 0x30], 1), Err(SerialTransportError::NonUtf8Hex)));
}

#[test]
fn decode_two_byte_character_is_not_a_digit() {
    let e_acute = "\u{e9}".as_bytes();
    assert!(matches!(decode(e_acute, 1), Err(SerialTransportError::InvalidHexDigit)));
}

#[test]
fn decode_first_bad_chunk_decides() {
    assert!(matches!(decode(&[b'G', b'0', 0xFF, 0xFF], 2), Err(SerialTransportError::InvalidHexDigit)));
    assert!(matches!(decode(&[0xFF, 0xFF, b'G', b'0'], 2), Err(SerialTransportError::NonUtf8Hex)));
}

#[test]
fn echo_with_crlf_is_accepted() {
    assert_eq!(read_echo(b"0A0B\r\n", 2).unwrap(), vec![0x0A, 0x0B]);
}

#[test]
fn echo_ending_in_zz_is_invalid_response() {
    assert!(matches!(read_echo(b"0A0Bzz", 2), Err(SerialTransportError::InvalidResponse)));
}

#[test]
fn echo_with_g_is_invalid_hex_digit() {
    assert!(matches!(read_echo(b"0G0Bx\n", 2), Err(SerialTransportError::InvalidHexDigit)));
}

#[test]
fn ack_must_be_ok_crlf() {
    assert!(check_ack(b"OK\r\n").is_ok());
    assert!(matches!(check_ack(b"NO\r\n"), Err(SerialTransportError::InvalidResponse)));
    assert!(matches!(check_ack(b"OK\r"), Err(SerialTransportError::InvalidResponse)));
}

#[test]
fn decode_into_keeps_bytes_decoded_before_a_bad_chunk() {
    let mut buf = vec![0u8, 0u8];
    let r = tropic01_hal::frame::decode_into(&[b'4', b'1', 0xFF, 0xFF, b'x', b'\n'], &mut buf);
    assert!(matches!(r, Err(SerialTransportError::NonUtf8Hex)));
    assert_eq!(buf, vec![0x41, 0x00]);
}

#[test]
fn decode_into_fills_the_whole_buffer() {
    let mut buf = vec![9u8; 3];
    assert!(tropic01_hal::frame::decode_into(b"0A0b0C", &mut buf).is_ok());
    assert_eq!(buf, vec![0x0A, 0x0B, 0x0C]);
}

#[test]
fn read_echo_into_leaves_buffer_on_bad_terminator() {
    let mut buf = vec![7u8, 8u8];
    let r = tropic01_hal::frame::read_echo_into(b"0102zz", &mut buf);
    assert!(matches!(r, Err(SerialTransportError::InvalidResponse)));
    assert_eq!(buf, vec![7, 8]);
    let r = tropic01_hal::frame::read_echo_into(b"01G2x\n", &mut buf);
    assert!(matches!(r, Err(SerialTransportError::InvalidHexDigit)));
    assert_eq!(buf, vec![0x01, 8]);
}
