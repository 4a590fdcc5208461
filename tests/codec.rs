use presence_rpc::codec::{decode_message, encode_message, read_header, OpCode, HEADER_LEN};
use presence_rpc::error::RpcError;

#[test]
fn encode_writes_opcode_length_and_payload() {
    let bytes = encode_message(OpCode::Handshake, "ab").unwrap();
    assert_eq!(bytes, vec![0, 0, 0, 0, 2, 0, 0, 0, b'a', b'b']);
    let bytes = encode_message(OpCode::Frame, "{}").unwrap();
    assert_eq!(bytes, vec![1, 0, 0, 0, 2, 0, 0, 0, b'{', b'}']);
}

#[test]
fn encode_length_counts_utf8_bytes() {
    let payload = "h\u{e9}llo \u{1f600}";
    let bytes = encode_message(OpCode::Frame, payload).unwrap();
    assert_eq!(bytes.len(), HEADER_LEN + payload.len());
    assert_eq!(bytes.len(), 8 + 11);
    assert_eq!(&bytes[4..8], &[11, 0, 0, 0]);
}

#[test]
fn encode_empty_payload() {
    let bytes = encode_message(OpCode::Frame, "").unwrap();
    assert_eq!(bytes, vec![1, 0, 0, 0, 0, 0, 0, 0]);
    assert_eq!(decode_message(&bytes).unwrap(), "");
}

#[test]
fn encode_long_payload_length_field() {
    let payload = "x".repeat(300);
    let bytes = encode_message(OpCode::Frame, &payload).unwrap();
    assert_eq!(&bytes[4..8], &[44, 1, 0, 0]);
    assert_eq!(bytes.len(), 308);
}

#[test]
fn round_trip_keeps_payload() {
    for payload in ["", "{\"a\":1}", "\u{e9}\u{4e2d}\u{1f600}", "plain text"] {
        for op in [OpCode::Handshake, OpCode::Frame] {
            let bytes = encode_message(op, payload).unwrap();
            assert_eq!(decode_message(&bytes).unwrap(), payload);
        }
    }
}

#[test]
fn decode_short_frame_fails() {
    assert_eq!(decode_message(&[1, 0, 0]), Err(RpcError::Decoding));
    assert_eq!(decode_message(&[]), Err(RpcError::Decoding));
}

#[test]
fn decode_invalid_utf8_fails() {
    assert_eq!(
        decode_message(&[1, 0, 0, 0, 2, 0, 0, 0, 0xff, 0xfe]),
        Err(RpcError::Decoding)
    );
}

#[test]
fn decode_ignores_declared_length() {
    assert_eq!(
        decode_message(&[1, 0, 0, 0, 9, 0, 0, 0, b'o', b'k']).unwrap(),
        "ok"
    );
}

#[test]
fn opcode_numbers() {
    assert_eq!(OpCode::Handshake.code(), 0);
    assert_eq!(OpCode::Frame.code(), 1);
}

#[test]
fn header_gives_opcode_and_length() {
    let bytes = encode_message(OpCode::Frame, &"y".repeat(70000)).unwrap();
    assert_eq!(read_header(&bytes).unwrap(), (1, 70000));
    assert_eq!(read_header(&[0, 0, 0, 0, 1, 2, 3, 4]).unwrap(), (0, 0x04030201));
    assert_eq!(read_header(&[0, 0, 0, 0, 1, 2, 3]), Err(RpcError::Decoding));
}
