use vstd::prelude::*;
use vstd::utf8::*;

use crate::error::RpcError;

verus! {

broadcast use group_utf8_lib;

/// Length of a frame header: opcode and payload length, four bytes each.
pub const HEADER_LEN: usize = 8;

/// The purpose of a frame.
#[derive(Debug, Clone, Copy, PartialEq, Eq, Structural)]
pub enum OpCode {
    Handshake,
    Frame,
}

impl OpCode {
    /// The opcode's number on the wire.
    pub open spec fn spec_code(self) -> u32 {
        match self {
            OpCode::Handshake => 0,
            OpCode::Frame => 1,
        }
    }

    pub fn code(&self) -> (r: u32)
        ensures
            r == self.spec_code(),
    {
        match self {
            OpCode::Handshake => 0,
            OpCode::Frame => 1,
        }
    }
}

/// The four little-endian bytes of `x`.
pub open spec fn le_bytes(x: u32) -> Seq<u8> {
    seq![
        (x % 256) as u8,
        ((x / 256) % 256) as u8,
        ((x / 65536) % 256) as u8,
        (x / 16777216) as u8,
    ]
}

/// The UTF-8 bytes of a payload.
pub open spec fn payload_bytes(payload: Seq<char>) -> Seq<u8> {
    encode_utf8(payload)
}

/// Whether a payload's byte length fits the frame's 32-bit length field.
pub open spec fn frameable(payload: Seq<char>) -> bool {
    payload_bytes(payload).len() <= u32::MAX
}

/// The frame that carries `payload` under `op`: opcode, byte length, bytes.
pub open spec fn frame_bytes(op: OpCode, payload: Seq<char>) -> Seq<u8>
    recommends
        frameable(payload),
{
    le_bytes(op.spec_code()) + le_bytes(payload_bytes(payload).len() as u32) + payload_bytes(
        payload,
    )
}

/// The bytes after a frame's header.
pub open spec fn frame_body(bytes: Seq<u8>) -> Seq<u8> {
    bytes.subrange(HEADER_LEN as int, bytes.len() as int)
}

/// Whether `bytes` can be read as a frame: a full header, then UTF-8 text.
pub open spec fn decodable(bytes: Seq<u8>) -> bool {
    bytes.len() >= HEADER_LEN && valid_utf8(frame_body(bytes))
}

/// The payload text that a frame carries.
pub open spec fn frame_payload(bytes: Seq<u8>) -> Seq<char>
    recommends
        decodable(bytes),
{
    decode_utf8(frame_body(bytes))
}

fn push_u32_le(out: &mut Vec<u8>, x: u32)
    ensures
        final(out)@ == old(out)@ + le_bytes(x),
{
    out.push((x % 256) as u8);
    out.push(((x / 256) % 256) as u8);
    out.push(((x / 65536) % 256) as u8);
    out.push((x / 16777216) as u8);
    assert(final(out)@ =~= old(out)@ + le_bytes(x));
}

/// Frames `payload` under `opcode`.
pub fn encode_message(opcode: OpCode, payload: &str) -> (r: Result<Vec<u8>, RpcError>)
    ensures
        frameable(payload@) ==> r is Ok && r->Ok_0@ == frame_bytes(opcode, payload@),
        frameable(payload@) ==> r->Ok_0@.len() == HEADER_LEN + payload_bytes(payload@).len(),
        !frameable(payload@) ==> r == Err::<Vec<u8>, RpcError>(RpcError::Encoding),
{
    let bytes = payload.as_bytes();
    let len = payload.len();
    if len > 0xffff_ffffusize {
        return Err(RpcError::Encoding);
    }
    let mut out: Vec<u8> = Vec::new();
    push_u32_le(&mut out, opcode.code());
    push_u32_le(&mut out, len as u32);
    let mut i: usize = 0;
    while i < bytes.len()
        invariant
            bytes@ == payload_bytes(payload@),
            i <= bytes@.len(),
            out@ == le_bytes(opcode.spec_code()) + le_bytes(len as u32) + bytes@.subrange(
                0,
                i as int,
            ),
        decreases bytes@.len() - i,
    {
        out.push(bytes[i]);
        i += 1;
        assert(bytes@.subrange(0, i as int) =~= bytes@.subrange(0, i - 1) + seq![bytes@[i - 1]]);
        assert(out@ =~= le_bytes(opcode.spec_code()) + le_bytes(len as u32) + bytes@.subrange(
            0,
            i as int,
        ));
    }
    assert(bytes@.subrange(0, i as int) =~= bytes@);
    Ok(out)
}

/// Relies on String::from_utf8: it succeeds exactly on valid UTF-8 and then
/// holds the characters that the bytes encode.
#[verifier::external_body]
fn string_from_utf8(bytes: Vec<u8>) -> (r: Option<String>)
    ensures
        r is Some <==> valid_utf8(bytes@),
        r matches Some(s) ==> s@ == decode_utf8(bytes@),
{
    String::from_utf8(bytes).ok()
}

/// Reads the payload text of a frame. The two header fields are skipped by
/// position; the text is everything after them.
pub fn decode_message(bytes: &[u8]) -> (r: Result<String, RpcError>)
    ensures
        decodable(bytes@) ==> r is Ok && r->Ok_0@ == frame_payload(bytes@),
        !decodable(bytes@) ==> r == Err::<String, RpcError>(RpcError::Decoding),
{
    if bytes.len() < HEADER_LEN {
        return Err(RpcError::Decoding);
    }
    let mut body: Vec<u8> = Vec::new();
    let mut i: usize = HEADER_LEN;
    while i < bytes.len()
        invariant
            HEADER_LEN <= i <= bytes@.len(),
            body@ == bytes@.subrange(HEADER_LEN as int, i as int),
        decreases bytes@.len() - i,
    {
        body.push(bytes[i]);
        i += 1;
        assert(body@ =~= bytes@.subrange(HEADER_LEN as int, i as int));
    }
    match string_from_utf8(body) {
        Some(s) => Ok(s),
        None => Err(RpcError::Decoding),
    }
}

/// The number that four little-endian bytes hold.
pub open spec fn le_value(b: Seq<u8>) -> int
    recommends
        b.len() == 4,
{
    b[0] + 256 * b[1] + 65536 * b[2] + 16777216 * b[3]
}

/// Reads the little-endian `u32` at `at`.
pub fn read_u32_le(bytes: &[u8], at: usize) -> (r: u32)
    requires
        at + 4 <= bytes@.len(),
    ensures
        r == le_value(bytes@.subrange(at as int, at + 4)),
{
    let b0 = bytes[at] as u32;
    let b1 = bytes[at + 1] as u32;
    let b2 = bytes[at + 2] as u32;
    let b3 = bytes[at + 3] as u32;
    assert(b0 + 256 * b1 + 65536 * b2 + 16777216 * b3 <= u32::MAX) by (nonlinear_arith)
        requires
            b0 < 256,
            b1 < 256,
            b2 < 256,
            b3 < 256,
    ;
    b0 + 256 * b1 + 65536 * b2 + 16777216 * b3
}

/// The opcode number and the declared payload length in a frame's header.
/// The header is the first eight bytes; later bytes are not read.
pub fn read_header(bytes: &[u8]) -> (r: Result<(u32, u32), RpcError>)
    ensures
        bytes@.len() >= HEADER_LEN ==> r is Ok && r->Ok_0.0 == le_value(bytes@.subrange(0, 4))
            && r->Ok_0.1 == le_value(bytes@.subrange(4, 8)),
        bytes@.len() < HEADER_LEN ==> r == Err::<(u32, u32), RpcError>(RpcError::Decoding),
{
    if bytes.len() < HEADER_LEN {
        return Err(RpcError::Decoding);
    }
    Ok((read_u32_le(bytes, 0), read_u32_le(bytes, 4)))
}

/// The four bytes of a number read back give the number.
pub proof fn lemma_le_round_trip(x: u32)
    ensures
        le_value(le_bytes(x)) == x,
{
    let b = le_bytes(x);
    assert(b[0] == x % 256);
    assert(b[1] == (x / 256) % 256);
    assert(b[2] == (x / 65536) % 256);
    assert(b[3] == x / 16777216);
    assert((x % 256) + 256 * ((x / 256) % 256) + 65536 * ((x / 65536) % 256) + 16777216 * (x
        / 16777216) == x) by (nonlinear_arith);
}

/// A frame's header gives back its opcode and the payload's byte length.
pub proof fn lemma_header_round_trip(op: OpCode, payload: Seq<char>)
    requires
        frameable(payload),
    ensures
        le_value(frame_bytes(op, payload).subrange(0, 4)) == op.spec_code(),
        le_value(frame_bytes(op, payload).subrange(4, 8)) == payload_bytes(payload).len(),
{
    let f = frame_bytes(op, payload);
    lemma_le_round_trip(op.spec_code());
    lemma_le_round_trip(payload_bytes(payload).len() as u32);
    assert(f.subrange(0, 4) =~= le_bytes(op.spec_code()));
    assert(f.subrange(4, 8) =~= le_bytes(payload_bytes(payload).len() as u32));
}

/// A frame is exactly eight header bytes longer than its payload's UTF-8
/// encoding.
pub proof fn lemma_frame_length(op: OpCode, payload: Seq<char>)
    requires
        frameable(payload),
    ensures
        frame_bytes(op, payload).len() == HEADER_LEN + payload_bytes(payload).len(),
{
}

/// Decoding the frame of any opcode and text gives the text back.
pub proof fn lemma_round_trip(op: OpCode, payload: Seq<char>)
    requires
        frameable(payload),
    ensures
        decodable(frame_bytes(op, payload)),
        frame_payload(frame_bytes(op, payload)) == payload,
{
    let f = frame_bytes(op, payload);
    assert(frame_body(f) =~= payload_bytes(payload));
}

} // verus!
