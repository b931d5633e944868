//! Pure encode/decode for the fixed-layout wire headers.
//!
//! All integer fields travel big-endian (network byte order). A request
//! header is the fixed 12-byte prefix of a request: `message_size` (int32),
//! `request_api_key` (uint16), `request_api_version` (uint16),
//! `correlation_id` (int32). A response header is 8 bytes: `message_size`
//! (int32) followed by `correlation_id` (int32).

use vstd::prelude::*;

verus! {

/// Error taxonomy of the framing layer.
///
/// `ReadFailure`: the stream could not supply the full fixed-size header.
/// `WriteFailure`: the stream rejected the response bytes or the flush.
#[derive(Debug, Clone, Copy, PartialEq, Eq, Structural)]
pub enum FrameError {
    ReadFailure,
    WriteFailure,
}

/// Decoded request header. `client_id` and `tag_buffer` exist in the full
/// protocol header but are never populated from the wire by this layer:
/// decoding always leaves them absent/empty.
#[derive(Debug)]
pub struct RequestHeader {
    /// Declared total size of header plus body, as sent by the client.
    pub message_size: i32,
    /// Identifies which RPC is being invoked.
    pub request_api_key: u16,
    /// Version of that RPC's schema.
    pub request_api_version: u16,
    /// Opaque client-chosen token, echoed verbatim in the response.
    pub correlation_id: i32,
    /// Present in the full protocol header; always absent here.
    pub client_id: Option<String>,
    /// Placeholder for protocol-level tagged fields; always empty here.
    pub tag_buffer: Vec<String>,
}

/// Response header, built fresh per request.
#[derive(Debug, Clone, Copy, PartialEq, Eq, Structural)]
pub struct ResponseHeader {
    /// Emitted as 0 by this layer (the body is empty).
    pub message_size: i32,
    /// Copied from the matching request.
    pub correlation_id: i32,
}

/// Number of bytes of the fixed request-header prefix read off the wire.
pub const REQUEST_HEADER_LEN: usize = 12;

/// Number of bytes of an encoded response header.
pub const RESPONSE_HEADER_LEN: usize = 8;

/// The unsigned 16-bit value of two big-endian bytes.
pub open spec fn be16(b0: u8, b1: u8) -> u16 {
    ((b0 as u16) << 8) | (b1 as u16)
}

/// The unsigned 32-bit value of four big-endian bytes.
pub open spec fn be32(b0: u8, b1: u8, b2: u8, b3: u8) -> u32 {
    ((b0 as u32) << 24) | ((b1 as u32) << 16) | ((b2 as u32) << 8) | (b3 as u32)
}

/// The signed 32-bit integer whose two's-complement bit pattern is `v`.
pub open spec fn i32_of_bits(v: u32) -> int {
    if v >= 0x8000_0000 {
        v - 0x1_0000_0000
    } else {
        v as int
    }
}

/// The two's-complement bit pattern of a signed 32-bit integer.
pub open spec fn bits_of_i32(x: i32) -> u32 {
    (if x < 0 {
        x + 0x1_0000_0000
    } else {
        x as int
    }) as u32
}

/// The signed 32-bit value of four big-endian bytes.
pub open spec fn be_i32(b0: u8, b1: u8, b2: u8, b3: u8) -> int {
    i32_of_bits(be32(b0, b1, b2, b3))
}

/// Big-endian byte `k` (0 = most significant) of a 32-bit pattern.
pub open spec fn be32_byte(v: u32, k: int) -> u8 {
    if k == 0 {
        (v >> 24) as u8
    } else if k == 1 {
        ((v >> 16) & 0xff) as u8
    } else if k == 2 {
        ((v >> 8) & 0xff) as u8
    } else {
        (v & 0xff) as u8
    }
}

/// The four big-endian bytes of a signed 32-bit integer.
pub open spec fn be_bytes_of_i32(x: i32) -> Seq<u8> {
    seq![
        be32_byte(bits_of_i32(x), 0),
        be32_byte(bits_of_i32(x), 1),
        be32_byte(bits_of_i32(x), 2),
        be32_byte(bits_of_i32(x), 3),
    ]
}

/// What a well-formed decode of `bytes` yields: each field read big-endian
/// at its fixed offset, the optional fields left absent/empty.
pub open spec fn decodes_to(bytes: Seq<u8>, h: RequestHeader) -> bool {
    &&& h.message_size as int == be_i32(bytes[0], bytes[1], bytes[2], bytes[3])
    &&& h.request_api_key == be16(bytes[4], bytes[5])
    &&& h.request_api_version == be16(bytes[6], bytes[7])
    &&& h.correlation_id as int == be_i32(bytes[8], bytes[9], bytes[10], bytes[11])
    &&& h.client_id is None
    &&& h.tag_buffer@ =~= Seq::<String>::empty()
}

/// The exact 8 bytes of an encoded response header: big-endian
/// `message_size`, then big-endian `correlation_id`.
pub open spec fn encoded_response(h: ResponseHeader) -> Seq<u8> {
    be_bytes_of_i32(h.message_size) + be_bytes_of_i32(h.correlation_id)
}

/// Reads the unsigned 16-bit value of two big-endian bytes.
fn u16_from_be(b0: u8, b1: u8) -> (r: u16)
    ensures
        r == be16(b0, b1),
{
    ((b0 as u16) << 8u16) | (b1 as u16)
}

/// Reads the 32-bit bit pattern of four big-endian bytes.
fn u32_from_be(b0: u8, b1: u8, b2: u8, b3: u8) -> (r: u32)
    ensures
        r == be32(b0, b1, b2, b3),
{
    ((b0 as u32) << 24u32) | ((b1 as u32) << 16u32) | ((b2 as u32) << 8u32) | (b3 as u32)
}

/// Reinterprets a 32-bit pattern as a signed 32-bit integer.
fn i32_from_bits(v: u32) -> (r: i32)
    ensures
        r as int == i32_of_bits(v),
{
    if v >= 0x8000_0000 {
        ((v as i64) - 0x1_0000_0000i64) as i32
    } else {
        v as i32
    }
}

/// The 32-bit two's-complement pattern of a signed 32-bit integer.
fn i32_to_bits(x: i32) -> (r: u32)
    ensures
        r == bits_of_i32(x),
{
    if x < 0 {
        ((x as i64) + 0x1_0000_0000i64) as u32
    } else {
        x as u32
    }
}

impl RequestHeader {
    /// Decodes the fixed 12-byte request-header prefix already read from the
    /// stream. Fails with `ReadFailure` when fewer than 12 bytes arrived
    /// before the stream closed, and then yields no partial header. Bytes
    /// beyond the fixed prefix (the request body) are ignored.
    pub fn decode(bytes: &Vec<u8>) -> (r: Result<RequestHeader, FrameError>)
        ensures
            bytes@.len() >= REQUEST_HEADER_LEN ==> (r matches Ok(h) && decodes_to(
                bytes@,
                h,
            )),
            bytes@.len() < REQUEST_HEADER_LEN ==> r == Err::<RequestHeader, FrameError>(
                FrameError::ReadFailure,
            ),
    {
        if bytes.len() < REQUEST_HEADER_LEN {
            return Err(FrameError::ReadFailure);
        }
        let message_size = i32_from_bits(u32_from_be(bytes[0], bytes[1], bytes[2], bytes[3]));
        let request_api_key = u16_from_be(bytes[4], bytes[5]);
        let request_api_version = u16_from_be(bytes[6], bytes[7]);
        let correlation_id = i32_from_bits(u32_from_be(bytes[8], bytes[9], bytes[10], bytes[11]));
        Ok(RequestHeader {
            message_size,
            request_api_key,
            request_api_version,
            correlation_id,
            client_id: None,
            tag_buffer: Vec::new(),
        })
    }
}

impl ResponseHeader {
    /// Encodes the response header as exactly 8 bytes: 4 big-endian bytes of
    /// `message_size` followed by 4 big-endian bytes of `correlation_id`.
    pub fn encode(&self) -> (r: Vec<u8>)
        ensures
            r@ =~= encoded_response(*self),
            r@.len() == RESPONSE_HEADER_LEN,
    {
        let mut out: Vec<u8> = Vec::new();
        push_i32_be(&mut out, self.message_size);
        push_i32_be(&mut out, self.correlation_id);
        out
    }
}

proof fn lemma_be32_reassemble(v: u32)
    by (bit_vector)
    ensures
        be32((v >> 24) as u8, ((v >> 16) & 0xff) as u8, ((v >> 8) & 0xff) as u8, (v & 0xff) as u8)
            == v,
{
}

proof fn lemma_be32_split(b0: u8, b1: u8, b2: u8, b3: u8)
    by (bit_vector)
    ensures
        (be32(b0, b1, b2, b3) >> 24) as u8 == b0,
        ((be32(b0, b1, b2, b3) >> 16) & 0xff) as u8 == b1,
        ((be32(b0, b1, b2, b3) >> 8) & 0xff) as u8 == b2,
        (be32(b0, b1, b2, b3) & 0xff) as u8 == b3,
{
}

proof fn lemma_sign_round_trip(x: i32)
    ensures
        i32_of_bits(bits_of_i32(x)) == x as int,
{
}

proof fn lemma_bits_round_trip(v: u32)
    ensures
        i32_of_bits(v) as i32 as int == i32_of_bits(v),
        bits_of_i32(i32_of_bits(v) as i32) == v,
{
}

/// Law: the response's `correlation_id` field echoes the request's exactly,
/// for every decodable header and every correlation value, boundary values
/// included. Decoding the response's correlation bytes yields the request's
/// `correlation_id`, and those bytes are the request's correlation bytes
/// verbatim.
pub proof fn lemma_round_trip_correlation(bytes: Seq<u8>, req: RequestHeader, resp: ResponseHeader)
    requires
        bytes.len() >= REQUEST_HEADER_LEN,
        decodes_to(bytes, req),
        resp.correlation_id == req.correlation_id,
    ensures
        be_i32(
            encoded_response(resp)[4],
            encoded_response(resp)[5],
            encoded_response(resp)[6],
            encoded_response(resp)[7],
        ) == req.correlation_id as int,
        encoded_response(resp).subrange(4, 8) =~= bytes.subrange(8, 12),
{
    let v = bits_of_i32(resp.correlation_id);
    let enc = encoded_response(resp);
    assert(enc[4] == be32_byte(v, 0));
    assert(enc[5] == be32_byte(v, 1));
    assert(enc[6] == be32_byte(v, 2));
    assert(enc[7] == be32_byte(v, 3));
    lemma_be32_reassemble(v);
    lemma_sign_round_trip(resp.correlation_id);
    let w = be32(bytes[8], bytes[9], bytes[10], bytes[11]);
    lemma_bits_round_trip(w);
    assert(i32_of_bits(w) as i32 == req.correlation_id);
    assert(v == w);
    lemma_be32_split(bytes[8], bytes[9], bytes[10], bytes[11]);
}

/// Law: decoding reads nothing past the fixed 12-byte prefix — two byte
/// streams that agree on that prefix decode to the same header, whatever
/// body bytes follow.
pub proof fn lemma_decode_ignores_body(
    b1: Seq<u8>,
    b2: Seq<u8>,
    h1: RequestHeader,
    h2: RequestHeader,
)
    requires
        b1.len() >= REQUEST_HEADER_LEN,
        b2.len() >= REQUEST_HEADER_LEN,
        b1.subrange(0, 12) == b2.subrange(0, 12),
        decodes_to(b1, h1),
        decodes_to(b2, h2),
    ensures
        h1.message_size == h2.message_size,
        h1.request_api_key == h2.request_api_key,
        h1.request_api_version == h2.request_api_version,
        h1.correlation_id == h2.correlation_id,
{
    assert forall|i: int| 0 <= i < 12 implies b1[i] == b2[i] by {
        assert(b1.subrange(0, 12)[i] == b1[i]);
        assert(b2.subrange(0, 12)[i] == b2[i]);
    }
}

/// Law: every accepted request's response is exactly 8 bytes, 4 zero bytes
/// (the `message_size` of 0) followed by the 4 big-endian bytes of the
/// echoed `correlation_id`.
pub proof fn lemma_response_shape(resp: ResponseHeader)
    requires
        resp.message_size == 0,
    ensures
        encoded_response(resp).len() == RESPONSE_HEADER_LEN,
        encoded_response(resp)[0] == 0,
        encoded_response(resp)[1] == 0,
        encoded_response(resp)[2] == 0,
        encoded_response(resp)[3] == 0,
        encoded_response(resp).subrange(4, 8) =~= be_bytes_of_i32(resp.correlation_id),
{
    assert(bits_of_i32(resp.message_size) == 0);
    assert(0u32 >> 24 == 0 && (0u32 >> 16) & 0xff == 0 && (0u32 >> 8) & 0xff == 0 && 0u32 & 0xff
        == 0) by (bit_vector);
}

/// Appends the four big-endian bytes of `x` to `out`.
fn push_i32_be(out: &mut Vec<u8>, x: i32)
    ensures
        final(out)@ =~= old(out)@ + be_bytes_of_i32(x),
{
    let v = i32_to_bits(x);
    out.push((v >> 24u32) as u8);
    out.push(((v >> 16u32) & 0xff) as u8);
    out.push(((v >> 8u32) & 0xff) as u8);
    out.push((v & 0xff) as u8);
}

} // verus!
