//! Encoding of Echo Request headers and decoding of Echo Response headers.
use vstd::prelude::*;

verus! {

/// Message type of an Echo Request.
pub const ECHO_REQUEST: u8 = 1;

/// Message type of an Echo Response.
pub const ECHO_RESPONSE: u8 = 2;

/// Size of the mandatory part of a header.
pub const MIN_HEADER_LENGTH: usize = 8;

/// Size of a header that carries the optional sequence number fields.
pub const OPT_HEADER_LENGTH: usize = 12;

/// Version 1, protocol type GTP, sequence number flag set.
pub const REQUEST_FLAGS: u8 = 0x32;

/// A decoded Echo Response header.
#[derive(Debug, Clone, Copy, PartialEq, Eq)]
pub struct EchoHeader {
    /// Version, protocol type and the E, S and PN flags.
    pub flags: u8,
    pub message_type: u8,
    /// Length of what follows the mandatory 8 bytes.
    pub length: u16,
    pub teid: u32,
    /// Present when the S flag is set.
    pub sequence_number: Option<u16>,
}

/// Why a datagram is not an Echo Response header.
#[derive(Debug, Clone, Copy, PartialEq, Eq, Structural)]
pub enum DecodeError {
    /// Fewer bytes than the header that the flags announce.
    TooShort,
    /// The message type byte is not that of an Echo Response.
    UnexpectedMessageType(u8),
}

/// The 12 bytes of an Echo Request with sequence number `seq`.
pub open spec fn request_bytes(seq: u16) -> Seq<u8> {
    seq![
        REQUEST_FLAGS, ECHO_REQUEST, 0u8, 4u8,
        0u8, 0u8, 0u8, 0u8,
        (seq / 256) as u8, (seq % 256) as u8, 0u8, 0u8,
    ]
}

/// Whether any of the E, S or PN flags asks for the optional fields.
pub open spec fn has_optional_fields(flags: u8) -> bool {
    flags % 8 != 0
}

/// Whether the S flag is set.
pub open spec fn has_sequence_flag(flags: u8) -> bool {
    (flags / 2) % 2 == 1
}

pub open spec fn be16(hi: u8, lo: u8) -> u16 {
    (hi * 256 + lo) as u16
}

pub open spec fn be32(b0: u8, b1: u8, b2: u8, b3: u8) -> u32 {
    (b0 * 16777216 + b1 * 65536 + b2 * 256 + b3) as u32
}

/// What `decode` makes of the bytes `b`.
pub open spec fn decode_spec(b: Seq<u8>) -> Result<EchoHeader, DecodeError> {
    if b.len() < MIN_HEADER_LENGTH {
        Err(DecodeError::TooShort)
    } else if b[1] != ECHO_RESPONSE {
        Err(DecodeError::UnexpectedMessageType(b[1]))
    } else if has_optional_fields(b[0]) && b.len() < OPT_HEADER_LENGTH {
        Err(DecodeError::TooShort)
    } else {
        Ok(
            EchoHeader {
                flags: b[0],
                message_type: b[1],
                length: be16(b[2], b[3]),
                teid: be32(b[4], b[5], b[6], b[7]),
                sequence_number: if has_sequence_flag(b[0]) {
                    Some(be16(b[8], b[9]))
                } else {
                    None
                },
            },
        )
    }
}

/// Encodes the Echo Request header for sequence number `seq`: 12 bytes, the
/// length field set to the 4 optional bytes, a zero tunnel endpoint identifier.
pub fn encode(seq: u16) -> (r: Vec<u8>)
    ensures
        r@ == request_bytes(seq),
        r@.len() == OPT_HEADER_LENGTH,
{
    let mut r: Vec<u8> = Vec::with_capacity(OPT_HEADER_LENGTH);
    r.push(REQUEST_FLAGS);
    r.push(ECHO_REQUEST);
    r.push(0);
    r.push(4);
    r.push(0);
    r.push(0);
    r.push(0);
    r.push(0);
    r.push((seq / 256) as u8);
    r.push((seq % 256) as u8);
    r.push(0);
    r.push(0);
    assert(r@ =~= request_bytes(seq));
    r
}

/// Decodes an Echo Response header. Fails when the datagram is shorter than 8
/// bytes, when its message type is not that of an Echo Response, or when its
/// flags announce the optional fields and it is shorter than 12 bytes.
pub fn decode(b: &[u8]) -> (r: Result<EchoHeader, DecodeError>)
    ensures
        r == decode_spec(b@),
{
    if b.len() < MIN_HEADER_LENGTH {
        return Err(DecodeError::TooShort);
    }
    let flags = b[0];
    let message_type = b[1];
    if message_type != ECHO_RESPONSE {
        return Err(DecodeError::UnexpectedMessageType(message_type));
    }
    if flags % 8 != 0 && b.len() < OPT_HEADER_LENGTH {
        return Err(DecodeError::TooShort);
    }
    let length = (b[2] as u16) * 256 + (b[3] as u16);
    let teid = (b[4] as u32) * 16777216 + (b[5] as u32) * 65536 + (b[6] as u32) * 256 + (
    b[7] as u32);
    let sequence_number = if (flags / 2) % 2 == 1 {
        Some((b[8] as u16) * 256 + (b[9] as u16))
    } else {
        None
    };
    Ok(EchoHeader { flags, message_type, length, teid, sequence_number })
}

/// Encoding a sequence number and reading the same bytes back, framed as an
/// Echo Response, gives that sequence number again.
pub proof fn lemma_round_trip(seq: u16)
    ensures
        decode_spec(request_bytes(seq).update(1, ECHO_RESPONSE)) is Ok,
        decode_spec(request_bytes(seq).update(1, ECHO_RESPONSE))->Ok_0.sequence_number
            == Some(seq),
        decode_spec(request_bytes(seq).update(1, ECHO_RESPONSE))->Ok_0.length == 4,
{
    let b = request_bytes(seq).update(1, ECHO_RESPONSE);
    assert(b[0] == REQUEST_FLAGS && b[1] == ECHO_RESPONSE);
    assert(b[8] == (seq / 256) as u8 && b[9] == (seq % 256) as u8);
    assert(b[2] == 0 && b[3] == 4);
}

/// A datagram shorter than the mandatory header, or one whose message type is
/// not that of an Echo Response, is refused.
pub proof fn lemma_decode_rejects(b: Seq<u8>)
    requires
        b.len() < MIN_HEADER_LENGTH || b[1] != ECHO_RESPONSE,
    ensures
        decode_spec(b) is Err,
        b.len() < MIN_HEADER_LENGTH ==> decode_spec(b) == Err::<EchoHeader, DecodeError>(
            DecodeError::TooShort,
        ),
        b.len() >= MIN_HEADER_LENGTH ==> decode_spec(b) == Err::<EchoHeader, DecodeError>(
            DecodeError::UnexpectedMessageType(b[1]),
        ),
{
}

} // verus!
