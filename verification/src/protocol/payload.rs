//! Binary payloads, carried in frames as standard base64 text, and the size
//! limits of frames and payloads.

use base64::Engine;
use vstd::prelude::*;

use super::error::{ProtocolError, ProtocolFault};

verus! {

/// The largest frame, in bytes of UTF-8 text, that a decoder accepts.
pub const MAX_FRAME_BYTES: usize = 1048576;

/// The largest binary payload a frame may carry.
pub const MAX_BINARY_PAYLOAD_BYTES: usize = 524288;

/// The length of the base64 text of the largest payload: `4 * ceil(524288 / 3)`.
pub const MAX_BASE64_PAYLOAD_CHARS: usize = 699052;

/// The number of UTF-8 bytes of a text, as `str::len` reports it.
pub open spec fn byte_len(s: Seq<char>) -> usize {
    vstd::utf8::encode_utf8(s).len() as usize
}

/// The bytes that the `base64` crate's standard engine decodes from a text, or
/// nothing when the text is no canonical padded standard base64.
pub uninterp spec fn b64_decoded(text: Seq<char>) -> Option<Seq<u8>>;

/// The text that the `base64` crate's standard engine encodes bytes to.
pub uninterp spec fn b64_encoded(data: Seq<u8>) -> Seq<char>;

/// Encodes bytes with `base64::engine::general_purpose::STANDARD`: the output is
/// ASCII, four characters for every started group of three bytes (padded with
/// `=`), and the same engine decodes it back to the bytes.
#[verifier::external_body]
fn b64_encode(data: &[u8]) -> (r: String)
    ensures
        r@ == b64_encoded(data@),
        b64_decoded(r@) == Some(data@),
        r@.len() == 4 * ((data@.len() + 2) / 3),
        vstd::utf8::is_ascii_chars(r@),
{
    base64::engine::general_purpose::STANDARD.encode(data)
}

/// Decodes text with `base64::engine::general_purpose::STANDARD`; what it gives
/// is named `b64_decoded`.
#[verifier::external_body]
fn b64_decode(data: &str) -> (r: Result<Vec<u8>, base64::DecodeError>)
    ensures
        match r {
            Ok(v) => b64_decoded(data@) == Some(v@),
            Err(_) => b64_decoded(data@) is None,
        },
{
    base64::engine::general_purpose::STANDARD.decode(data)
}

/// What a payload text decodes to: refused when its text is longer than the
/// largest payload's text, when it is no base64, or when it decodes to more
/// bytes than a payload may hold.
pub open spec fn payload_check(data: Seq<char>) -> Result<Seq<u8>, ProtocolFault> {
    if byte_len(data) > MAX_BASE64_PAYLOAD_CHARS {
        Err(ProtocolFault::PayloadTooLarge(MAX_BINARY_PAYLOAD_BYTES))
    } else {
        match b64_decoded(data) {
            None => Err(ProtocolFault::MalformedBase64),
            Some(bytes) => if bytes.len() > MAX_BINARY_PAYLOAD_BYTES {
                Err(ProtocolFault::PayloadTooLarge(MAX_BINARY_PAYLOAD_BYTES))
            } else {
                Ok(bytes)
            },
        }
    }
}

pub open spec fn bytes_result(r: Result<Vec<u8>, ProtocolError>) -> Result<Seq<u8>, ProtocolFault> {
    match r {
        Ok(v) => Ok(v@),
        Err(e) => Err(e@),
    }
}

/// The bytes of a payload text, checked against the limits.
pub fn decode_base64(data: &str) -> (r: Result<Vec<u8>, ProtocolError>)
    ensures
        bytes_result(r) == payload_check(data@),
{
    if data.len() > MAX_BASE64_PAYLOAD_CHARS {
        return Err(ProtocolError::PayloadTooLarge { limit: MAX_BINARY_PAYLOAD_BYTES });
    }
    match b64_decode(data) {
        Err(source) => Err(ProtocolError::MalformedBase64 { source }),
        Ok(decoded) => if decoded.len() > MAX_BINARY_PAYLOAD_BYTES {
            Err(ProtocolError::PayloadTooLarge { limit: MAX_BINARY_PAYLOAD_BYTES })
        } else {
            Ok(decoded)
        },
    }
}

/// The base64 text of a payload. A payload within the limit reads back as itself.
pub fn encode_base64(data: &[u8]) -> (r: String)
    ensures
        r@ == b64_encoded(data@),
        b64_decoded(r@) == Some(data@),
        r@.len() == 4 * ((data@.len() + 2) / 3),
        vstd::utf8::is_ascii_chars(r@),
        data@.len() <= MAX_BINARY_PAYLOAD_BYTES ==> payload_check(r@) == Ok::<Seq<u8>, ProtocolFault>(data@),
{
    let r = b64_encode(data);
    proof {
        vstd::utf8::is_ascii_chars_encode_utf8(r@);
        let n = data@.len();
        if n <= MAX_BINARY_PAYLOAD_BYTES {
            assert(4 * ((n + 2) / 3) <= 699052) by (nonlinear_arith)
                requires
                    n <= 524288,
            ;
        }
    }
    r
}

} // verus!
