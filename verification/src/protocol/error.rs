//! Why a protocol frame or payload was refused.

use vstd::prelude::*;

use crate::decode::JsonError;

verus! {

#[verifier::external_type_specification]
#[verifier::external_body]
pub struct ExDecodeError(base64::DecodeError);

/// A refused frame or payload.
#[derive(Debug)]
pub enum ProtocolError {
    /// The frame is no JSON document of the expected shape.
    Decode(JsonError),
    UnsupportedVersion { version: u16 },
    /// A binary payload is not valid standard base64.
    MalformedBase64 { source: base64::DecodeError },
    FrameTooLarge { limit: usize },
    PayloadTooLarge { limit: usize },
}

/// The model of a refusal: the base64 crate's error detail is left out.
#[derive(PartialEq, Eq, Structural)]
pub enum ProtocolFault {
    Decode(JsonError),
    UnsupportedVersion(u16),
    MalformedBase64,
    FrameTooLarge(usize),
    PayloadTooLarge(usize),
}

impl View for ProtocolError {
    type V = ProtocolFault;

    open spec fn view(&self) -> ProtocolFault {
        match self {
            ProtocolError::Decode(e) => ProtocolFault::Decode(*e),
            ProtocolError::UnsupportedVersion { version } => ProtocolFault::UnsupportedVersion(*version),
            ProtocolError::MalformedBase64 { .. } => ProtocolFault::MalformedBase64,
            ProtocolError::FrameTooLarge { limit } => ProtocolFault::FrameTooLarge(*limit),
            ProtocolError::PayloadTooLarge { limit } => ProtocolFault::PayloadTooLarge(*limit),
        }
    }
}

} // verus!
