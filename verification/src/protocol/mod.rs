//! The broker wire protocol: newline-terminated JSON frames that carry a
//! version, a type tag and the fields of a request or event.

pub mod codec;
pub mod error;
pub mod fields;
pub mod model;
pub mod payload;

pub use codec::{decode_client_frame, decode_server_frame, encode_client_frame, encode_server_frame};
pub use error::ProtocolError;
pub use model::{ClientRequest, ServerEvent, SessionSummary, PROTOCOL_VERSION};
pub use payload::MAX_FRAME_BYTES;
