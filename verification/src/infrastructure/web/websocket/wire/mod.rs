//! The wire format: each message travels as one JSON object with a `type` member and, for
//! every message but `Pong`, a `data` member.

pub mod format;
pub mod reading;
pub mod round_trip;
pub mod writing;

pub use format::{decode_spec, encode_spec};
pub use reading::decode;
pub use round_trip::lemma_decode_encode;
pub use writing::encode;

use vstd::prelude::*;

verus! {

/// Why a text could not be read as a message.
#[derive(Debug, PartialEq, Eq, Clone, Copy)]
pub enum DecodeError {
    /// The text is not a JSON object of the expected shape.
    Malformed,
    /// The text is an object whose `type` names no known message.
    UnknownType,
}

} // verus!
