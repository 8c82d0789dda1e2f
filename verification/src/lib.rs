//! Binary message framing for inter-process communication with a
//! post-quantum-cryptography operation executor.
//!
//! One side encodes a fixed-layout request header (algorithm, operation,
//! correlation identifier, payload length) followed by a variable-length
//! payload; the executor answers with a fixed-layout response header and an
//! optional result payload.  Because the payload carries secret key material,
//! the framing is byte-exact, versioned, and every decode path rejects
//! truncated or internally inconsistent input instead of reading out of
//! bounds.
//!
//! The channel that carries the bytes is outside this crate; every message is
//! self-contained and all operations here are pure functions over their
//! inputs.

use vstd::prelude::*;

pub mod entries;
pub mod request;
pub mod response;
pub mod wire;

verus! {

/// Wire format version stamped into every header.  Incremented whenever any
/// header layout changes; decoders use it to detect incompatible peers.
pub const FORMAT_VERSION: u8 = 1;

/// Used to indicate that serialization failed.
#[derive(Debug)]
pub struct SerializationError;

/// Used to indicate that deserialization failed.
#[derive(Debug)]
pub struct DeserializationError;

/// Used to indicate that destructuring failed.
#[derive(Debug)]
pub struct DestructureError;

} // verus!
