//! Everything one needs for sending and receiving request headers, and the
//! request-side entry-pair helpers.
//!
//! A request header is encoded little-endian with no padding, fields in
//! declaration order: version (1 byte), identifier (8 bytes), data_len
//! (4 bytes), algorithm (4-byte ordinal), operation (4-byte ordinal).

use crate::DeserializationError;
use crate::DestructureError;
use crate::FORMAT_VERSION;
use vstd::bytes::*;
use vstd::prelude::*;
use vstd::seq_lib::*;
use vstd::slice::*;

verus! {

/// Fixed wire size of a serialized `RequestHeader` in bytes.
pub const REQUEST_HEADER_WIRE_SIZE: usize = 21;

/// All possible algorithms that can be requested.
///
/// A post-quantum scheme, optionally hybridized with a classical
/// elliptic-curve key exchange.  Encoded on the wire as a four-byte
/// little-endian ordinal matching declaration order; decoding rejects
/// ordinals outside the known range.
#[allow(non_camel_case_types)]
#[derive(Clone, Copy, Debug, PartialEq, Eq, Structural)]
pub enum Algorithm {
    NoAlgorithm,
    FRODO640__ECDHp256,
    FRODO640,
    FRODO976__ECDHp384,
    FRODO976,
    FRODO1344__ECDHp521,
    FRODO1344,
    NTRU_HRSS_701,
    NTRU_HRSS_701__ECDHp256,
    NTRU_HPS_2048509,
    NTRU_HPS_2048509__ECDHp256,
    RND5_1CCA_5D,
    RND5_1CCA_5D__ECDHp256,
    RND5_3CCA_5D,
    RND5_3CCA_5D__ECDHp384,
    RND5_5CCA_5D,
    RND5_5CCA_5D__ECDHp521,
    KYBER_512,
    KYBER_512__ECDHp256,
    KYBER_768,
    KYBER_768__ECDHp384,
    KYBER_1024,
    KYBER_1024__ECDHp521,
    SABER_LIGHT,
    SABER_LIGHT__ECDHp256,
    SABER,
    SABER__ECDHp384,
    SABER_FIRE,
    SABER_FIRE__ECDHp521,
}

/// All possible operations that can be requested.
///
/// Encoded on the wire as a four-byte little-endian ordinal matching
/// declaration order; decoding rejects ordinals outside the known range.
#[derive(Clone, Copy, Debug, PartialEq, Eq, Structural)]
pub enum Operation {
    NoOperation,
    KeypairGeneration,
    Encapsulation,
    Decapsulation,
}

impl Default for Algorithm {
    fn default() -> (r: Self)
        ensures
            r == Algorithm::NoAlgorithm,
    {
        Algorithm::NoAlgorithm
    }
}

impl Default for Operation {
    fn default() -> (r: Self)
        ensures
            r == Operation::NoOperation,
    {
        Operation::NoOperation
    }
}

/// The wire ordinal of an algorithm: its position in declaration order.
pub open spec fn spec_algorithm_ordinal(a: Algorithm) -> u32 {
    match a {
        Algorithm::NoAlgorithm => 0,
        Algorithm::FRODO640__ECDHp256 => 1,
        Algorithm::FRODO640 => 2,
        Algorithm::FRODO976__ECDHp384 => 3,
        Algorithm::FRODO976 => 4,
        Algorithm::FRODO1344__ECDHp521 => 5,
        Algorithm::FRODO1344 => 6,
        Algorithm::NTRU_HRSS_701 => 7,
        Algorithm::NTRU_HRSS_701__ECDHp256 => 8,
        Algorithm::NTRU_HPS_2048509 => 9,
        Algorithm::NTRU_HPS_2048509__ECDHp256 => 10,
        Algorithm::RND5_1CCA_5D => 11,
        Algorithm::RND5_1CCA_5D__ECDHp256 => 12,
        Algorithm::RND5_3CCA_5D => 13,
        Algorithm::RND5_3CCA_5D__ECDHp384 => 14,
        Algorithm::RND5_5CCA_5D => 15,
        Algorithm::RND5_5CCA_5D__ECDHp521 => 16,
        Algorithm::KYBER_512 => 17,
        Algorithm::KYBER_512__ECDHp256 => 18,
        Algorithm::KYBER_768 => 19,
        Algorithm::KYBER_768__ECDHp384 => 20,
        Algorithm::KYBER_1024 => 21,
        Algorithm::KYBER_1024__ECDHp521 => 22,
        Algorithm::SABER_LIGHT => 23,
        Algorithm::SABER_LIGHT__ECDHp256 => 24,
        Algorithm::SABER => 25,
        Algorithm::SABER__ECDHp384 => 26,
        Algorithm::SABER_FIRE => 27,
        Algorithm::SABER_FIRE__ECDHp521 => 28,
    }
}

/// The algorithm denoted by a wire ordinal, or `None` for an ordinal outside
/// the known range.
pub open spec fn spec_algorithm_from_ordinal(v: u32) -> Option<Algorithm> {
    if v == 0 {
        Some(Algorithm::NoAlgorithm)
    } else if v == 1 {
        Some(Algorithm::FRODO640__ECDHp256)
    } else if v == 2 {
        Some(Algorithm::FRODO640)
    } else if v == 3 {
        Some(Algorithm::FRODO976__ECDHp384)
    } else if v == 4 {
        Some(Algorithm::FRODO976)
    } else if v == 5 {
        Some(Algorithm::FRODO1344__ECDHp521)
    } else if v == 6 {
        Some(Algorithm::FRODO1344)
    } else if v == 7 {
        Some(Algorithm::NTRU_HRSS_701)
    } else if v == 8 {
        Some(Algorithm::NTRU_HRSS_701__ECDHp256)
    } else if v == 9 {
        Some(Algorithm::NTRU_HPS_2048509)
    } else if v == 10 {
        Some(Algorithm::NTRU_HPS_2048509__ECDHp256)
    } else if v == 11 {
        Some(Algorithm::RND5_1CCA_5D)
    } else if v == 12 {
        Some(Algorithm::RND5_1CCA_5D__ECDHp256)
    } else if v == 13 {
        Some(Algorithm::RND5_3CCA_5D)
    } else if v == 14 {
        Some(Algorithm::RND5_3CCA_5D__ECDHp384)
    } else if v == 15 {
        Some(Algorithm::RND5_5CCA_5D)
    } else if v == 16 {
        Some(Algorithm::RND5_5CCA_5D__ECDHp521)
    } else if v == 17 {
        Some(Algorithm::KYBER_512)
    } else if v == 18 {
        Some(Algorithm::KYBER_512__ECDHp256)
    } else if v == 19 {
        Some(Algorithm::KYBER_768)
    } else if v == 20 {
        Some(Algorithm::KYBER_768__ECDHp384)
    } else if v == 21 {
        Some(Algorithm::KYBER_1024)
    } else if v == 22 {
        Some(Algorithm::KYBER_1024__ECDHp521)
    } else if v == 23 {
        Some(Algorithm::SABER_LIGHT)
    } else if v == 24 {
        Some(Algorithm::SABER_LIGHT__ECDHp256)
    } else if v == 25 {
        Some(Algorithm::SABER)
    } else if v == 26 {
        Some(Algorithm::SABER__ECDHp384)
    } else if v == 27 {
        Some(Algorithm::SABER_FIRE)
    } else if v == 28 {
        Some(Algorithm::SABER_FIRE__ECDHp521)
    } else {
        None
    }
}

/// The wire ordinal of an operation: its position in declaration order.
pub open spec fn spec_operation_ordinal(o: Operation) -> u32 {
    match o {
        Operation::NoOperation => 0,
        Operation::KeypairGeneration => 1,
        Operation::Encapsulation => 2,
        Operation::Decapsulation => 3,
    }
}

/// The operation denoted by a wire ordinal, or `None` for an ordinal outside
/// the known range.
pub open spec fn spec_operation_from_ordinal(v: u32) -> Option<Operation> {
    if v == 0 {
        Some(Operation::NoOperation)
    } else if v == 1 {
        Some(Operation::KeypairGeneration)
    } else if v == 2 {
        Some(Operation::Encapsulation)
    } else if v == 3 {
        Some(Operation::Decapsulation)
    } else {
        None
    }
}

proof fn lemma_algorithm_ordinal_round_trip(a: Algorithm)
    ensures
        spec_algorithm_from_ordinal(spec_algorithm_ordinal(a)) == Some(a),
{
}

proof fn lemma_operation_ordinal_round_trip(o: Operation)
    ensures
        spec_operation_from_ordinal(spec_operation_ordinal(o)) == Some(o),
{
}

// Ensure that RequestHeader always has a fixed size! If this size changes then change version number!
/// Header that describes the request sent.
/// # Explanation of the header
/// - version is used for compatibility reasons.  The encoder always stamps
///   the current `FORMAT_VERSION`; the decoder does not check it, so that the
///   receiver can decide how to react to a request from another version.
/// - identifier is used so that the receiver of the `RequestHeader` can link it back to the original request.
/// - data_len describes the length of the upcoming data that belongs to this `RequestHeader`. The data after that
///   will belong to a new `RequestHeader`.
/// - algorithm is the `Algorithm` that the request is about.
/// - operation is the `Operation` that the request is about.
#[derive(Clone, Copy, Debug, PartialEq, Eq, Structural)]
pub struct RequestHeader {
    pub version: u8,
    pub identifier: u64,
    pub data_len: u32,
    pub algorithm: Algorithm,
    pub operation: Operation,
}

impl Default for RequestHeader {
    fn default() -> (r: Self)
        ensures
            r == (RequestHeader {
                version: 0,
                identifier: 0,
                data_len: 0,
                algorithm: Algorithm::NoAlgorithm,
                operation: Operation::NoOperation,
            }),
    {
        RequestHeader {
            version: 0,
            identifier: 0,
            data_len: 0,
            algorithm: Algorithm::NoAlgorithm,
            operation: Operation::NoOperation,
        }
    }
}

/// Convenience struct to allow request body to be stored together with the header.
pub struct Request {
    pub header: RequestHeader,
    pub body: Vec<u8>,
}

/// The canonical byte encoding of a request header.
pub open spec fn spec_request_header_bytes(h: RequestHeader) -> Seq<u8> {
    seq![h.version] + spec_u64_to_le_bytes(h.identifier) + spec_u32_to_le_bytes(h.data_len)
        + spec_u32_to_le_bytes(spec_algorithm_ordinal(h.algorithm)) + spec_u32_to_le_bytes(
        spec_operation_ordinal(h.operation),
    )
}

/// The request header carried by the first `REQUEST_HEADER_WIRE_SIZE` bytes
/// of `s`, or `None` when `s` is too short or an enum ordinal is outside its
/// known range.  The version byte is not checked here.
pub open spec fn spec_parse_request_header(s: Seq<u8>) -> Option<RequestHeader> {
    if s.len() < REQUEST_HEADER_WIRE_SIZE {
        None
    } else {
        let alg = spec_algorithm_from_ordinal(spec_u32_from_le_bytes(s.subrange(13, 17)));
        let op = spec_operation_from_ordinal(spec_u32_from_le_bytes(s.subrange(17, 21)));
        match (alg, op) {
            (Some(algorithm), Some(operation)) => Some(
                RequestHeader {
                    version: s[0],
                    identifier: spec_u64_from_le_bytes(s.subrange(1, 9)),
                    data_len: spec_u32_from_le_bytes(s.subrange(9, 13)),
                    algorithm,
                    operation,
                },
            ),
            _ => None,
        }
    }
}

/// Decoding inverts encoding: the canonical bytes of any request header
/// parse back into exactly that header, whatever its version byte.
pub proof fn lemma_request_header_round_trip(h: RequestHeader)
    ensures
        spec_request_header_bytes(h).len() == REQUEST_HEADER_WIRE_SIZE,
        spec_parse_request_header(spec_request_header_bytes(h)) == Some(h),
{
    lemma_auto_spec_u64_to_from_le_bytes();
    lemma_auto_spec_u32_to_from_le_bytes();
    lemma_algorithm_ordinal_round_trip(h.algorithm);
    lemma_operation_ordinal_round_trip(h.operation);
    let s = spec_request_header_bytes(h);
    assert_seqs_equal!(s.subrange(1, 9) == spec_u64_to_le_bytes(h.identifier));
    assert_seqs_equal!(s.subrange(9, 13) == spec_u32_to_le_bytes(h.data_len));
    assert_seqs_equal!(s.subrange(13, 17)
        == spec_u32_to_le_bytes(spec_algorithm_ordinal(h.algorithm)));
    assert_seqs_equal!(s.subrange(17, 21)
        == spec_u32_to_le_bytes(spec_operation_ordinal(h.operation)));
}

fn algorithm_ordinal(a: Algorithm) -> (r: u32)
    ensures
        r == spec_algorithm_ordinal(a),
{
    match a {
        Algorithm::NoAlgorithm => 0,
        Algorithm::FRODO640__ECDHp256 => 1,
        Algorithm::FRODO640 => 2,
        Algorithm::FRODO976__ECDHp384 => 3,
        Algorithm::FRODO976 => 4,
        Algorithm::FRODO1344__ECDHp521 => 5,
        Algorithm::FRODO1344 => 6,
        Algorithm::NTRU_HRSS_701 => 7,
        Algorithm::NTRU_HRSS_701__ECDHp256 => 8,
        Algorithm::NTRU_HPS_2048509 => 9,
        Algorithm::NTRU_HPS_2048509__ECDHp256 => 10,
        Algorithm::RND5_1CCA_5D => 11,
        Algorithm::RND5_1CCA_5D__ECDHp256 => 12,
        Algorithm::RND5_3CCA_5D => 13,
        Algorithm::RND5_3CCA_5D__ECDHp384 => 14,
        Algorithm::RND5_5CCA_5D => 15,
        Algorithm::RND5_5CCA_5D__ECDHp521 => 16,
        Algorithm::KYBER_512 => 17,
        Algorithm::KYBER_512__ECDHp256 => 18,
        Algorithm::KYBER_768 => 19,
        Algorithm::KYBER_768__ECDHp384 => 20,
        Algorithm::KYBER_1024 => 21,
        Algorithm::KYBER_1024__ECDHp521 => 22,
        Algorithm::SABER_LIGHT => 23,
        Algorithm::SABER_LIGHT__ECDHp256 => 24,
        Algorithm::SABER => 25,
        Algorithm::SABER__ECDHp384 => 26,
        Algorithm::SABER_FIRE => 27,
        Algorithm::SABER_FIRE__ECDHp521 => 28,
    }
}

fn algorithm_from_ordinal(v: u32) -> (r: Option<Algorithm>)
    ensures
        r == spec_algorithm_from_ordinal(v),
{
    if v == 0 {
        Some(Algorithm::NoAlgorithm)
    } else if v == 1 {
        Some(Algorithm::FRODO640__ECDHp256)
    } else if v == 2 {
        Some(Algorithm::FRODO640)
    } else if v == 3 {
        Some(Algorithm::FRODO976__ECDHp384)
    } else if v == 4 {
        Some(Algorithm::FRODO976)
    } else if v == 5 {
        Some(Algorithm::FRODO1344__ECDHp521)
    } else if v == 6 {
        Some(Algorithm::FRODO1344)
    } else if v == 7 {
        Some(Algorithm::NTRU_HRSS_701)
    } else if v == 8 {
        Some(Algorithm::NTRU_HRSS_701__ECDHp256)
    } else if v == 9 {
        Some(Algorithm::NTRU_HPS_2048509)
    } else if v == 10 {
        Some(Algorithm::NTRU_HPS_2048509__ECDHp256)
    } else if v == 11 {
        Some(Algorithm::RND5_1CCA_5D)
    } else if v == 12 {
        Some(Algorithm::RND5_1CCA_5D__ECDHp256)
    } else if v == 13 {
        Some(Algorithm::RND5_3CCA_5D)
    } else if v == 14 {
        Some(Algorithm::RND5_3CCA_5D__ECDHp384)
    } else if v == 15 {
        Some(Algorithm::RND5_5CCA_5D)
    } else if v == 16 {
        Some(Algorithm::RND5_5CCA_5D__ECDHp521)
    } else if v == 17 {
        Some(Algorithm::KYBER_512)
    } else if v == 18 {
        Some(Algorithm::KYBER_512__ECDHp256)
    } else if v == 19 {
        Some(Algorithm::KYBER_768)
    } else if v == 20 {
        Some(Algorithm::KYBER_768__ECDHp384)
    } else if v == 21 {
        Some(Algorithm::KYBER_1024)
    } else if v == 22 {
        Some(Algorithm::KYBER_1024__ECDHp521)
    } else if v == 23 {
        Some(Algorithm::SABER_LIGHT)
    } else if v == 24 {
        Some(Algorithm::SABER_LIGHT__ECDHp256)
    } else if v == 25 {
        Some(Algorithm::SABER)
    } else if v == 26 {
        Some(Algorithm::SABER__ECDHp384)
    } else if v == 27 {
        Some(Algorithm::SABER_FIRE)
    } else if v == 28 {
        Some(Algorithm::SABER_FIRE__ECDHp521)
    } else {
        None
    }
}

fn operation_ordinal(o: Operation) -> (r: u32)
    ensures
        r == spec_operation_ordinal(o),
{
    match o {
        Operation::NoOperation => 0,
        Operation::KeypairGeneration => 1,
        Operation::Encapsulation => 2,
        Operation::Decapsulation => 3,
    }
}

fn operation_from_ordinal(v: u32) -> (r: Option<Operation>)
    ensures
        r == spec_operation_from_ordinal(v),
{
    if v == 0 {
        Some(Operation::NoOperation)
    } else if v == 1 {
        Some(Operation::KeypairGeneration)
    } else if v == 2 {
        Some(Operation::Encapsulation)
    } else if v == 3 {
        Some(Operation::Decapsulation)
    } else {
        None
    }
}

/// The canonical byte encoding of `header`, as a fresh buffer.
fn encode_request_header(header: &RequestHeader) -> (r: Vec<u8>)
    ensures
        r@ == spec_request_header_bytes(*header),
{
    let mut encoded: Vec<u8> = Vec::new();
    encoded.push(header.version);
    let mut identifier_bytes = u64_to_le_bytes(header.identifier);
    encoded.append(&mut identifier_bytes);
    let mut data_len_bytes = u32_to_le_bytes(header.data_len);
    encoded.append(&mut data_len_bytes);
    let mut algorithm_bytes = u32_to_le_bytes(algorithm_ordinal(header.algorithm));
    encoded.append(&mut algorithm_bytes);
    let mut operation_bytes = u32_to_le_bytes(operation_ordinal(header.operation));
    encoded.append(&mut operation_bytes);
    proof {
        assert_seqs_equal!(encoded@ == spec_request_header_bytes(*header));
    }
    encoded
}

/// Returns the size needed for the buffer where the serialized request header will be stored.
pub fn get_serialized_request_header_size() -> (r: u64)
    ensures
        r == REQUEST_HEADER_WIRE_SIZE,
{
    REQUEST_HEADER_WIRE_SIZE as u64
}

/// Builds a request header stamped with the current `FORMAT_VERSION` and
/// writes its canonical encoding into the start of `target_buffer`.  Simply
/// attach the raw bytes behind this serialized header when sending over a
/// channel.
/// # Returns
/// 0 on success; -1 when the buffer is shorter than the header's fixed wire
/// size, in which case nothing is written.
pub fn serialize_request_header(
    target_buffer: &mut Vec<u8>,
    identifier: u64,
    data_len: u32,
    algorithm: Algorithm,
    operation: Operation,
) -> (r: i16)
    ensures
        old(target_buffer).len() < REQUEST_HEADER_WIRE_SIZE ==> r == -1 && *final(target_buffer)
            == *old(target_buffer),
        old(target_buffer).len() >= REQUEST_HEADER_WIRE_SIZE ==> r == 0
            && final(target_buffer)@ == spec_request_header_bytes(
            RequestHeader { version: FORMAT_VERSION, identifier, data_len, algorithm, operation },
        ) + old(target_buffer)@.skip(REQUEST_HEADER_WIRE_SIZE as int),
{
    if target_buffer.len() < REQUEST_HEADER_WIRE_SIZE {
        return -1;
    }
    let request_header = RequestHeader {
        version: FORMAT_VERSION,
        identifier,
        data_len,
        algorithm,
        operation,
    };
    let encoded = encode_request_header(&request_header);
    proof {
        lemma_request_header_round_trip(request_header);
    }
    crate::wire::write_prefix(target_buffer, encoded.as_slice());
    0
}

/// Given a buffer will return a `RequestHeader`. This header can be used to determine how many bytes
/// of data are coming up.
/// # Returns
/// A `RequestHeader` on success.  Anything else is a `DeserializationError`:
/// the buffer is shorter than the header's fixed wire size, or an algorithm
/// or operation ordinal lies outside its known range.  The version byte is
/// not checked here; callers wanting version compatibility compare the
/// decoded `version` field themselves.
pub fn deserialize_request_header(request_header: &[u8]) -> (r: Result<
    RequestHeader,
    DeserializationError,
>)
    ensures
        match r {
            Ok(h) => spec_parse_request_header(request_header@) == Some(h),
            Err(_) => spec_parse_request_header(request_header@) is None,
        },
{
    if request_header.len() < REQUEST_HEADER_WIRE_SIZE {
        return Err(DeserializationError);
    }
    let version = *slice_index_get(request_header, 0);
    let identifier = u64_from_le_bytes(slice_subrange(request_header, 1, 9));
    let data_len = u32_from_le_bytes(slice_subrange(request_header, 9, 13));
    let algorithm_wire = u32_from_le_bytes(slice_subrange(request_header, 13, 17));
    let operation_wire = u32_from_le_bytes(slice_subrange(request_header, 17, 21));
    let algorithm = match algorithm_from_ordinal(algorithm_wire) {
        Some(a) => a,
        None => {
            return Err(DeserializationError);
        },
    };
    let operation = match operation_from_ordinal(operation_wire) {
        Some(o) => o,
        None => {
            return Err(DeserializationError);
        },
    };
    Ok(RequestHeader { version, identifier, data_len, algorithm, operation })
}

/// Function which will put a `RequestHeader` and data together in a `Request`.
/// This is purely a convenience function such that one can operate on a `Request` instead
/// of keeping the header and data separate.
pub fn deserialize_request(request_header: RequestHeader, request_data: Vec<u8>) -> (r: Request)
    ensures
        r.header == request_header,
        r.body@ == request_data@,
{
    Request { header: request_header, body: request_data }
}

/// Given the length of two entries returns the length of the buffer required to fit both entries including their lengths.
pub fn structure_two_entries_length(entry1_length: usize, entry2_length: usize) -> (r: usize)
    requires
        entry1_length + entry2_length + 2 * (crate::entries::ENTRY_LENGTH_PREFIX_SIZE as int)
            <= usize::MAX,
    ensures
        r == entry1_length + entry2_length + 2 * (crate::entries::ENTRY_LENGTH_PREFIX_SIZE as int),
{
    entry1_length + entry2_length + 2 * crate::entries::ENTRY_LENGTH_PREFIX_SIZE
}

/// Given two entries this function will put them back-to-back into `data`
/// with their lengths included.
/// # Returns
/// 0 on success.
/// The caller must size `data` with `structure_two_entries_length`; that is
/// the documented precondition, not a recoverable error.  Bytes past the
/// packed region are left unchanged.
pub fn structure_two_entries(data: &mut Vec<u8>, entry1: &[u8], entry2: &[u8]) -> (r: i16)
    requires
        entry1.len() + entry2.len() + 16 <= old(data).len(),
    ensures
        r == 0,
        final(data).len() == old(data).len(),
        final(data)@ == crate::entries::spec_structured_entries(entry1@, entry2@) + old(
            data,
        )@.skip(16 + entry1@.len() + entry2@.len() as int),
{
    crate::entries::structure_entries_into(data, entry1, entry2);
    0
}

/// Given a buffer which was constructed using `structure_two_entries` this function will structure
/// it back into two separate slices. A `DestructureError` will be returned in case
/// this is not possible or would cause safety issues.
///
/// The returned slices borrow `data` (zero-copy); keep `data` alive and
/// unmodified while they are in use.
pub fn destructure_two_entries<'a>(data: &'a [u8]) -> (r: Result<
    (&'a [u8], &'a [u8]),
    DestructureError,
>)
    ensures
        match r {
            Ok(pair) => crate::entries::spec_destructured_entries(data@) == Some(
                (pair.0@, pair.1@),
            ),
            Err(_) => crate::entries::spec_destructured_entries(data@) is None,
        },
{
    crate::entries::destructure_entries(data)
}

} // verus!
