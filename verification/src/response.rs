//! Everything one needs for sending and receiving response headers, and the
//! response-side entry-pair helpers.
//!
//! A response header is encoded little-endian with no padding, fields in
//! declaration order: version (1 byte), identifier (8 bytes), success
//! (1 byte, two's complement), data_len (4 bytes).  The actual data is
//! appended after the serialized header, since the header itself has a fixed
//! size.

use crate::wire::spec_byte_to_i8;
use crate::wire::spec_i8_to_byte;
use crate::SerializationError;
use crate::FORMAT_VERSION;
use vstd::bytes::*;
use vstd::prelude::*;
use vstd::seq_lib::*;
use vstd::slice::*;

verus! {

/// Fixed wire size of a serialized `ResponseHeader` in bytes.
pub const RESPONSE_HEADER_WIRE_SIZE: usize = 14;

/// Header that describes the response sent.
/// # Explanation of the header
/// - version is used for compatibility reasons.  The encoder always stamps
///   the current `FORMAT_VERSION`, and `deserialize_response_header` rejects
///   any other value: the response side is the boundary most exposed to a
///   caller that has no other way to validate compatibility.
/// - identifier is used so that the receiver of the `ResponseHeader` can link it back to the original request.
/// - success indicates whether there was a failure. 0 means success while anything else is a failure.
///   Note that the data_len field will always be 0 when there was a failure.
/// - data_len describes the length of the upcoming data that belongs to this `ResponseHeader`. The data after that
///   will belong to a new `ResponseHeader`.
#[derive(Clone, Copy, Debug, PartialEq, Eq, Structural)]
pub struct ResponseHeader {
    pub version: u8,
    pub identifier: u64,
    pub success: i8,
    pub data_len: u32,
}

impl Default for ResponseHeader {
    fn default() -> (r: Self)
        ensures
            r == (ResponseHeader { version: 0, identifier: 0, success: 0, data_len: 0 }),
    {
        ResponseHeader { version: 0, identifier: 0, success: 0, data_len: 0 }
    }
}

/// Convenience struct to allow response body to be stored together with the header.
pub struct Response {
    pub header: ResponseHeader,
    pub body: Vec<u8>,
}

/// The canonical byte encoding of a response header.
pub open spec fn spec_response_header_bytes(h: ResponseHeader) -> Seq<u8> {
    seq![h.version] + spec_u64_to_le_bytes(h.identifier) + seq![spec_i8_to_byte(h.success)]
        + spec_u32_to_le_bytes(h.data_len)
}

/// The response header carried by the first `RESPONSE_HEADER_WIRE_SIZE`
/// bytes of `s`, or `None` when `s` is too short.
pub open spec fn spec_parse_response_header(s: Seq<u8>) -> Option<ResponseHeader> {
    if s.len() < RESPONSE_HEADER_WIRE_SIZE {
        None
    } else {
        Some(
            ResponseHeader {
                version: s[0],
                identifier: spec_u64_from_le_bytes(s.subrange(1, 9)),
                success: spec_byte_to_i8(s[9]),
                data_len: spec_u32_from_le_bytes(s.subrange(10, 14)),
            },
        )
    }
}

/// The header of the response built for `data`: success with the payload
/// length when there is a payload whose length fits the four-byte field, the
/// protocol-level failure signal (success -1, no payload) otherwise.
pub open spec fn spec_response_header_for(identifier: u64, data: Option<Seq<u8>>) -> ResponseHeader {
    match data {
        Some(d) => if d.len() <= u32::MAX {
            ResponseHeader {
                version: FORMAT_VERSION,
                identifier,
                success: 0,
                data_len: d.len() as u32,
            }
        } else {
            ResponseHeader { version: FORMAT_VERSION, identifier, success: -1i8, data_len: 0 }
        },
        None => ResponseHeader { version: FORMAT_VERSION, identifier, success: -1i8, data_len: 0 },
    }
}

/// A failure response never carries a payload: every header built by
/// `serialize_response` has `data_len == 0` whenever `success != 0`.
pub proof fn lemma_response_failure_carries_no_payload(identifier: u64, data: Option<Seq<u8>>)
    ensures
        spec_response_header_for(identifier, data).success != 0 ==> spec_response_header_for(
            identifier,
            data,
        ).data_len == 0,
{
}

/// Every complete response that `serialize_response` can build parses back
/// into the header it was built from: the header round-trips even with the
/// payload appended, a failure response never carries a payload, and on
/// success `data_len` is exactly the number of payload bytes that follow
/// the header.
pub proof fn lemma_response_round_trip(identifier: u64, data: Option<Seq<u8>>)
    ensures
        ({
            let header = spec_response_header_for(identifier, data);
            let serialized = spec_response_header_bytes(header) + (
            if header.success == 0 {
                data.unwrap()
            } else {
                Seq::<u8>::empty()
            });
            &&& spec_parse_response_header(serialized) == Some(header)
            &&& header.success != 0 ==> header.data_len == 0
            &&& header.success == 0 ==> header.data_len == serialized.len()
                - RESPONSE_HEADER_WIRE_SIZE
        }),
{
    let header = spec_response_header_for(identifier, data);
    let serialized = spec_response_header_bytes(header) + (
    if header.success == 0 {
        data.unwrap()
    } else {
        Seq::<u8>::empty()
    });
    lemma_response_header_round_trip(header);
    let bare = spec_response_header_bytes(header);
    assert_seqs_equal!(serialized.subrange(1, 9) == bare.subrange(1, 9));
    assert_seqs_equal!(serialized.subrange(10, 14) == bare.subrange(10, 14));
    assert(serialized[0] == bare[0]);
    assert(serialized[9] == bare[9]);
}

/// Decoding inverts encoding: the canonical bytes of any response header
/// parse back into exactly that header.
pub proof fn lemma_response_header_round_trip(h: ResponseHeader)
    ensures
        spec_response_header_bytes(h).len() == RESPONSE_HEADER_WIRE_SIZE,
        spec_parse_response_header(spec_response_header_bytes(h)) == Some(h),
{
    lemma_auto_spec_u64_to_from_le_bytes();
    lemma_auto_spec_u32_to_from_le_bytes();
    crate::wire::lemma_i8_byte_round_trip(h.success);
    let s = spec_response_header_bytes(h);
    assert_seqs_equal!(s.subrange(1, 9) == spec_u64_to_le_bytes(h.identifier));
    assert_seqs_equal!(s.subrange(10, 14) == spec_u32_to_le_bytes(h.data_len));
}

/// The canonical byte encoding of `header`, as a fresh buffer.
fn encode_response_header(header: &ResponseHeader) -> (r: Vec<u8>)
    ensures
        r@ == spec_response_header_bytes(*header),
{
    let mut encoded: Vec<u8> = Vec::new();
    encoded.push(header.version);
    let mut identifier_bytes = u64_to_le_bytes(header.identifier);
    encoded.append(&mut identifier_bytes);
    encoded.push(crate::wire::i8_to_byte(header.success));
    let mut data_len_bytes = u32_to_le_bytes(header.data_len);
    encoded.append(&mut data_len_bytes);
    proof {
        assert_seqs_equal!(encoded@ == spec_response_header_bytes(*header));
    }
    encoded
}

/// Returns the size needed for the buffer where the serialized response header will be stored.
pub fn get_serialized_response_header_size() -> (r: u64)
    ensures
        r == RESPONSE_HEADER_WIRE_SIZE,
{
    RESPONSE_HEADER_WIRE_SIZE as u64
}

/// Builds a complete response: a header stamped with the current
/// `FORMAT_VERSION`, followed by the payload when there is one.
///
/// The length of the payload can be at most the largest four-byte value.  A
/// missing payload, or one whose length does not fit the `data_len` field,
/// is folded into the protocol-level failure signal (success -1, no
/// payload); the call itself still succeeds, so that receivers can
/// distinguish "no payload" from "call failed".
pub fn serialize_response(identifier: u64, data: Option<&[u8]>) -> (r: Result<
    Vec<u8>,
    SerializationError,
>)
    ensures
        ({
            let header = spec_response_header_for(
                identifier,
                match data {
                    Some(d) => Some(d@),
                    None => None,
                },
            );
            match r {
                Ok(serialized) => serialized@ == spec_response_header_bytes(header) + (
                if header.success == 0 {
                    data.unwrap()@
                } else {
                    Seq::<u8>::empty()
                }),
                Err(_) => false,
            }
        }),
{
    let mut response_header = ResponseHeader {
        version: FORMAT_VERSION,
        identifier,
        success: 0,
        data_len: 0,
    };
    match data {
        Some(data) => {
            if data.len() <= u32::MAX as usize {
                response_header.success = 0;
                response_header.data_len = data.len() as u32;
            } else {
                response_header.success = -1;
                response_header.data_len = 0;
            }
        },
        None => {
            response_header.success = -1;
            response_header.data_len = 0;
        },
    }
    let mut serialized = encode_response_header(&response_header);
    if response_header.success == 0 {
        let mut body = slice_to_vec(data.unwrap());
        serialized.append(&mut body);
    }
    Ok(serialized)
}

/// Reads a `ResponseHeader` from the start of `response_data`.  This header
/// can be used to determine how many bytes of data are coming up.
/// # Returns
/// 0 on success.
/// -3 when the buffer is shorter than the header's fixed wire size; nothing
/// is written to `response_header` in that case.
/// -4 for mismatch of version in header; the decoded header is still written
/// to `response_header` so the caller can inspect it.
pub fn deserialize_response_header(
    response_data: &[u8],
    response_header: &mut ResponseHeader,
) -> (r: i16)
    ensures
        response_data@.len() < RESPONSE_HEADER_WIRE_SIZE ==> r == -3 && *final(response_header)
            == *old(response_header),
        response_data@.len() >= RESPONSE_HEADER_WIRE_SIZE ==> spec_parse_response_header(
            response_data@,
        ) == Some(*final(response_header)),
        r == 0 <==> response_data@.len() >= RESPONSE_HEADER_WIRE_SIZE && final(
            response_header).version == FORMAT_VERSION,
        r == -4 <==> response_data@.len() >= RESPONSE_HEADER_WIRE_SIZE && final(
            response_header).version != FORMAT_VERSION,
{
    if response_data.len() < RESPONSE_HEADER_WIRE_SIZE {
        return -3;
    }
    let version = *slice_index_get(response_data, 0);
    let identifier = u64_from_le_bytes(slice_subrange(response_data, 1, 9));
    let success = crate::wire::byte_to_i8(*slice_index_get(response_data, 9));
    let data_len = u32_from_le_bytes(slice_subrange(response_data, 10, 14));
    *response_header = ResponseHeader { version, identifier, success, data_len };
    if version != FORMAT_VERSION {
        -4
    } else {
        0
    }
}

/// Given two entries this function will put them back-to-back into a fresh
/// buffer with their lengths included.
pub fn structure_two_entries(entry1: &[u8], entry2: &[u8]) -> (r: Vec<u8>)
    ensures
        r@ == crate::entries::spec_structured_entries(entry1@, entry2@),
{
    crate::entries::structure_entries_to_vec(entry1, entry2)
}

/// Given a buffer which contains two length-prefixed data fields, returns
/// sub-slices of the buffer for both fields (zero-copy: keep `data` alive
/// and unmodified while they are in use).
/// # Returns
/// A status as the first element: 0 on success, and -8 when the buffer is
/// truncated or a length prefix would cause an out-of-bounds access, in
/// which case both returned slices are empty.
pub fn destructure_two_entries<'a>(data: &'a [u8]) -> (r: (i16, &'a [u8], &'a [u8]))
    ensures
        ({
            let (status, entry1, entry2) = r;
            match crate::entries::spec_destructured_entries(data@) {
                Some(pair) => status == 0 && entry1@ == pair.0 && entry2@ == pair.1,
                None => status == -8 && entry1@.len() == 0 && entry2@.len() == 0,
            }
        }),
{
    match crate::entries::destructure_entries(data) {
        Ok((entry1, entry2)) => (0, entry1, entry2),
        Err(_) => {
            let empty1 = slice_subrange(data, 0, 0);
            let empty2 = slice_subrange(data, 0, 0);
            (-8, empty1, empty2)
        },
    }
}

} // verus!
