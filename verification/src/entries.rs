//! The entry-pair codec: packs two variable-length byte blobs back-to-back
//! as `[len1][bytes1][len2][bytes2]`, each length a 64-bit little-endian
//! prefix, and unpacks them again with full bounds checking.
//!
//! The request and response modules expose this scheme in both directions;
//! unpacking returns sub-slices that borrow the input buffer (zero-copy), so
//! the caller must keep that buffer alive and unmodified while the views are
//! in use.

use crate::DestructureError;
use vstd::bytes::*;
use vstd::prelude::*;
use vstd::seq_lib::*;
use vstd::slice::*;

verus! {

/// Number of bytes of each length prefix on the wire.
pub const ENTRY_LENGTH_PREFIX_SIZE: usize = 8;

/// The packed form of two entries: each entry preceded by its length as an
/// eight-byte little-endian integer.
pub open spec fn spec_structured_entries(e1: Seq<u8>, e2: Seq<u8>) -> Seq<u8>
    recommends
        e1.len() <= u64::MAX,
        e2.len() <= u64::MAX,
{
    spec_u64_to_le_bytes(e1.len() as u64) + e1 + spec_u64_to_le_bytes(e2.len() as u64) + e2
}

/// The two entries recovered from a packed buffer, or `None` when the buffer
/// is truncated or a length prefix overruns the remaining bytes.  Trailing
/// bytes after the second entry are tolerated, as the unpackers tolerate
/// them.
pub open spec fn spec_destructured_entries(s: Seq<u8>) -> Option<(Seq<u8>, Seq<u8>)> {
    if s.len() < 8 {
        None
    } else {
        let l1 = spec_u64_from_le_bytes(s.subrange(0, 8)) as int;
        if l1 > s.len() - 8 {
            None
        } else if s.len() - 8 - l1 < 8 {
            None
        } else {
            let l2 = spec_u64_from_le_bytes(s.subrange(8 + l1, 16 + l1)) as int;
            if l2 > s.len() - 16 - l1 {
                None
            } else {
                Some((s.subrange(8, 8 + l1), s.subrange(16 + l1, 16 + l1 + l2)))
            }
        }
    }
}

/// Unpacking inverts packing: for any two entries whose lengths are
/// representable in the eight-byte prefix, the packed buffer destructures
/// back into exactly those entries, and its length is the two entry lengths
/// plus both prefixes.
pub proof fn lemma_entries_round_trip(e1: Seq<u8>, e2: Seq<u8>)
    requires
        e1.len() <= u64::MAX,
        e2.len() <= u64::MAX,
    ensures
        spec_structured_entries(e1, e2).len() == 16 + e1.len() + e2.len(),
        spec_destructured_entries(spec_structured_entries(e1, e2)) == Some((e1, e2)),
{
    lemma_auto_spec_u64_to_from_le_bytes();
    let s = spec_structured_entries(e1, e2);
    let l1 = e1.len() as int;
    let l2 = e2.len() as int;
    assert_seqs_equal!(s.subrange(0, 8) == spec_u64_to_le_bytes(e1.len() as u64));
    assert(spec_u64_from_le_bytes(s.subrange(0, 8)) as int == l1);
    assert_seqs_equal!(s.subrange(8 + l1, 16 + l1) == spec_u64_to_le_bytes(e2.len() as u64));
    assert(spec_u64_from_le_bytes(s.subrange(8 + l1, 16 + l1)) as int == l2);
    assert_seqs_equal!(s.subrange(8, 8 + l1) == e1);
    assert_seqs_equal!(s.subrange(16 + l1, 16 + l1 + l2) == e2);
}

/// Packs the two entries into a fresh buffer.
pub fn structure_entries_to_vec(entry1: &[u8], entry2: &[u8]) -> (r: Vec<u8>)
    ensures
        r@ == spec_structured_entries(entry1@, entry2@),
{
    let mut structured_data: Vec<u8> = Vec::new();
    let mut prefix1 = u64_to_le_bytes(entry1.len() as u64);
    structured_data.append(&mut prefix1);
    let mut body1 = slice_to_vec(entry1);
    structured_data.append(&mut body1);
    let mut prefix2 = u64_to_le_bytes(entry2.len() as u64);
    structured_data.append(&mut prefix2);
    let mut body2 = slice_to_vec(entry2);
    structured_data.append(&mut body2);
    proof {
        assert_seqs_equal!(structured_data@ == spec_structured_entries(entry1@, entry2@));
    }
    structured_data
}

/// Packs the two entries in place at the start of `data`, which the caller
/// has sized using the packed length (entry lengths plus both prefixes);
/// bytes past the packed region are left unchanged.
pub fn structure_entries_into(data: &mut Vec<u8>, entry1: &[u8], entry2: &[u8])
    requires
        entry1.len() + entry2.len() + 16 <= old(data).len(),
    ensures
        final(data).len() == old(data).len(),
        final(data)@ == spec_structured_entries(entry1@, entry2@) + old(data)@.skip(
            16 + entry1@.len() + entry2@.len() as int,
        ),
{
    let packed = structure_entries_to_vec(entry1, entry2);
    proof {
        lemma_entries_round_trip(entry1@, entry2@);
    }
    crate::wire::write_prefix(data, packed.as_slice());
}

/// Unpacks a buffer produced by the packing functions back into two borrowed
/// sub-slices of `data`, validating every length prefix against the
/// remaining bytes before trusting it.
pub fn destructure_entries<'a>(data: &'a [u8]) -> (r: Result<
    (&'a [u8], &'a [u8]),
    DestructureError,
>)
    ensures
        match r {
            Ok(pair) => spec_destructured_entries(data@) == Some((pair.0@, pair.1@)),
            Err(_) => spec_destructured_entries(data@) is None,
        },
{
    let n = data.len();
    if n < 8 {
        return Err(DestructureError);
    }
    let prefix1 = slice_subrange(data, 0, 8);
    let l1_wire = u64_from_le_bytes(prefix1);
    if l1_wire > (n - 8) as u64 {
        return Err(DestructureError);
    }
    let l1 = l1_wire as usize;
    if n - 8 - l1 < 8 {
        return Err(DestructureError);
    }
    let prefix2 = slice_subrange(data, 8 + l1, 16 + l1);
    let l2_wire = u64_from_le_bytes(prefix2);
    if l2_wire > (n - 16 - l1) as u64 {
        return Err(DestructureError);
    }
    let l2 = l2_wire as usize;
    let entry1 = slice_subrange(data, 8, 8 + l1);
    let entry2 = slice_subrange(data, 16 + l1, 16 + l1 + l2);
    Ok((entry1, entry2))
}

} // verus!
