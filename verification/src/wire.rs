//! Byte-level helpers shared by the header and entry-pair codecs: writing
//! an encoded message into the front of a caller-supplied buffer and
//! converting the signed success flag to and from its wire byte.

use vstd::prelude::*;
use vstd::seq_lib::*;
use vstd::slice::*;

verus! {

/// The wire byte that carries a signed 8-bit value (two's complement).
pub open spec fn spec_i8_to_byte(x: i8) -> u8 {
    if x >= 0 {
        x as u8
    } else {
        (x + 256) as u8
    }
}

/// The signed 8-bit value carried by a wire byte (two's complement).
pub open spec fn spec_byte_to_i8(b: u8) -> i8 {
    if b < 128 {
        b as i8
    } else {
        (b - 256) as i8
    }
}

pub proof fn lemma_i8_byte_round_trip(x: i8)
    ensures
        spec_byte_to_i8(spec_i8_to_byte(x)) == x,
{
}

pub fn i8_to_byte(x: i8) -> (r: u8)
    ensures
        r == spec_i8_to_byte(x),
{
    if x >= 0 {
        x as u8
    } else {
        (x as i16 + 256) as u8
    }
}

pub fn byte_to_i8(b: u8) -> (r: i8)
    ensures
        r == spec_byte_to_i8(b),
{
    if b < 128 {
        b as i8
    } else {
        (b as i16 - 256) as i8
    }
}

/// Overwrites the start of `buf` with the bytes of `src`, leaving the bytes
/// past `src.len()` unchanged.
pub fn write_prefix(buf: &mut Vec<u8>, src: &[u8])
    requires
        src.len() <= old(buf).len(),
    ensures
        final(buf).len() == old(buf).len(),
        final(buf)@ == src@ + old(buf)@.skip(src@.len() as int),
{
    let total = src.len();
    let mut i: usize = 0;
    while i < total
        invariant
            i <= total,
            total == src.len(),
            total <= buf.len(),
            buf.len() == old(buf).len(),
            forall|j: int| 0 <= j < i ==> buf@[j] == src@[j],
            forall|j: int| i <= j < buf.len() ==> buf@[j] == old(buf)@[j],
        decreases total - i,
    {
        buf.set(i, *slice_index_get(src, i));
        i = i + 1;
    }
    proof {
        assert_seqs_equal!(buf@ == src@ + old(buf)@.skip(src@.len() as int));
    }
}

} // verus!
