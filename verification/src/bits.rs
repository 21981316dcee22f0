//! Bytes of a machine word.

use vstd::prelude::*;

verus! {

/// Byte `index` of `n`, counting from the least significant one: bits
/// `8 * index` to `8 * index + 7`.
pub open spec fn byte_of(n: u64, index: u64) -> u8 {
    ((n >> (8 * index)) & 0xff) as u8
}

/// Byte `index` of `n`, counting from the least significant one.
pub fn low_byte(n: u64, index: u64) -> (b: u8)
    requires
        index < 8,
    ensures
        b == byte_of(n, index),
{
    let shifted: u64 = (n >> (8 * index)) & 0xff;
    assert(shifted <= 0xff) by (bit_vector)
        requires
            shifted == (n >> (8 * index)) & 0xff,
    ;
    shifted as u8
}

} // verus!
