//! Wire codec: every 64-bit field of a request is obfuscated by XOR with a
//! fixed key known to both sides. XOR with a constant is an involution, so
//! one function serves as encoder and decoder.

use vstd::prelude::*;

verus! {

/// The fixed obfuscation key shared by both sides of the boundary.
pub const XOR_KEY: u64 = 0xDEADBEEFCAFEBABE;

/// What encoding (and decoding) does to a single 64-bit field.
pub open spec fn spec_code(x: u64) -> u64 {
    x ^ XOR_KEY
}

/// Obfuscate one 64-bit field for the wire.
pub fn encode(x: u64) -> (r: u64)
    ensures
        r == spec_code(x),
{
    x ^ XOR_KEY
}

/// Recover a 64-bit field from the wire; the same XOR as `encode`.
pub fn decode(x: u64) -> (r: u64)
    ensures
        r == spec_code(x),
{
    x ^ XOR_KEY
}

/// The codec is an involution: decoding an encoded field gives the field
/// back, for every 64-bit value.
pub proof fn lemma_codec_involution(x: u64)
    ensures
        spec_code(spec_code(x)) == x,
{
    assert((x ^ XOR_KEY) ^ XOR_KEY == x) by (bit_vector);
}

} // verus!
