//! The byte strings that identities are derived from.

use vstd::bytes::{spec_u64_to_le_bytes, u64_to_le_bytes};
use vstd::prelude::*;

verus! {

/// The unsigned number with the same 64 bits as a signed one, in two's
/// complement.
pub open spec fn twos_complement(x: i64) -> u64 {
    if x >= 0 {
        x as u64
    } else {
        (x + 0x1_0000_0000_0000_0000) as u64
    }
}

/// The eight bytes of a signed number, least significant first.
pub open spec fn i64_le_bytes(x: i64) -> Seq<u8> {
    spec_u64_to_le_bytes(twos_complement(x))
}

/// The eight bytes of a signed number, least significant first.
pub fn i64_to_le_bytes(x: i64) -> (bytes: Vec<u8>)
    ensures
        bytes@ == i64_le_bytes(x),
{
    let bits: u64 = x as u64;
    proof {
        assert(bits == twos_complement(x)) by (bit_vector)
            requires
                bits == x as u64,
        ;
    }
    u64_to_le_bytes(bits)
}

/// The bytes of an array, in order.
pub fn array_to_vec<const N: usize>(bytes: &[u8; N]) -> (v: Vec<u8>)
    ensures
        v@ == bytes@,
{
    let mut v: Vec<u8> = Vec::new();
    let mut i: usize = 0;
    while i < N
        invariant
            i <= N,
            v@.len() == i,
            forall|j: int| 0 <= j < i ==> v@[j] == bytes[j],
        decreases N - i,
    {
        v.push(bytes[i]);
        i = i + 1;
    }
    proof {
        assert(v@ =~= bytes@);
    }
    v
}

} // verus!
