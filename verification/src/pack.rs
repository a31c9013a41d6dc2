//! Little-endian packing of a bit vector into the two 128-bit halves of a
//! 256-bit machine word, and the inverse decoding. The homomorphic backend
//! works on 256-bit integers, so a profile of width up to 256 is carried in
//! its low bits and the remaining high bits stay clear.

use vstd::prelude::*;

verus! {

/// Bit `i` of a 128-bit word, counting from the least significant bit.
pub open spec fn bit_of(x: u128, i: u128) -> bool {
    (x >> i) & 1 == 1
}

/// Bit `i` of the 256-bit value whose low half is `lo` and high half is `hi`.
pub open spec fn u256_bit(lo: u128, hi: u128, i: int) -> bool {
    if i < 128 {
        bit_of(lo, i as u128)
    } else {
        bit_of(hi, (i - 128) as u128)
    }
}

proof fn lemma_or_sets_one_bit(r: u128, j: u128)
    by (bit_vector)
    requires
        j < 128,
    ensures
        forall|i: u128| i < 128 ==> #[trigger] bit_of(r | (1u128 << j), i) == (bit_of(r, i) || i
            == j),
{
}

/// Pack the bits `bits[start .. start + 128]` (little-endian, missing
/// positions read as clear) into one 128-bit word.
pub fn pack_half(bits: &Vec<bool>, start: usize) -> (r: u128)
    requires
        bits@.len() <= 256,
        start <= 256,
    ensures
        forall|i: u128| i < 128 ==> #[trigger] bit_of(r, i) == (start + i < bits@.len()
            && bits@[start + i]),
{
    let mut r: u128 = 0;
    let mut j: usize = 0;
    assert(forall|i: u128| i < 128 ==> !bit_of(0u128, i)) by (bit_vector);
    while j < 128 && start + j < bits.len()
        invariant
            j <= 128,
            start + j <= bits@.len() || j == 0,
            bits@.len() <= 256,
            forall|i: u128| i < 128 ==> #[trigger] bit_of(r, i) == (i < j && start + i
                < bits@.len() && bits@[start + i]),
        decreases 128 - j,
    {
        if bits[start + j] {
            proof {
                lemma_or_sets_one_bit(r, j as u128);
            }
            r = r | (1u128 << (j as u128));
        }
        j = j + 1;
    }
    r
}

/// Decode `count` bits (little-endian) out of one 128-bit word.
pub fn unpack_half(x: u128, count: usize) -> (r: Vec<bool>)
    requires
        count <= 128,
    ensures
        r@.len() == count,
        forall|i: int| 0 <= i < count ==> r@[i] == bit_of(x, i as u128),
{
    let mut r: Vec<bool> = Vec::new();
    let mut j: usize = 0;
    while j < count
        invariant
            j <= count,
            count <= 128,
            r@.len() == j,
            forall|i: int| 0 <= i < j ==> r@[i] == bit_of(x, i as u128),
        decreases count - j,
    {
        let b: bool = (x >> (j as u128)) & 1 == 1;
        r.push(b);
        j = j + 1;
    }
    r
}

} // verus!
