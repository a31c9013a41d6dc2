//! Cleartext attribute profiles: fixed-width bit vectors, formed once by the
//! encoder and immutable afterwards. Widths are never silently padded or
//! truncated; every operation that needs a common width checks it.

use vstd::prelude::*;

use crate::bits::popcount;
use crate::error::MatchError;
use crate::pack::bit_of;

verus! {

/// A cleartext attribute vector of fixed bit-width.
#[derive(Debug)]
pub struct Profile {
    bits: Vec<bool>,
}

impl View for Profile {
    type V = Seq<bool>;

    closed spec fn view(&self) -> Seq<bool> {
        self.bits@
    }
}

impl Profile {
    /// Form a profile directly from an ordered bit vector.
    pub fn from_bits(bits: Vec<bool>) -> (r: Profile)
        ensures
            r@ == bits@,
    {
        Profile { bits }
    }

    /// The fixed bit-width of this profile.
    pub fn width(&self) -> (r: usize)
        ensures
            r == self@.len(),
    {
        self.bits.len()
    }

    /// Bit at one position, least significant first.
    pub fn bit(&self, i: usize) -> (r: bool)
        requires
            i < self@.len(),
        ensures
            r == self@[i as int],
    {
        self.bits[i]
    }

    /// Encode a set of attribute categories into a profile of the given
    /// width: bit `i` is set exactly when category `i` is present. Fails
    /// with an encoding error when some category has no bit slot.
    pub fn encode(categories: &Vec<usize>, width: usize) -> (r: Result<Profile, MatchError>)
        ensures
            (forall|j: int| 0 <= j < categories@.len() ==> categories@[j] < width) <==> r is Ok,
            r matches Ok(p) ==> p@.len() == width && (forall|i: int|
                0 <= i < width ==> p@[i] == categories@.contains(i as usize)),
            r matches Err(e) ==> e == MatchError::Encoding,
    {
        let mut bits: Vec<bool> = Vec::new();
        let mut i: usize = 0;
        while i < width
            invariant
                i <= width,
                bits@.len() == i,
                forall|k: int| 0 <= k < i ==> !bits@[k],
            decreases width - i,
        {
            bits.push(false);
            i = i + 1;
        }
        let mut j: usize = 0;
        while j < categories.len()
            invariant
                j <= categories@.len(),
                bits@.len() == width,
                forall|k: int| 0 <= k < j ==> categories@[k] < width,
                forall|i2: int| 0 <= i2 < width ==> bits@[i2] == categories@.take(j as int)
                    .contains(i2 as usize),
            decreases categories@.len() - j,
        {
            let c = categories[j];
            if c >= width {
                return Err(MatchError::Encoding);
            }
            bits.set(c, true);
            proof {
                assert(categories@.take(j + 1).drop_last() =~= categories@.take(j as int));
                assert(forall|i2: int| 0 <= i2 < width ==> #[trigger] categories@.take(j + 1)
                    .contains(i2 as usize) == (categories@.take(j as int).contains(i2 as usize)
                    || i2 == c as int)) by {
                    assert(forall|i2: int| 0 <= i2 < width ==> (#[trigger] categories@.take(j + 1)
                        .contains(i2 as usize) == (categories@.take(j + 1).drop_last().contains(
                        i2 as usize,
                    ) || categories@.take(j + 1).last() == i2 as usize)));
                }
            }
            j = j + 1;
        }
        proof {
            assert(categories@.take(categories@.len() as int) =~= categories@);
        }
        Ok(Profile { bits })
    }

    /// The two 128-bit halves of this profile's packed 256-bit value: bit `i`
    /// of the profile sits at position `i` of the low half for `i < 128` and
    /// at position `i - 128` of the high half above that; positions at or
    /// above the width are clear.
    pub fn halves(&self) -> (r: (u128, u128))
        requires
            self@.len() <= 256,
        ensures
            forall|i: u128| i < 128 ==> #[trigger] bit_of(r.0, i) == (i < self@.len()
                && self@[i as int]),
            forall|i: u128| i < 128 ==> #[trigger] bit_of(r.1, i) == (128 + i < self@.len()
                && self@[128 + i]),
    {
        let lo = crate::pack::pack_half(&self.bits, 0);
        let hi = crate::pack::pack_half(&self.bits, 128);
        (lo, hi)
    }

    /// Number of set bits of this profile, in cleartext.
    pub fn popcount(&self) -> (r: usize)
        ensures
            r == popcount(self@),
    {
        let mut r: usize = 0;
        let mut i: usize = 0;
        while i < self.bits.len()
            invariant
                i <= self@.len(),
                r == popcount(self@.take(i as int)),
                r <= i,
            decreases self@.len() - i,
        {
            proof {
                assert(self@.take(i + 1).drop_last() =~= self@.take(i as int));
            }
            if self.bits[i] {
                r = r + 1;
            }
            i = i + 1;
        }
        proof {
            assert(self@.take(self@.len() as int) =~= self@);
        }
        r
    }

    /// Cleartext reference of the Hamming distance: the number of bit
    /// positions where the two profiles differ. The homomorphic metric
    /// decrypts to exactly this value.
    pub fn hamming_clear(&self, other: &Profile) -> (r: usize)
        requires
            self@.len() == other@.len(),
        ensures
            r == popcount(crate::bits::xor_bits(self@, other@)),
    {
        let ghost x = crate::bits::xor_bits(self@, other@);
        let mut r: usize = 0;
        let mut i: usize = 0;
        while i < self.bits.len()
            invariant
                i <= self@.len(),
                self@.len() == other@.len(),
                x == crate::bits::xor_bits(self@, other@),
                r == popcount(x.take(i as int)),
                r <= i,
            decreases self@.len() - i,
        {
            proof {
                assert(x.take(i + 1).drop_last() =~= x.take(i as int));
            }
            if self.bits[i] != other.bits[i] {
                r = r + 1;
            }
            i = i + 1;
        }
        proof {
            assert(x.take(x.len() as int) =~= x);
        }
        r
    }

    /// Cleartext reference of the overlap score: the number of bit positions
    /// set in both profiles. The homomorphic metric decrypts to exactly this
    /// value.
    pub fn overlap_clear(&self, other: &Profile) -> (r: usize)
        requires
            self@.len() == other@.len(),
        ensures
            r == popcount(crate::bits::and_bits(self@, other@)),
    {
        let ghost x = crate::bits::and_bits(self@, other@);
        let mut r: usize = 0;
        let mut i: usize = 0;
        while i < self.bits.len()
            invariant
                i <= self@.len(),
                self@.len() == other@.len(),
                x == crate::bits::and_bits(self@, other@),
                r == popcount(x.take(i as int)),
                r <= i,
            decreases self@.len() - i,
        {
            proof {
                assert(x.take(i + 1).drop_last() =~= x.take(i as int));
            }
            if self.bits[i] && other.bits[i] {
                r = r + 1;
            }
            i = i + 1;
        }
        proof {
            assert(x.take(x.len() as int) =~= x);
        }
        r
    }

    /// The profile with every bit flipped.
    pub fn complement(&self) -> (r: Profile)
        ensures
            r@ == crate::bits::not_bits(self@),
    {
        let mut bits: Vec<bool> = Vec::new();
        let mut i: usize = 0;
        while i < self.bits.len()
            invariant
                i <= self@.len(),
                bits@.len() == i,
                forall|k: int| 0 <= k < i ==> bits@[k] == !self@[k],
            decreases self@.len() - i,
        {
            bits.push(!self.bits[i]);
            i = i + 1;
        }
        proof {
            assert(bits@ =~= crate::bits::not_bits(self@));
        }
        Profile { bits }
    }

    /// Profile of width 32 taken from the bits of one machine word,
    /// least significant bit first.
    pub fn from_u32(x: u32) -> (r: Profile)
        ensures
            r@.len() == 32,
            forall|i: int| 0 <= i < 32 ==> r@[i] == bit_of(x as u128, i as u128),
    {
        let v = crate::pack::unpack_half(x as u128, 32);
        Profile { bits: v }
    }

    /// Profile of width 128 taken from two 64-bit halves, the low half first.
    pub fn from_u64_pair(lo: u64, hi: u64) -> (r: Profile)
        ensures
            r@.len() == 128,
            forall|i: int| 0 <= i < 64 ==> r@[i] == bit_of(lo as u128, i as u128),
            forall|i: int| 64 <= i < 128 ==> r@[i] == bit_of(hi as u128, (i - 64) as u128),
    {
        let low = crate::pack::unpack_half(lo as u128, 64);
        let mut bits = low;
        let high = crate::pack::unpack_half(hi as u128, 64);
        let mut j: usize = 0;
        while j < 64
            invariant
                j <= 64,
                high@.len() == 64,
                bits@.len() == 64 + j,
                forall|i: int| 0 <= i < 64 ==> bits@[i] == bit_of(lo as u128, i as u128),
                forall|i: int| 64 <= i < 64 + j ==> bits@[i] == high@[i - 64],
            decreases 64 - j,
        {
            bits.push(high[j]);
            j = j + 1;
        }
        Profile { bits }
    }

    /// Profile of width 256 taken from two 128-bit halves, the low half first.
    pub fn from_u128_pair(lo: u128, hi: u128) -> (r: Profile)
        ensures
            r@.len() == 256,
            forall|i: int| 0 <= i < 128 ==> r@[i] == bit_of(lo, i as u128),
            forall|i: int| 128 <= i < 256 ==> r@[i] == bit_of(hi, (i - 128) as u128),
    {
        let low = crate::pack::unpack_half(lo, 128);
        let mut bits = low;
        let high = crate::pack::unpack_half(hi, 128);
        let mut j: usize = 0;
        while j < 128
            invariant
                j <= 128,
                high@.len() == 128,
                bits@.len() == 128 + j,
                forall|i: int| 0 <= i < 128 ==> bits@[i] == bit_of(lo, i as u128),
                forall|i: int| 128 <= i < 128 + j ==> bits@[i] == high@[i - 128],
            decreases 128 - j,
        {
            bits.push(high[j]);
            j = j + 1;
        }
        Profile { bits }
    }
}

} // verus!
