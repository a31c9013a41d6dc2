//! Mathematical model of fixed-width bit vectors and the two similarity
//! metrics: a profile is a sequence of bits, the Hamming distance is the
//! population count of the pointwise XOR, and the overlap score is the
//! population count of the pointwise AND.

use vstd::prelude::*;

verus! {

/// Number of set bits in a bit vector.
pub open spec fn popcount(s: Seq<bool>) -> nat
    decreases s.len(),
{
    if s.len() == 0 {
        0
    } else {
        popcount(s.drop_last()) + (if s.last() {
            1nat
        } else {
            0nat
        })
    }
}

/// Pointwise XOR of two equal-width bit vectors.
pub open spec fn xor_bits(a: Seq<bool>, b: Seq<bool>) -> Seq<bool> {
    Seq::new(a.len(), |i: int| a[i] != b[i])
}

/// Pointwise AND of two equal-width bit vectors.
pub open spec fn and_bits(a: Seq<bool>, b: Seq<bool>) -> Seq<bool> {
    Seq::new(a.len(), |i: int| a[i] && b[i])
}

/// Pointwise complement of a bit vector.
pub open spec fn not_bits(a: Seq<bool>) -> Seq<bool> {
    Seq::new(a.len(), |i: int| !a[i])
}

/// The population count never exceeds the width.
pub proof fn lemma_popcount_le_len(s: Seq<bool>)
    ensures
        popcount(s) <= s.len(),
    decreases s.len(),
{
    if s.len() > 0 {
        lemma_popcount_le_len(s.drop_last());
    }
}

/// A vector without set bits has population count zero.
pub proof fn lemma_popcount_zero(s: Seq<bool>)
    requires
        forall|i: int| 0 <= i < s.len() ==> !s[i],
    ensures
        popcount(s) == 0,
    decreases s.len(),
{
    if s.len() > 0 {
        lemma_popcount_zero(s.drop_last());
    }
}

/// A vector with every bit set has population count equal to the width.
pub proof fn lemma_popcount_full(s: Seq<bool>)
    requires
        forall|i: int| 0 <= i < s.len() ==> s[i],
    ensures
        popcount(s) == s.len(),
    decreases s.len(),
{
    if s.len() > 0 {
        lemma_popcount_full(s.drop_last());
    }
}

/// Pointwise implication between equal-width vectors is monotone in the
/// population count.
pub proof fn lemma_popcount_pointwise_le(a: Seq<bool>, b: Seq<bool>)
    requires
        a.len() == b.len(),
        forall|i: int| 0 <= i < a.len() ==> (a[i] ==> b[i]),
    ensures
        popcount(a) <= popcount(b),
    decreases a.len(),
{
    if a.len() > 0 {
        lemma_popcount_pointwise_le(a.drop_last(), b.drop_last());
    }
}

/// The positions at which a bit vector is set.
pub open spec fn set_positions(s: Seq<bool>) -> Set<int> {
    Set::new(|i: int| 0 <= i < s.len() && s[i])
}

/// The population count is exactly the number of set positions.
pub proof fn lemma_popcount_is_position_count(s: Seq<bool>)
    ensures
        set_positions(s).finite(),
        set_positions(s).len() == popcount(s),
    decreases s.len(),
{
    if s.len() == 0 {
        assert(set_positions(s) =~= Set::empty());
    } else {
        let s0 = s.drop_last();
        lemma_popcount_is_position_count(s0);
        if s.last() {
            assert(set_positions(s) =~= set_positions(s0).insert(s.len() - 1));
        } else {
            assert(set_positions(s) =~= set_positions(s0));
        }
    }
}

/// The Hamming distance is exactly the count of bit positions where the two
/// profiles differ.
pub proof fn lemma_distance_counts_differing_positions(u: Seq<bool>, t: Seq<bool>)
    requires
        u.len() == t.len(),
    ensures
        Set::new(|i: int| 0 <= i < u.len() && u[i] != t[i]).finite(),
        popcount(xor_bits(u, t)) == Set::new(|i: int| 0 <= i < u.len() && u[i] != t[i]).len(),
{
    lemma_popcount_is_position_count(xor_bits(u, t));
    assert(set_positions(xor_bits(u, t)) =~= Set::new(
        |i: int| 0 <= i < u.len() && u[i] != t[i],
    ));
}

/// The overlap score is exactly the count of bit positions set in both
/// profiles.
pub proof fn lemma_overlap_counts_shared_positions(u: Seq<bool>, t: Seq<bool>)
    requires
        u.len() == t.len(),
    ensures
        Set::new(|i: int| 0 <= i < u.len() && u[i] && t[i]).finite(),
        popcount(and_bits(u, t)) == Set::new(|i: int| 0 <= i < u.len() && u[i] && t[i]).len(),
{
    lemma_popcount_is_position_count(and_bits(u, t));
    assert(set_positions(and_bits(u, t)) =~= Set::new(
        |i: int| 0 <= i < u.len() && u[i] && t[i],
    ));
}

/// The Hamming distance is symmetric: swapping the two profiles leaves the
/// count of differing positions unchanged.
pub proof fn lemma_distance_symmetric(u: Seq<bool>, t: Seq<bool>)
    requires
        u.len() == t.len(),
    ensures
        popcount(xor_bits(u, t)) == popcount(xor_bits(t, u)),
{
    assert(xor_bits(u, t) =~= xor_bits(t, u));
}

/// A profile is at distance zero from itself.
pub proof fn lemma_distance_identity(u: Seq<bool>)
    ensures
        popcount(xor_bits(u, u)) == 0,
{
    lemma_popcount_zero(xor_bits(u, u));
}

/// A profile is at full distance from its complement.
pub proof fn lemma_distance_complement(u: Seq<bool>)
    ensures
        popcount(xor_bits(u, not_bits(u))) == u.len(),
{
    lemma_popcount_full(xor_bits(u, not_bits(u)));
}

/// The overlap score never exceeds the population count of either operand.
pub proof fn lemma_overlap_bounded(u: Seq<bool>, t: Seq<bool>)
    requires
        u.len() == t.len(),
    ensures
        popcount(and_bits(u, t)) <= popcount(t),
        popcount(and_bits(u, t)) <= popcount(u),
{
    lemma_popcount_pointwise_le(and_bits(u, t), t);
    lemma_popcount_pointwise_le(and_bits(u, t), u);
}

/// Both metrics always lie in the range from zero to the common width.
pub proof fn lemma_metric_range(u: Seq<bool>, t: Seq<bool>)
    requires
        u.len() == t.len(),
    ensures
        popcount(xor_bits(u, t)) <= u.len(),
        popcount(and_bits(u, t)) <= u.len(),
{
    lemma_popcount_le_len(xor_bits(u, t));
    lemma_popcount_le_len(and_bits(u, t));
}

} // verus!
