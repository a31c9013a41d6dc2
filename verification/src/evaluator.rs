//! The matching evaluator: holds only the evaluation key, an encrypted user
//! profile and the advertiser's cleartext target, and computes the two
//! similarity metrics homomorphically. It never sees the user's plaintext,
//! and the circuits it calls touch every bit position unconditionally.

use vstd::prelude::*;

use crate::backend::{fhe_and_scalar, fhe_count_ones, fhe_xor_scalar};
use crate::backend::{EncryptedProfile, EvaluationKey, MetricResult};
use crate::bits::{and_bits, lemma_popcount_le_len, popcount, xor_bits};
use crate::error::MatchError;
use crate::profile::Profile;

verus! {

/// Hamming distance between the encrypted user profile and the cleartext
/// target: the number of bit positions where the two differ, still under
/// encryption. Zero means identical profiles, the full width means fully
/// complementary ones. Fails with a width mismatch when the operands do not
/// share one width, and with a key mismatch when the evaluation key's
/// session tag is not the ciphertext's.
pub fn distance(e: &EncryptedProfile, target: &Profile, ek: &EvaluationKey) -> (r: Result<
    MetricResult,
    MatchError,
>)
    requires
        e.wf(),
    ensures
        e.spec_width() != target@.len() ==> r == Err::<MetricResult, MatchError>(
            MatchError::WidthMismatch,
        ),
        e.spec_width() == target@.len() && e.spec_pair_id() != ek.spec_pair_id() ==> r == Err::<
            MetricResult,
            MatchError,
        >(MatchError::KeyMismatch),
        e.spec_width() == target@.len() && e.spec_pair_id() == ek.spec_pair_id() ==> r is Ok,
        r matches Ok(m) ==> m.wf() && m.spec_width() == e.spec_width() && m.spec_pair_id()
            == e.spec_pair_id() && m.spec_value() == popcount(xor_bits(e.plaintext(), target@)),
{
    if target.width() != e.width() {
        return Err(MatchError::WidthMismatch);
    }
    if ek.pair_id() != e.pair_id() {
        return Err(MatchError::KeyMismatch);
    }
    let (lo, hi) = target.halves();
    let diff = fhe_xor_scalar(e, lo, hi, ek);
    proof {
        assert(diff.plaintext() =~= xor_bits(e.plaintext(), target@));
    }
    let m = fhe_count_ones(&diff, ek);
    proof {
        lemma_popcount_le_len(diff.plaintext());
    }
    Ok(m)
}

/// Overlap score between the encrypted user profile and the cleartext
/// target: the number of bit positions set in both, still under encryption.
/// It equals the target's population count exactly when the user's set bits
/// cover all of the target's. The width and key checks are those of the
/// distance metric.
pub fn overlap(e: &EncryptedProfile, target: &Profile, ek: &EvaluationKey) -> (r: Result<
    MetricResult,
    MatchError,
>)
    requires
        e.wf(),
    ensures
        e.spec_width() != target@.len() ==> r == Err::<MetricResult, MatchError>(
            MatchError::WidthMismatch,
        ),
        e.spec_width() == target@.len() && e.spec_pair_id() != ek.spec_pair_id() ==> r == Err::<
            MetricResult,
            MatchError,
        >(MatchError::KeyMismatch),
        e.spec_width() == target@.len() && e.spec_pair_id() == ek.spec_pair_id() ==> r is Ok,
        r matches Ok(m) ==> m.wf() && m.spec_width() == e.spec_width() && m.spec_pair_id()
            == e.spec_pair_id() && m.spec_value() == popcount(and_bits(e.plaintext(), target@)),
{
    if target.width() != e.width() {
        return Err(MatchError::WidthMismatch);
    }
    if ek.pair_id() != e.pair_id() {
        return Err(MatchError::KeyMismatch);
    }
    let (lo, hi) = target.halves();
    let both = fhe_and_scalar(e, lo, hi, ek);
    proof {
        assert(both.plaintext() =~= and_bits(e.plaintext(), target@));
    }
    let m = fhe_count_ones(&both, ek);
    proof {
        lemma_popcount_le_len(both.plaintext());
    }
    Ok(m)
}

/// The distance metric with its wall-clock cost in nanoseconds. The timing
/// is pure observability: the result is exactly what the untimed metric
/// returns, with the same error behavior.
pub fn timed_distance(e: &EncryptedProfile, target: &Profile, ek: &EvaluationKey) -> (r: (Result<
    MetricResult,
    MatchError,
>, u128))
    requires
        e.wf(),
    ensures
        e.spec_width() != target@.len() ==> r.0 == Err::<MetricResult, MatchError>(
            MatchError::WidthMismatch,
        ),
        e.spec_width() == target@.len() && e.spec_pair_id() != ek.spec_pair_id() ==> r.0 == Err::<
            MetricResult,
            MatchError,
        >(MatchError::KeyMismatch),
        e.spec_width() == target@.len() && e.spec_pair_id() == ek.spec_pair_id() ==> r.0 is Ok,
        r.0 matches Ok(m) ==> m.wf() && m.spec_width() == e.spec_width() && m.spec_pair_id()
            == e.spec_pair_id() && m.spec_value() == popcount(xor_bits(e.plaintext(), target@)),
{
    let start = crate::timing::instant_now();
    let out = distance(e, target, ek);
    let nanos = crate::timing::duration_nanos(&crate::timing::instant_elapsed(&start));
    (out, nanos)
}

/// The overlap metric with its wall-clock cost in nanoseconds; pure
/// observability around the untimed metric.
pub fn timed_overlap(e: &EncryptedProfile, target: &Profile, ek: &EvaluationKey) -> (r: (Result<
    MetricResult,
    MatchError,
>, u128))
    requires
        e.wf(),
    ensures
        e.spec_width() != target@.len() ==> r.0 == Err::<MetricResult, MatchError>(
            MatchError::WidthMismatch,
        ),
        e.spec_width() == target@.len() && e.spec_pair_id() != ek.spec_pair_id() ==> r.0 == Err::<
            MetricResult,
            MatchError,
        >(MatchError::KeyMismatch),
        e.spec_width() == target@.len() && e.spec_pair_id() == ek.spec_pair_id() ==> r.0 is Ok,
        r.0 matches Ok(m) ==> m.wf() && m.spec_width() == e.spec_width() && m.spec_pair_id()
            == e.spec_pair_id() && m.spec_value() == popcount(and_bits(e.plaintext(), target@)),
{
    let start = crate::timing::instant_now();
    let out = overlap(e, target, ek);
    let nanos = crate::timing::duration_nanos(&crate::timing::instant_elapsed(&start));
    (out, nanos)
}

} // verus!
