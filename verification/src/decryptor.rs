//! The result decryptor: the only point where encrypted values become
//! visible in cleartext. It runs exclusively inside the profile owner's
//! trust domain, and it rejects, explicitly and consistently, any ciphertext
//! whose session tag or width does not fit the decryption key.

use vstd::prelude::*;

use crate::backend::{fhe_decrypt_metric, fhe_decrypt_words};
use crate::backend::{DecryptionKey, EncryptedProfile, MetricResult};
use crate::error::MatchError;
use crate::profile::Profile;

verus! {

/// Reveal a metric ciphertext. Fails with a decryption error when the
/// ciphertext's key-pair tag is not the key's, or when its width is not the
/// width the key pair was generated for; it never returns a garbage
/// plaintext. On success the integer is the metric's value, bounded by the
/// width.
pub fn decrypt(m: &MetricResult, key: &DecryptionKey) -> (r: Result<u32, MatchError>)
    requires
        m.wf(),
    ensures
        m.spec_pair_id() != key.spec_pair_id() || m.spec_width() != key.spec_width() ==> r
            == Err::<u32, MatchError>(MatchError::Decryption),
        m.spec_pair_id() == key.spec_pair_id() && m.spec_width() == key.spec_width() ==> r is Ok,
        r matches Ok(v) ==> v as nat == m.spec_value() && v as nat <= m.spec_width(),
{
    if m.pair_id() != key.pair_id() || m.width() != key.width() {
        return Err(MatchError::Decryption);
    }
    Ok(fhe_decrypt_metric(m, key))
}

/// Reveal an encrypted profile, inside the owning trust domain only. The
/// same tag and width checks as for a metric apply; on success the profile
/// is exactly the bit vector that was encrypted.
pub fn decrypt_profile(e: &EncryptedProfile, key: &DecryptionKey) -> (r: Result<
    Profile,
    MatchError,
>)
    requires
        e.wf(),
    ensures
        e.spec_pair_id() != key.spec_pair_id() || e.spec_width() != key.spec_width() ==> r
            == Err::<Profile, MatchError>(MatchError::Decryption),
        e.spec_pair_id() == key.spec_pair_id() && e.spec_width() == key.spec_width() ==> r is Ok,
        r matches Ok(p) ==> p@ == e.plaintext(),
{
    if e.pair_id() != key.pair_id() || e.width() != key.width() {
        return Err(MatchError::Decryption);
    }
    let (lo, hi) = fhe_decrypt_words(e, key);
    let w = e.width();
    let low_count = if w < 128 {
        w
    } else {
        128
    };
    let mut bits = crate::pack::unpack_half(lo, low_count);
    let high_count = if w > 128 {
        w - 128
    } else {
        0
    };
    let high = crate::pack::unpack_half(hi, high_count);
    let mut j: usize = 0;
    while j < high_count
        invariant
            j <= high_count,
            high@.len() == high_count,
            bits@.len() == low_count + j,
            low_count == if e.spec_width() < 128 {
                e.spec_width() as int
            } else {
                128
            },
            high_count == if e.spec_width() > 128 {
                e.spec_width() - 128
            } else {
                0
            },
            forall|i: int| 0 <= i < low_count ==> bits@[i] == crate::pack::bit_of(lo, i as u128),
            forall|i: int| low_count <= i < low_count + j ==> bits@[i] == high@[i - low_count],
        decreases high_count - j,
    {
        bits.push(high[j]);
        j = j + 1;
    }
    let p = Profile::from_bits(bits);
    proof {
        assert(p@ =~= e.plaintext());
    }
    Ok(p)
}

} // verus!
