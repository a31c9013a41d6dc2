//! Boundary to the homomorphic arithmetic backend (the tfhe crate).
//!
//! Ciphertexts are opaque; each handle therefore carries, besides the backend
//! value, the width it was formed at, the session tag of the key pair it
//! belongs to, and a ghost record of the plaintext it decrypts to under that
//! key pair. Every constructor in this module establishes the same
//! discipline: the actual 256-bit plaintext holds the ghost bits in its low
//! positions, and every position at or above the width stays clear. The
//! contracts of the trusted items below are stated against that discipline,
//! and against the provisioning discipline of `keygen`: one session tag per
//! generated key pair.

use vstd::prelude::*;

use crate::bits::popcount;
use crate::error::MatchError;
use crate::pack::{bit_of, u256_bit};
use crate::profile::Profile;
use tfhe::prelude::FheDecrypt;
use tfhe::prelude::FheTryEncrypt;

verus! {

/// Holds the backend's client (decryption) key opaquely.
#[verifier::external_body]
pub struct ClientKeyHolder {
    inner: tfhe::ClientKey,
}

/// Holds the backend's server (evaluation) key opaquely.
#[verifier::external_body]
pub struct ServerKeyHolder {
    inner: tfhe::ServerKey,
}

/// Holds the backend's 256-bit ciphertext. The backend's integer type is
/// generic over an id trait that the crate does not export, so the verifier
/// cannot be told about the type itself; this struct carries it opaquely.
#[verifier::external_body]
pub struct Cipher256 {
    inner: tfhe::FheUint256,
}

/// Holds the backend's 32-bit ciphertext, opaquely, for the same reason.
#[verifier::external_body]
pub struct Cipher32 {
    inner: tfhe::FheUint32,
}

#[verifier::external_type_specification]
#[verifier::external_body]
pub struct ExTfheError(tfhe::Error);

/// Private capability of one key pair: reveals plaintexts. It never leaves
/// the profile owner's trust domain.
pub struct DecryptionKey {
    key: ClientKeyHolder,
    pair_id: u64,
    width: usize,
}

/// Public capability of the same key pair: evaluates homomorphic arithmetic
/// over ciphertexts but cannot decrypt anything.
pub struct EvaluationKey {
    key: ServerKeyHolder,
    pair_id: u64,
    width: usize,
}

/// Opaque ciphertext of a user profile, tagged with its width and key pair.
pub struct EncryptedProfile {
    ct: Cipher256,
    width: usize,
    pair_id: u64,
    bits: Ghost<Seq<bool>>,
}

/// Opaque ciphertext of one scalar metric, tagged like the profile it came
/// from.
pub struct MetricResult {
    ct: Cipher32,
    width: usize,
    pair_id: u64,
    value: Ghost<nat>,
}

impl DecryptionKey {
    /// The profile width this key pair was generated for.
    pub closed spec fn spec_width(&self) -> usize {
        self.width
    }

    /// Session tag of the key pair this key belongs to.
    pub closed spec fn spec_pair_id(&self) -> u64 {
        self.pair_id
    }

    /// A key is well formed when its width fits the backend's 256-bit word.
    pub open spec fn wf(&self) -> bool {
        self.spec_width() <= 256
    }

    /// The width this key pair was generated for.
    pub fn width(&self) -> (r: usize)
        ensures
            r == self.spec_width(),
    {
        self.width
    }

    /// The session tag of this key's pair.
    pub fn pair_id(&self) -> (r: u64)
        ensures
            r == self.spec_pair_id(),
    {
        self.pair_id
    }
}

impl EvaluationKey {
    /// The profile width this key pair was generated for.
    pub closed spec fn spec_width(&self) -> usize {
        self.width
    }

    /// Session tag of the key pair this key belongs to.
    pub closed spec fn spec_pair_id(&self) -> u64 {
        self.pair_id
    }

    /// A key is well formed when its width fits the backend's 256-bit word.
    pub open spec fn wf(&self) -> bool {
        self.spec_width() <= 256
    }

    /// The width this key pair was generated for.
    pub fn width(&self) -> (r: usize)
        ensures
            r == self.spec_width(),
    {
        self.width
    }

    /// The session tag of this key's pair.
    pub fn pair_id(&self) -> (r: u64)
        ensures
            r == self.spec_pair_id(),
    {
        self.pair_id
    }
}

impl EncryptedProfile {
    /// The declared bit-width of the encrypted vector.
    pub closed spec fn spec_width(&self) -> usize {
        self.width
    }

    /// Session tag of the key pair the ciphertext was produced under.
    pub closed spec fn spec_pair_id(&self) -> u64 {
        self.pair_id
    }

    /// The plaintext bit vector this ciphertext decrypts to under its pair.
    pub closed spec fn plaintext(&self) -> Seq<bool> {
        self.bits@
    }

    /// The ghost plaintext has exactly the declared width, and the width
    /// fits the backend's 256-bit word.
    pub open spec fn wf(&self) -> bool {
        self.plaintext().len() == self.spec_width() && self.spec_width() <= 256
    }

    /// The declared bit-width of the encrypted vector.
    pub fn width(&self) -> (r: usize)
        ensures
            r == self.spec_width(),
    {
        self.width
    }

    /// The session tag of the key pair this ciphertext belongs to.
    pub fn pair_id(&self) -> (r: u64)
        ensures
            r == self.spec_pair_id(),
    {
        self.pair_id
    }
}

impl MetricResult {
    /// The width of the profiles the metric was computed over.
    pub closed spec fn spec_width(&self) -> usize {
        self.width
    }

    /// Session tag of the key pair the ciphertext was produced under.
    pub closed spec fn spec_pair_id(&self) -> u64 {
        self.pair_id
    }

    /// The scalar this ciphertext decrypts to under its pair.
    pub closed spec fn spec_value(&self) -> nat {
        self.value@
    }

    /// The scalar is bounded by the width, which fits the backend word.
    pub open spec fn wf(&self) -> bool {
        self.spec_value() <= self.spec_width() && self.spec_width() <= 256
    }

    /// The width of the profiles the metric was computed over.
    pub fn width(&self) -> (r: usize)
        ensures
            r == self.spec_width(),
    {
        self.width
    }

    /// The session tag of the key pair this ciphertext belongs to.
    pub fn pair_id(&self) -> (r: u64)
        ensures
            r == self.spec_pair_id(),
    {
        self.pair_id
    }
}

/// Relies on tfhe::generate_keys with tfhe's default configuration: it
/// returns a client key and the matching server key of one fresh key pair.
/// The given width and session tag are recorded on both halves.
#[verifier::external_body]
fn generate_backend_keys(width: usize, pair_id: u64) -> (r: (DecryptionKey, EvaluationKey))
    ensures
        r.0.width == width && r.0.pair_id == pair_id,
        r.1.width == width && r.1.pair_id == pair_id,
{
    let config = tfhe::ConfigBuilder::default().build();
    let (client_key, server_key) = tfhe::generate_keys(config);
    (
        DecryptionKey { key: ClientKeyHolder { inner: client_key }, pair_id, width },
        EvaluationKey { key: ServerKeyHolder { inner: server_key }, pair_id, width },
    )
}

/// Relies on tfhe::FheUint256::try_encrypt under the client key: for an
/// unsigned integer under a client key its body ends in an unconditional
/// `Ok`, so the call always succeeds, and the ciphertext decrypts, under the
/// same key pair, to the 256-bit value whose halves are `lo` and `hi`. The
/// caller keeps every position at or above the key's width clear, so the
/// ghost plaintext is the low `width` bits.
#[verifier::external_body]
fn encrypt_words(lo: u128, hi: u128, key: &DecryptionKey) -> (r: Result<
    EncryptedProfile,
    tfhe::Error,
>)
    requires
        key.wf(),
        forall|i: u128| i < 128 && key.width <= i ==> !bit_of(lo, i),
        forall|i: u128| i < 128 && key.width <= 128 + i ==> !bit_of(hi, i),
    ensures
        r is Ok,
        r matches Ok(ep) ==> ep.width == key.width && ep.pair_id == key.pair_id && ep.bits@
            == Seq::new(key.width as nat, |i: int| u256_bit(lo, hi, i)),
{
    let value = tfhe::integer::U256::from((lo, hi));
    match tfhe::FheUint256::try_encrypt(value, &key.key.inner) {
        Ok(ct) => Ok(
            EncryptedProfile {
                ct: Cipher256 { inner: ct },
                width: key.width,
                pair_id: key.pair_id,
                bits: Ghost(Seq::new(key.width as nat, |i: int| u256_bit(lo, hi, i))),
            },
        ),
        Err(e) => Err(e),
    }
}

/// Relies on tfhe's `^` between an FheUint256 and a clear U256 scalar
/// (scalar_bitxor_parallelized), after installing the matching evaluation
/// key with tfhe::set_server_key: the result decrypts, under the same key
/// pair, to the bitwise XOR of the operand's plaintext with the scalar. The
/// caller keeps scalar positions at or above the width clear, so the clear
/// high positions of the plaintext stay clear.
#[verifier::external_body]
pub(crate) fn fhe_xor_scalar(e: &EncryptedProfile, lo: u128, hi: u128, ek: &EvaluationKey) -> (r:
    EncryptedProfile)
    requires
        e.wf(),
        ek.spec_pair_id() == e.spec_pair_id(),
        forall|i: u128| i < 128 && e.spec_width() <= i ==> !bit_of(lo, i),
        forall|i: u128| i < 128 && e.spec_width() <= 128 + i ==> !bit_of(hi, i),
    ensures
        r.spec_width() == e.spec_width(),
        r.spec_pair_id() == e.spec_pair_id(),
        r.plaintext() == Seq::new(
            e.plaintext().len(),
            |i: int| e.plaintext()[i] != u256_bit(lo, hi, i),
        ),
{
    tfhe::set_server_key(ek.key.inner.clone());
    let ct = &e.ct.inner ^ tfhe::integer::U256::from((lo, hi));
    EncryptedProfile {
        ct: Cipher256 { inner: ct },
        width: e.width,
        pair_id: e.pair_id,
        bits: Ghost(Seq::new(e.bits@.len(), |i: int| e.bits@[i] != u256_bit(lo, hi, i))),
    }
}

/// Relies on tfhe's `&` between an FheUint256 and a clear U256 scalar
/// (scalar_bitand_parallelized), after installing the matching evaluation
/// key with tfhe::set_server_key: the result decrypts, under the same key
/// pair, to the bitwise AND of the operand's plaintext with the scalar.
/// Clear positions stay clear under AND.
#[verifier::external_body]
pub(crate) fn fhe_and_scalar(e: &EncryptedProfile, lo: u128, hi: u128, ek: &EvaluationKey) -> (r:
    EncryptedProfile)
    requires
        e.wf(),
        ek.spec_pair_id() == e.spec_pair_id(),
    ensures
        r.spec_width() == e.spec_width(),
        r.spec_pair_id() == e.spec_pair_id(),
        r.plaintext() == Seq::new(
            e.plaintext().len(),
            |i: int| e.plaintext()[i] && u256_bit(lo, hi, i),
        ),
{
    tfhe::set_server_key(ek.key.inner.clone());
    let ct = &e.ct.inner & tfhe::integer::U256::from((lo, hi));
    EncryptedProfile {
        ct: Cipher256 { inner: ct },
        width: e.width,
        pair_id: e.pair_id,
        bits: Ghost(Seq::new(e.bits@.len(), |i: int| e.bits@[i] && u256_bit(lo, hi, i))),
    }
}

/// Relies on tfhe::FheUint256::count_ones, after installing the matching
/// evaluation key with tfhe::set_server_key: a fixed-cost circuit over all
/// 256 bit positions whose result decrypts,
/// under the same key pair, to the number of set plaintext bits. Positions
/// at or above the width are clear by the module's discipline, so the count
/// is the population count of the ghost bits.
#[verifier::external_body]
pub(crate) fn fhe_count_ones(e: &EncryptedProfile, ek: &EvaluationKey) -> (r: MetricResult)
    requires
        e.wf(),
        ek.spec_pair_id() == e.spec_pair_id(),
    ensures
        r.spec_width() == e.spec_width(),
        r.spec_pair_id() == e.spec_pair_id(),
        r.spec_value() == popcount(e.plaintext()),
{
    tfhe::set_server_key(ek.key.inner.clone());
    let ct = e.ct.inner.count_ones();
    MetricResult { ct: Cipher32 { inner: ct }, width: e.width, pair_id: e.pair_id, value: Ghost(popcount(e.bits@)) }
}

/// Relies on tfhe's FheDecrypt for FheUint32 under the matching client key:
/// it returns the scalar plaintext, which the module's discipline bounds by
/// the width, so it fits 32 bits without truncation.
#[verifier::external_body]
pub(crate) fn fhe_decrypt_metric(m: &MetricResult, key: &DecryptionKey) -> (r: u32)
    requires
        m.wf(),
        key.spec_pair_id() == m.spec_pair_id(),
    ensures
        r as nat == m.spec_value(),
{
    let v: u32 = m.ct.inner.decrypt(&key.key.inner);
    v
}

/// Relies on tfhe's FheDecrypt for FheUint256 under the matching client key,
/// and on U256::to_low_high_u128: the two returned halves hold the plaintext
/// bits, clear at and above the width by the module's discipline.
#[verifier::external_body]
pub(crate) fn fhe_decrypt_words(e: &EncryptedProfile, key: &DecryptionKey) -> (r: (u128, u128))
    requires
        e.wf(),
        key.spec_pair_id() == e.spec_pair_id(),
    ensures
        forall|i: u128| i < 128 ==> #[trigger] bit_of(r.0, i) == (i < e.plaintext().len()
            && e.plaintext()[i as int]),
        forall|i: u128| i < 128 ==> #[trigger] bit_of(r.1, i) == (128 + i < e.plaintext().len()
            && e.plaintext()[128 + i]),
{
    let v: tfhe::integer::U256 = e.ct.inner.decrypt(&key.key.inner);
    v.to_low_high_u128()
}

/// Generate one fresh key pair for the given profile width, tagged with the
/// caller's session identifier. The width must fit the backend's 256-bit
/// word; a wider request is malformed key material.
///
/// Key provenance is the calling protocol's duty, enforced out of band: the
/// contracts of this module identify a key pair by its tag, so the caller
/// gives every generated pair a tag of its own and never reuses one across
/// pairs.
pub fn keygen(width: usize, pair_id: u64) -> (r: Result<(DecryptionKey, EvaluationKey), MatchError>)
    ensures
        width <= 256 <==> r is Ok,
        r matches Ok(pair) ==> pair.0.wf() && pair.0.spec_width() == width && pair.0.spec_pair_id()
            == pair_id && pair.1.wf() && pair.1.spec_width() == width && pair.1.spec_pair_id()
            == pair_id,
        r matches Err(e) ==> e == MatchError::Key,
{
    if width > 256 {
        return Err(MatchError::Key);
    }
    Ok(generate_backend_keys(width, pair_id))
}

/// Encrypt a user profile under the private half of a key pair. Succeeds
/// exactly when the profile's width is the width the key pair was generated
/// for, and fails with a key error otherwise.
pub fn encrypt(profile: &Profile, key: &DecryptionKey) -> (r: Result<EncryptedProfile, MatchError>)
    requires
        key.wf(),
    ensures
        profile@.len() == key.spec_width() <==> r is Ok,
        profile@.len() != key.spec_width() ==> r == Err::<EncryptedProfile, MatchError>(
            MatchError::Key,
        ),
        r matches Ok(ep) ==> ep.wf() && ep.plaintext() == profile@ && ep.spec_width()
            == key.spec_width() && ep.spec_pair_id() == key.spec_pair_id(),
        r matches Err(e) ==> e == MatchError::Key,
{
    if profile.width() != key.width {
        return Err(MatchError::Key);
    }
    let (lo, hi) = profile.halves();
    match encrypt_words(lo, hi, key) {
        Ok(ep) => {
            proof {
                assert(ep.bits@ =~= profile@);
            }
            Ok(ep)
        },
        Err(_) => Err(MatchError::Key),
    }
}

} // verus!
