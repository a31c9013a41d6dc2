use fhe_match::backend::{encrypt, keygen};
use fhe_match::decryptor::decrypt_profile;
use fhe_match::error::MatchError;
use fhe_match::evaluator::{distance, overlap};
use fhe_match::profile::Profile;

#[test]
fn keygen_rejects_a_width_beyond_the_backend_word() {
    let r = keygen(257, 1);
    assert_eq!(r.err().unwrap(), MatchError::Key);
}

#[test]
fn session_checks_run_before_any_homomorphic_work() {
    // One key pair serves all the cheap rejection paths: every check below
    // fails before the evaluator or decryptor touches the backend.
    let (dk, ek) = keygen(32, 1).unwrap();

    // Encrypting a profile of the wrong width is a key error.
    let wide = Profile::from_u64_pair(0x00FF, 0x00FF);
    assert_eq!(encrypt(&wide, &dk).err().unwrap(), MatchError::Key);

    let user = Profile::from_u32(0x0000_00FF);
    let ep = encrypt(&user, &dk).unwrap();

    // A target of another width is a width mismatch, never a silent pad.
    assert_eq!(distance(&ep, &wide, &ek).err().unwrap(), MatchError::WidthMismatch);
    assert_eq!(overlap(&ep, &wide, &ek).err().unwrap(), MatchError::WidthMismatch);

    // Decryption round trip inside the owning trust domain.
    let back = decrypt_profile(&ep, &dk).unwrap();
    assert_eq!(back.width(), user.width());
    for i in 0..32 {
        assert_eq!(back.bit(i), user.bit(i));
    }
}

