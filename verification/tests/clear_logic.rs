use fhe_match::error::MatchError;
use fhe_match::profile::Profile;

#[test]
fn encode_sets_exactly_the_named_categories() {
    let categories: Vec<usize> = vec![0, 3, 5];
    let p = Profile::encode(&categories, 8).unwrap();
    assert_eq!(p.width(), 8);
    assert!(p.bit(0));
    assert!(!p.bit(1));
    assert!(!p.bit(2));
    assert!(p.bit(3));
    assert!(!p.bit(4));
    assert!(p.bit(5));
    assert!(!p.bit(6));
    assert!(!p.bit(7));
    assert_eq!(p.popcount(), 3);
}

#[test]
fn encode_rejects_a_category_without_a_bit_slot() {
    let categories: Vec<usize> = vec![1, 9];
    let r = Profile::encode(&categories, 8);
    assert_eq!(r.unwrap_err(), MatchError::Encoding);
}

#[test]
fn encode_of_no_categories_is_all_clear() {
    let categories: Vec<usize> = Vec::new();
    let p = Profile::encode(&categories, 16).unwrap();
    assert_eq!(p.width(), 16);
    assert_eq!(p.popcount(), 0);
}

#[test]
fn from_u32_reads_bits_least_significant_first() {
    let p = Profile::from_u32(0x0000_00FF);
    assert_eq!(p.width(), 32);
    assert_eq!(p.popcount(), 8);
    for i in 0..8 {
        assert!(p.bit(i));
    }
    for i in 8..32 {
        assert!(!p.bit(i));
    }
}

#[test]
fn complement_flips_every_bit() {
    let p = Profile::from_u32(0x0000_00FF);
    let c = p.complement();
    assert_eq!(c.width(), 32);
    assert_eq!(c.popcount(), 24);
    for i in 0..32 {
        assert_eq!(c.bit(i), !p.bit(i));
    }
}

#[test]
fn from_u64_pair_concatenates_the_halves() {
    let p = Profile::from_u64_pair(0x00FF, 0x00FF);
    assert_eq!(p.width(), 128);
    assert_eq!(p.popcount(), 16);
    assert!(p.bit(0));
    assert!(!p.bit(8));
    assert!(p.bit(64));
    assert!(!p.bit(127));
}

#[test]
fn halves_pack_the_bits_back_into_words() {
    let lo: u128 = 0x0123_4567_89AB_CDEF_0011_2233_4455_6677;
    let hi: u128 = 0xFEDC_BA98_7654_3210_8899_AABB_CCDD_EEFF;
    let p = Profile::from_u128_pair(lo, hi);
    assert_eq!(p.width(), 256);
    let (plo, phi) = p.halves();
    assert_eq!(plo, lo);
    assert_eq!(phi, hi);
}

#[test]
fn halves_of_a_narrow_profile_leave_high_positions_clear() {
    let p = Profile::from_u32(0xAAAA_0001);
    let (lo, hi) = p.halves();
    assert_eq!(lo, 0xAAAA_0001u128);
    assert_eq!(hi, 0);
}

#[test]
fn from_bits_keeps_the_given_order() {
    let bits = vec![true, false, true];
    let p = Profile::from_bits(bits);
    assert_eq!(p.width(), 3);
    assert!(p.bit(0));
    assert!(!p.bit(1));
    assert!(p.bit(2));
}

#[test]
fn errors_describe_themselves() {
    assert_eq!(MatchError::Encoding.describe(), "encoding error");
    assert_eq!(MatchError::WidthMismatch.describe(), "width mismatch error");
    assert_eq!(MatchError::KeyMismatch.describe(), "key mismatch error");
    assert_eq!(MatchError::Decryption.describe(), "decryption error");
    assert_eq!(MatchError::Key.describe(), "key error");
}
