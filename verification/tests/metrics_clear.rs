use fhe_match::profile::Profile;

#[test]
fn scenario_width_32_metrics() {
    let user = Profile::from_u32(0x0000_00FF);
    let target = Profile::from_u32(0x0000_AAAA);
    // The profiles differ at positions 0, 2, 4, 6 and 9, 11, 13, 15.
    assert_eq!(user.hamming_clear(&target), 8);
    assert_eq!(user.overlap_clear(&target), 4);
}

#[test]
fn scenario_width_128_metrics() {
    let user = Profile::from_u64_pair(0x00FF, 0x00FF);
    let target = Profile::from_u64_pair(0xAAAA, 0xAAAA);
    // Each 64-bit half contributes 8 differing and 4 shared set positions.
    assert_eq!(user.hamming_clear(&target), 16);
    assert_eq!(user.overlap_clear(&target), 8);
}

#[test]
fn distance_is_symmetric() {
    let u = Profile::from_u32(0xDEAD_BEEF);
    let t = Profile::from_u32(0x1234_5678);
    assert_eq!(u.hamming_clear(&t), t.hamming_clear(&u));
}

#[test]
fn distance_to_itself_is_zero() {
    let u = Profile::from_u64_pair(0xDEAD_BEEF, 0xFFFF_0001);
    assert_eq!(u.hamming_clear(&u), 0);
}

#[test]
fn distance_to_the_complement_is_the_width() {
    let u = Profile::from_u32(0xCAFE_F00D);
    assert_eq!(u.hamming_clear(&u.complement()), 32);
}

#[test]
fn metrics_stay_within_the_width() {
    let u = Profile::from_u32(0xFFFF_FFFF);
    let t = Profile::from_u32(0x0F0F_0F0F);
    assert!(u.hamming_clear(&t) <= 32);
    assert!(u.overlap_clear(&t) <= 32);
}

#[test]
fn overlap_never_exceeds_either_popcount() {
    let u = Profile::from_u32(0x00FF_00FF);
    let t = Profile::from_u32(0x0FF0_0FF0);
    let o = u.overlap_clear(&t);
    assert_eq!(o, 8);
    assert!(o <= u.popcount());
    assert!(o <= t.popcount());
}
