use crain_pow::difficulty::add_work;
use crain_pow::is_valid_hash;

fn from_u128(v: u128) -> [u8; 32] {
    let mut out = [0u8; 32];
    out[16..].copy_from_slice(&v.to_be_bytes());
    out
}

fn pow2(bit: usize) -> [u8; 32] {
    let mut out = [0u8; 32];
    out[31 - bit / 8] = 1u8 << (bit % 8);
    out
}

#[test]
fn unit_difficulty_accepts_every_hash() {
    let one = from_u128(1);
    assert!(is_valid_hash(&[0xff; 32], &one));
    assert!(is_valid_hash(&[0u8; 32], &one));
    assert!(is_valid_hash(&[0x5a; 32], &one));
}

#[test]
fn max_difficulty_accepts_only_zero_and_one() {
    let max = [0xff; 32];
    assert!(is_valid_hash(&from_u128(0), &max));
    assert!(is_valid_hash(&from_u128(1), &max));
    assert!(!is_valid_hash(&from_u128(2), &max));
    assert!(!is_valid_hash(&[0xff; 32], &max));
}

#[test]
fn product_at_the_word_limit_is_refused() {
    // 2^128 * 2^128 = 2^256 does not fit; (2^128 - 1) * 2^128 does.
    assert!(!is_valid_hash(&pow2(128), &pow2(128)));
    assert!(is_valid_hash(&from_u128(u128::MAX), &pow2(128)));
    assert!(is_valid_hash(&pow2(254), &from_u128(3)));
    assert!(!is_valid_hash(&pow2(254), &from_u128(4)));
}

#[test]
fn work_adds_up_and_overflows() {
    assert_eq!(add_work(&from_u128(40), &from_u128(2)), Some(from_u128(42)));
    assert_eq!(add_work(&from_u128(u128::MAX), &from_u128(1)), Some(pow2(128)));
    assert_eq!(add_work(&[0xff; 32], &from_u128(1)), None);
}
