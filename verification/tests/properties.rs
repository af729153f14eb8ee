//! Behavioural tests: determinism, arity sensitivity, the error taxonomy,
//! encoding validation, and an avalanche smoke check.

use poseidon_bn254::hash;
use poseidon_bn254::PoseidonError;
use poseidon_bn254::field::{Uint256, uint256};
use poseidon_bn254::table::table_for_width;

fn u(l0: u64, l1: u64, l2: u64, l3: u64) -> Uint256 {
    uint256(l0, l1, l2, l3)
}

fn n(x: u64) -> Uint256 {
    uint256(x, 0, 0, 0)
}

// The modulus, as limbs.
fn modulus() -> Uint256 {
    u(0x43e1f593f0000001, 0x2833e84879b97091, 0xb85045b68181585d, 0x30644e72e131a029)
}

#[test]
fn repeated_calls_agree() {
    let inputs = [n(7), n(11), n(13)];
    let first = hash(&inputs).unwrap();
    let second = hash(&inputs).unwrap();
    assert_eq!(first, second);
    let third = hash(&[n(7), n(11), n(13)]).unwrap();
    assert_eq!(first, third);
}

#[test]
fn different_arity_gives_different_digest() {
    for x in [0u64, 1, 31213, 0xffff_ffff] {
        let one = hash(&[n(x)]).unwrap();
        let two = hash(&[n(x), n(0)]).unwrap();
        assert_ne!(one, two);
    }
}

#[test]
fn empty_input_is_rejected() {
    assert_eq!(hash(&[]), Err(PoseidonError::EmptyInput));
}

#[test]
fn too_many_inputs_are_rejected() {
    let v = vec![n(0); 17];
    assert_eq!(hash(&v), Err(PoseidonError::UnsupportedArity));
    let w = vec![n(1); 40];
    assert_eq!(hash(&w), Err(PoseidonError::UnsupportedArity));
}

#[test]
fn sixteen_inputs_are_accepted() {
    let v = vec![n(0); 16];
    assert!(hash(&v).is_ok());
}

#[test]
fn value_at_modulus_is_rejected() {
    assert_eq!(hash(&[modulus()]), Err(PoseidonError::InvalidFieldEncoding));
    // Also when it is not the first input.
    assert_eq!(hash(&[n(1), modulus()]), Err(PoseidonError::InvalidFieldEncoding));
}

#[test]
fn value_above_modulus_is_rejected() {
    let above = u(0x43e1f593f0000002, 0x2833e84879b97091, 0xb85045b68181585d, 0x30644e72e131a029);
    assert_eq!(hash(&[above]), Err(PoseidonError::InvalidFieldEncoding));
    let max = u(u64::MAX, u64::MAX, u64::MAX, u64::MAX);
    assert_eq!(hash(&[max, n(0)]), Err(PoseidonError::InvalidFieldEncoding));
}

#[test]
fn value_just_below_modulus_is_accepted() {
    let below = u(0x43e1f593f0000000, 0x2833e84879b97091, 0xb85045b68181585d, 0x30644e72e131a029);
    assert!(hash(&[below]).is_ok());
}

#[test]
fn single_bit_flips_change_the_digest() {
    let base = hash(&[n(1), n(2)]).unwrap();
    for bit in [0u32, 1, 5, 17, 63, 64, 100, 127, 128, 190, 191, 192, 230, 253] {
        let mut l = [1u64, 0, 0, 0];
        l[(bit / 64) as usize] ^= 1u64 << (bit % 64);
        let flipped = hash(&[u(l[0], l[1], l[2], l[3]), n(2)]).unwrap();
        assert_ne!(base, flipped, "flipping bit {bit} left the digest unchanged");
        let mut r = [2u64, 0, 0, 0];
        r[(bit / 64) as usize] ^= 1u64 << (bit % 64);
        let flipped_second = hash(&[n(1), u(r[0], r[1], r[2], r[3])]).unwrap();
        assert_ne!(base, flipped_second, "flipping bit {bit} of the second input left the digest unchanged");
    }
}

#[test]
fn tables_exist_exactly_for_supported_widths() {
    assert!(table_for_width(0).is_none());
    assert!(table_for_width(1).is_none());
    assert!(table_for_width(18).is_none());
    for t in 2..=17usize {
        let tab = table_for_width(t).unwrap();
        assert_eq!(tab.t, t);
        assert_eq!(tab.m.len(), t * t);
        assert_eq!(tab.p.len(), t * t);
        assert_eq!(tab.c.len(), 8 * t + tab.n_p);
        assert_eq!(tab.s.len(), (2 * t - 1) * tab.n_p);
    }
}

#[test]
fn digest_is_canonical() {
    // The digest re-encodes as a value strictly below the modulus.
    let d = hash(&[n(123456789)]).unwrap();
    let m = modulus();
    let lt = (d.l3, d.l2, d.l1, d.l0) < (m.l3, m.l2, m.l1, m.l0);
    assert!(lt);
}
