//! Properties of the library as a whole, checked on concrete values.

use starknet_crypto::{get_public_key, pedersen_hash, poseidon_hash_single, rfc6979_generate_k, verify, Felt, VerifyError};
use starknet_crypto_ffi::{
    starknet_crypto_public_key, starknet_crypto_rfc6979_nonce, starknet_crypto_sign,
    starknet_crypto_verify, starknet_crypto_verify_checked, verify_may_reach_infinity_test,
};
use starknet_crypto_ffi::starknet_crypto_pedersen_hash;
use starknet_crypto_ffi::{
    starknet_crypto_poseidon_hash, starknet_crypto_poseidon_hash_2,
    starknet_crypto_poseidon_hash_many, starknet_crypto_poseidon_hash_single,
};

use starknet_types_core::curve::AffinePoint;
use starknet_types_core::felt::NonZeroFelt;

const FELT_LEN: usize = 32;

/// The Stark prime, little-endian.
fn prime_le() -> [u8; FELT_LEN] {
    let mut p = [0u8; FELT_LEN];
    p[0] = 1;
    p[24] = 0x11;
    p[31] = 0x08;
    p
}

/// `v + P` for a small `v`, a non-canonical encoding of `v`.
fn shifted_by_prime(v: u8) -> [u8; FELT_LEN] {
    let mut p = prime_le();
    p[0] += v;
    p
}

fn le(v: u64) -> [u8; FELT_LEN] {
    Felt::from(v).to_bytes_le()
}

/// 2^251, little-endian.
fn upper_bound_le() -> [u8; FELT_LEN] {
    let mut b = [0u8; FELT_LEN];
    b[31] = 0x08;
    b
}

#[test]
fn non_canonical_inputs_read_as_field_elements() {
    let mut out1 = [0u8; FELT_LEN];
    let mut out2 = [0u8; FELT_LEN];
    assert_eq!(starknet_crypto_pedersen_hash(Some(&le(5)), Some(&le(7)), Some(&mut out1)), 0);
    assert_eq!(starknet_crypto_pedersen_hash(Some(&shifted_by_prime(5)), Some(&le(7)), Some(&mut out2)), 0);
    assert_eq!(out1, out2);
    assert_eq!(out1, pedersen_hash(&Felt::from(5u64), &Felt::from(7u64)).to_bytes_le());

    let mut k1 = [0u8; FELT_LEN];
    let mut k2 = [0u8; FELT_LEN];
    assert_eq!(starknet_crypto_public_key(Some(&le(1)), Some(&mut k1)), 0);
    assert_eq!(starknet_crypto_public_key(Some(&shifted_by_prime(1)), Some(&mut k2)), 0);
    assert_eq!(k1, k2);
}

#[test]
fn outputs_are_canonical_encodings() {
    let mut out = [0u8; FELT_LEN];
    assert_eq!(starknet_crypto_poseidon_hash_single(Some(&le(9)), Some(&mut out)), 0);
    assert_eq!(out, poseidon_hash_single(Felt::from(9u64)).to_bytes_le());
    assert_ne!(out, le(9));
    assert_eq!(Felt::from_bytes_le(&out).to_bytes_le(), out);
    assert!(out[31] <= 0x08);
}

#[test]
fn poseidon_hash_2_is_hash_many_of_the_pair() {
    let a = le(11);
    let b = le(22);
    let mut out2 = [0u8; FELT_LEN];
    let mut out_many = [0u8; FELT_LEN];
    assert_eq!(starknet_crypto_poseidon_hash_2(Some(&a), Some(&b), Some(&mut out2)), 0);
    let mut both = a.to_vec();
    both.extend_from_slice(&b);
    assert_eq!(starknet_crypto_poseidon_hash_many(Some(&both[..]), 2, Some(&mut out_many)), 0);
    assert_eq!(out2, out_many);
    let mut out_direct = [0u8; FELT_LEN];
    assert_eq!(starknet_crypto_poseidon_hash(Some(&a), Some(&b), Some(&mut out_direct)), 0);
    assert_ne!(out2, out_direct);
}

#[test]
fn poseidon_hash_many_reads_only_count_elements() {
    let mut bytes = le(1).to_vec();
    bytes.extend_from_slice(&le(2));
    bytes.extend_from_slice(&le(3));
    let mut two = [0u8; FELT_LEN];
    let mut two_of_three = [0u8; FELT_LEN];
    assert_eq!(starknet_crypto_poseidon_hash_many(Some(&bytes[..64]), 2, Some(&mut two)), 0);
    assert_eq!(starknet_crypto_poseidon_hash_many(Some(&bytes[..]), 2, Some(&mut two_of_three)), 0);
    assert_eq!(two, two_of_three);

    let mut empty_none = [0u8; FELT_LEN];
    let mut empty_some = [0u8; FELT_LEN];
    assert_eq!(starknet_crypto_poseidon_hash_many(None, 0, Some(&mut empty_none)), 0);
    assert_eq!(starknet_crypto_poseidon_hash_many(Some(&bytes[..]), 0, Some(&mut empty_some)), 0);
    assert_eq!(empty_none, empty_some);
}

#[test]
fn refused_requests_leave_outputs_untouched() {
    let mut out = [7u8; FELT_LEN];
    assert_eq!(starknet_crypto_pedersen_hash(None, Some(&le(1)), Some(&mut out)), -1);
    assert_eq!(out, [7u8; FELT_LEN]);
    assert_eq!(starknet_crypto_poseidon_hash_many(None, 1, Some(&mut out)), -1);
    assert_eq!(out, [7u8; FELT_LEN]);
    assert_eq!(starknet_crypto_poseidon_hash_many(Some(&[0u8; 32][..]), 1, None), -1);
    let seed = [1u8; 8];
    assert_eq!(
        starknet_crypto_rfc6979_nonce(Some(&le(1)), Some(&le(2)), Some(&seed[..]), 8, Some(&mut out)),
        -2
    );
    assert_eq!(out, [7u8; FELT_LEN]);
}

#[test]
fn sign_rejects_large_message_hash() {
    let mut r_out = [3u8; FELT_LEN];
    let mut s_out = [4u8; FELT_LEN];
    let code = starknet_crypto_sign(
        Some(&le(0x1234)),
        Some(&upper_bound_le()),
        Some(&le(5)),
        Some(&mut r_out),
        Some(&mut s_out),
    );
    assert_eq!(code, 1);
    assert_eq!(r_out, [3u8; FELT_LEN]);
    assert_eq!(s_out, [4u8; FELT_LEN]);
}

#[test]
fn verify_reports_failures_as_two() {
    let pub_key = get_public_key(&Felt::from(0x1234u64)).to_bytes_le();
    let msg = le(0xabcd);
    assert_eq!(starknet_crypto_verify(Some(&pub_key), Some(&upper_bound_le()), Some(&le(1)), Some(&le(2))), 2);
    assert_eq!(starknet_crypto_verify(Some(&pub_key), Some(&msg), Some(&le(0)), Some(&le(2))), 2);
    assert_eq!(starknet_crypto_verify(Some(&pub_key), Some(&msg), Some(&le(1)), Some(&upper_bound_le())), 2);
    assert_eq!(starknet_crypto_verify(None, Some(&msg), Some(&le(1)), Some(&le(2))), -1);

    let mut x = 0u64;
    while !matches!(
        verify(&Felt::from(x), &Felt::from(0xabcdu64), &Felt::ONE, &Felt::TWO),
        Err(VerifyError::InvalidPublicKey)
    ) {
        x += 1;
    }
    assert_eq!(starknet_crypto_verify(Some(&le(x)), Some(&msg), Some(&le(1)), Some(&le(2))), 2);
}

#[test]
fn nonce_signs_and_signature_clears_verify_checks() {
    let priv_key = le(0x77);
    let hash = le(0x5555);
    let mut k = [0u8; FELT_LEN];
    assert_eq!(starknet_crypto_rfc6979_nonce(Some(&hash), Some(&priv_key), None, 0, Some(&mut k)), 0);
    assert_ne!(k, [0u8; FELT_LEN]);
    let mut r = [0u8; FELT_LEN];
    let mut s = [0u8; FELT_LEN];
    assert_eq!(starknet_crypto_sign(Some(&priv_key), Some(&hash), Some(&k), Some(&mut r), Some(&mut s)), 0);

    let mut pub_key = [0u8; FELT_LEN];
    assert_eq!(starknet_crypto_public_key(Some(&priv_key), Some(&mut pub_key)), 0);
    assert_eq!(starknet_crypto_verify(Some(&pub_key), Some(&hash), Some(&r), Some(&s)), 1);

    let mut other_key = [0u8; FELT_LEN];
    assert_eq!(starknet_crypto_public_key(Some(&le(0x78)), Some(&mut other_key)), 0);
    assert_eq!(starknet_crypto_verify(Some(&other_key), Some(&hash), Some(&r), Some(&s)), 0);
}

#[test]
fn rfc6979_seed_reading() {
    let hash = le(0xdead);
    let priv_key = le(0xbeef);
    let mut none = [0u8; FELT_LEN];
    let mut empty = [0u8; FELT_LEN];
    let seed = le(0x1234);
    assert_eq!(starknet_crypto_rfc6979_nonce(Some(&hash), Some(&priv_key), None, 0, Some(&mut none)), 0);
    assert_eq!(starknet_crypto_rfc6979_nonce(Some(&hash), Some(&priv_key), Some(&seed[..]), 0, Some(&mut empty)), 0);
    assert_eq!(none, empty);
    assert_eq!(none, rfc6979_generate_k(&Felt::from(0xdeadu64), &Felt::from(0xbeefu64), None).to_bytes_le());

    let mut long_seed = seed.to_vec();
    long_seed.extend_from_slice(&[0xffu8; 8]);
    let mut with_seed = [0u8; FELT_LEN];
    let mut with_long_seed = [0u8; FELT_LEN];
    assert_eq!(starknet_crypto_rfc6979_nonce(Some(&hash), Some(&priv_key), Some(&seed[..]), 32, Some(&mut with_seed)), 0);
    assert_eq!(
        starknet_crypto_rfc6979_nonce(Some(&hash), Some(&priv_key), Some(&long_seed[..]), 40, Some(&mut with_long_seed)),
        0
    );
    assert_eq!(with_seed, with_long_seed);
    assert_ne!(with_seed, none);
}

#[test]
fn verify_that_would_reach_infinity_is_caught() {
    // Public key = x-coordinate of the generator, hash = r = s = 1: one of
    // G + Q and G - Q is the point at infinity.
    let generator_x = get_public_key(&Felt::ONE).to_bytes_le();
    let one = le(1);
    assert!(verify_may_reach_infinity_test(&generator_x, &one, &one, &one));
    assert_eq!(starknet_crypto_verify_checked(Some(&generator_x), Some(&one), Some(&one), Some(&one)), None);

    let priv_key = Felt::from(0x1234u64);
    let pub_key = get_public_key(&priv_key).to_bytes_le();
    let msg = le(0xabcd);
    assert!(!verify_may_reach_infinity_test(&pub_key, &msg, &le(1), &le(2)));
    assert_eq!(starknet_crypto_verify_checked(Some(&pub_key), Some(&msg), Some(&le(1)), Some(&le(2))), Some(0));
    assert_eq!(starknet_crypto_verify_checked(None, Some(&msg), Some(&le(1)), Some(&le(2))), Some(-1));
    assert_eq!(starknet_crypto_verify_checked(Some(&pub_key), Some(&upper_bound_le()), Some(&le(1)), Some(&le(2))), Some(2));
}

#[test]
fn nonce_lies_below_the_curve_order() {
    let order = Felt::from_hex("0x0800000000000010ffffffffffffffffb781126dcae7b2321e66a241adc64d2f").unwrap();
    for v in [1u64, 2, 0xdead, 0xffff_ffff] {
        let mut out = [0u8; FELT_LEN];
        assert_eq!(starknet_crypto_rfc6979_nonce(Some(&le(v)), Some(&le(v + 7)), None, 0, Some(&mut out)), 0);
        let k = Felt::from_bytes_le(&out);
        assert!(k != Felt::ZERO && k < order);
    }
}

/// The group order as a field element.
fn group_order() -> Felt {
    Felt::from_hex("0x0800000000000010ffffffffffffffffb781126dcae7b2321e66a241adc64d2f").unwrap()
}

fn inverse_mod_order(a: Felt) -> Felt {
    let n = NonZeroFelt::try_from(group_order()).unwrap();
    a.mod_inverse(&n).unwrap()
}

#[test]
fn verify_refusing_s_is_not_caught() {
    // z*G = r*Q with Q = G, but the inverse of s lies in [2^251, n): verification
    // refuses s before any curve sum is formed.
    let w = Felt::from_hex("0x0800000000000000000000000000000000000000000000000000000000000001").unwrap();
    let s = inverse_mod_order(w);
    let bound = Felt::from_hex("0x0800000000000000000000000000000000000000000000000000000000000000").unwrap();
    assert!(s != Felt::ZERO && s < bound);
    let generator_x = get_public_key(&Felt::ONE);
    let (q, z, r, s) = (generator_x.to_bytes_le(), le(5), le(5), s.to_bytes_le());
    assert!(matches!(
        verify(&generator_x, &Felt::from(5u64), &Felt::from(5u64), &Felt::from_bytes_le(&s)),
        Err(VerifyError::InvalidS)
    ));
    assert!(!verify_may_reach_infinity_test(&q, &z, &r, &s));
    assert_eq!(starknet_crypto_verify_checked(Some(&q), Some(&z), Some(&r), Some(&s)), Some(2));
    assert_eq!(starknet_crypto_verify(Some(&q), Some(&z), Some(&r), Some(&s)), 2);
}

#[test]
fn verify_accepting_before_the_second_sum_is_not_caught() {
    // z*G = r*Q, and the first sum 2*w*z*G has x-coordinate r: verification returns
    // true without forming the second sum, which would be at infinity.
    let bound = Felt::from_hex("0x0800000000000000000000000000000000000000000000000000000000000000").unwrap();
    let w = Felt::from(3u64);
    let s = inverse_mod_order(w);
    assert!(s < bound);
    let mut found = false;
    for z in 2u64..200 {
        let z = Felt::from(z);
        let zg = &AffinePoint::generator() * z;
        let first = &zg * (w + w);
        let r = first.x();
        if r == Felt::ZERO || r >= bound {
            continue;
        }
        let key = &zg * inverse_mod_order(r);
        let q = key.x();
        let even = AffinePoint::new_from_x(&q, false).unwrap().y();
        let odd = AffinePoint::new_from_x(&q, true).unwrap().y();
        if key.y() != even.min(odd) {
            continue;
        }
        assert_eq!(verify(&q, &z, &r, &s).unwrap(), true);
        let (qb, zb, rb, sb) = (q.to_bytes_le(), z.to_bytes_le(), r.to_bytes_le(), s.to_bytes_le());
        assert!(!verify_may_reach_infinity_test(&qb, &zb, &rb, &sb));
        assert_eq!(starknet_crypto_verify_checked(Some(&qb), Some(&zb), Some(&rb), Some(&sb)), Some(1));
        found = true;
        break;
    }
    assert!(found);
}
