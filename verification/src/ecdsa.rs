//! Stark-curve ECDSA over encoded field elements: public keys, signing, verification
//! and RFC 6979 nonces.
use crate::curve::{
    curve_mul_le, curve_mul_value, curve_point_y_le, curve_point_y_value, generator_mul_le,
    generator_mul_value, is_odd, mod_inverse_le, mod_inverse_value, verify_may_reach_infinity,
};
use crate::field::{
    FELT_LEN, ec_order, ec_order_le, element_upper_bound, encodes_felt, felt_bytes, felt_bytes_at,
    felt_of, le_lt, le_nat, lemma_encoded_value, lemma_felt_bytes_roundtrip,
    lemma_le_nat_below_upper_bound, lemma_le_nat_one_byte, lemma_le_nat_parity, lemma_le_nat_zero,
};
use crate::stark::{
    SignFailure, VerifyFailure, ecdsa_sign_value, ecdsa_verify_value, felt_canonical_le,
    get_public_key_le, in_signature_range, public_key_value, rfc6979_generate_k_le,
    rfc6979_nonce_value, sign_le, verify_checked, verify_le,
};
use vstd::prelude::*;

verus! {

/// A private key for which a public key exists: its field element is neither zero nor
/// the group order, either of which would put the public key at infinity.
pub open spec fn has_public_key(private_key: Seq<u8>) -> bool {
    felt_of(private_key) != 0 && felt_of(private_key) != ec_order()
}

/// `k` may be used to sign `hash`: signing a valid hash with a `k` equal to the group
/// order would put `k * G` at infinity.
pub open spec fn signable(hash: Seq<u8>, k: Seq<u8>) -> bool {
    felt_of(hash) < element_upper_bound() ==> felt_of(k) != ec_order()
}

/// What signing `hash` with `private_key` and `k` gives, as field elements.
pub open spec fn sign_outcome(private_key: Seq<u8>, hash: Seq<u8>, k: Seq<u8>) -> Result<(nat, nat), SignFailure> {
    if felt_of(hash) >= element_upper_bound() {
        Err(SignFailure::InvalidMessageHash)
    } else if felt_of(k) == 0 {
        Err(SignFailure::InvalidK)
    } else {
        match ecdsa_sign_value(felt_of(private_key), felt_of(hash), felt_of(k)) {
            Some(rs) => Ok(rs),
            None => Err(SignFailure::InvalidK),
        }
    }
}

/// The code that a refused signing is reported with.
pub open spec fn sign_failure_code(e: SignFailure) -> i32 {
    match e {
        SignFailure::InvalidMessageHash => 1,
        SignFailure::InvalidK => 2,
    }
}

/// `r` and `s` are the encodings of a signature that signing `hash` with `private_key`
/// and `k` produces, both in [1, 2^251).
pub open spec fn signature_of(private_key: Seq<u8>, hash: Seq<u8>, k: Seq<u8>, r: Seq<u8>, s: Seq<u8>) -> bool {
    match sign_outcome(private_key, hash, k) {
        Ok((rv, sv)) => {
            &&& encodes_felt(r, rv)
            &&& encodes_felt(s, sv)
            &&& in_signature_range(rv)
            &&& in_signature_range(sv)
        },
        Err(_) => false,
    }
}

/// What verifying the signature `(r, s)` over `hash` under `public_key` gives.
pub open spec fn verify_outcome(public_key: Seq<u8>, hash: Seq<u8>, r: Seq<u8>, s: Seq<u8>) -> Result<bool, VerifyFailure> {
    verify_checked(
        felt_of(hash),
        felt_of(r),
        felt_of(s),
        ecdsa_verify_value(felt_of(public_key), felt_of(hash), felt_of(r), felt_of(s)),
    )
}

/// Verifying the signature `(r, s)` over `hash` under `public_key` returns normally: its
/// curve computation cannot reach the point at infinity.
pub open spec fn verify_returns(public_key: Seq<u8>, hash: Seq<u8>, r: Seq<u8>, s: Seq<u8>) -> bool {
    !verify_may_reach_infinity(felt_of(public_key), felt_of(hash), felt_of(r), felt_of(s))
}

/// The code that a verification outcome is reported with: 1 for a valid signature, 0
/// for an invalid one, 2 where verification failed.
pub open spec fn verify_code(outcome: Result<bool, VerifyFailure>) -> i32 {
    match outcome {
        Ok(true) => 1,
        Ok(false) => 0,
        Err(_) => 2,
    }
}

/// The seed that a nonce request passes on: none where the seed buffer is missing or
/// empty, else the field element its first 32 bytes encode.
pub open spec fn seed_choice(seed: Option<&[u8]>, seed_len: usize) -> Option<nat> {
    match seed {
        Some(b) => if seed_len == 0 {
            None
        } else {
            Some(felt_of(b@.subrange(0, 32)))
        },
        None => None,
    }
}

/// The code for a refused signing.
fn sign_error_code(e: SignFailure) -> (code: i32)
    ensures
        code == sign_failure_code(e),
{
    match e {
        SignFailure::InvalidMessageHash => 1,
        SignFailure::InvalidK => 2,
    }
}

/// Computes the public key of the private key that `priv_key` encodes and writes its
/// encoding to `out`.  A missing buffer is refused with -1 and nothing is written;
/// otherwise the result is 0.
pub fn starknet_crypto_public_key(
    priv_key: Option<&[u8; FELT_LEN]>,
    out: Option<&mut [u8; FELT_LEN]>,
) -> (code: i32)
    requires
        priv_key is Some && out is Some ==> has_public_key(priv_key.unwrap()@),
    ensures
        code == -1 <==> (priv_key is None || out is None),
        code == 0 <==> !(priv_key is None || out is None),
        code == -1 && out is Some ==> *final(out.unwrap()) == *out.unwrap(),
        code == 0 ==> encodes_felt(
            final(out.unwrap())@,
            public_key_value(felt_of(priv_key.unwrap()@)),
        ),
{
    match (priv_key, out) {
        (Some(p), Some(out)) => {
            *out = get_public_key_le(p);
            0
        },
        _ => -1,
    }
}

/// Signs the message hash that `hash` encodes with the private key `priv_key` and the
/// nonce `k`, and writes `r` and `s` to `r_out` and `s_out`.  A missing buffer gives -1;
/// a hash of 2^251 or more gives 1; a `k` that cannot sign gives 2; in those cases
/// nothing is written.  A written signature gives 0.
pub fn starknet_crypto_sign(
    priv_key: Option<&[u8; FELT_LEN]>,
    hash: Option<&[u8; FELT_LEN]>,
    k: Option<&[u8; FELT_LEN]>,
    r_out: Option<&mut [u8; FELT_LEN]>,
    s_out: Option<&mut [u8; FELT_LEN]>,
) -> (code: i32)
    requires
        hash is Some && k is Some ==> signable(hash.unwrap()@, k.unwrap()@),
    ensures
        code == -1 <==> (priv_key is None || hash is None || k is None || r_out is None
            || s_out is None),
        code != 0 && r_out is Some ==> *final(r_out.unwrap()) == *r_out.unwrap(),
        code != 0 && s_out is Some ==> *final(s_out.unwrap()) == *s_out.unwrap(),
        code != -1 ==> match sign_outcome(priv_key.unwrap()@, hash.unwrap()@, k.unwrap()@) {
            Ok(_) => code == 0 && signature_of(
                priv_key.unwrap()@,
                hash.unwrap()@,
                k.unwrap()@,
                final(r_out.unwrap())@,
                final(s_out.unwrap())@,
            ),
            Err(e) => code == sign_failure_code(e),
        },        code == -1 || code == 0 || code == 1 || code == 2,
        code == 1 <==> (code != -1 && felt_of(hash.unwrap()@) >= element_upper_bound()),
        code == 2 <==> (code != -1 && felt_of(hash.unwrap()@) < element_upper_bound() && (felt_of(
            k.unwrap()@,
        ) == 0 || ecdsa_sign_value(
            felt_of(priv_key.unwrap()@),
            felt_of(hash.unwrap()@),
            felt_of(k.unwrap()@),
        ) is None)),
        code == 0 ==> (ecdsa_sign_value(
            felt_of(priv_key.unwrap()@),
            felt_of(hash.unwrap()@),
            felt_of(k.unwrap()@),
        ) matches Some((rv, sv)) && encodes_felt(final(r_out.unwrap())@, rv) && encodes_felt(
            final(s_out.unwrap())@,
            sv,
        )),
{
    match (priv_key, hash, k, r_out, s_out) {
        (Some(d), Some(z), Some(k), Some(r_out), Some(s_out)) => {
            match sign_le(d, z, k) {
                Ok((r, s)) => {
                    *r_out = r;
                    *s_out = s;
                    0
                },
                Err(e) => sign_error_code(e),
            }
        },
        _ => -1,
    }
}

/// Verifies the signature `(r, s)` over the message hash `hash` under `pub_key`.
/// Returns -1 for a missing buffer, 1 for a valid signature, 0 for an invalid one and 2
/// where verification fails (a hash, `r` or `s` out of range, or an invalid public key).
/// The curve computation behind it panics where it reaches the point at infinity;
/// `requires` leaves those inputs out, and `starknet_crypto_verify_checked` tests for them.
pub fn starknet_crypto_verify(
    pub_key: Option<&[u8; FELT_LEN]>,
    hash: Option<&[u8; FELT_LEN]>,
    r: Option<&[u8; FELT_LEN]>,
    s: Option<&[u8; FELT_LEN]>,
) -> (code: i32)
    requires
        pub_key is Some && hash is Some && r is Some && s is Some ==> verify_returns(
            pub_key.unwrap()@,
            hash.unwrap()@,
            r.unwrap()@,
            s.unwrap()@,
        ),
    ensures
        code == -1 <==> (pub_key is None || hash is None || r is None || s is None),
        code != -1 ==> code == verify_code(
            verify_outcome(pub_key.unwrap()@, hash.unwrap()@, r.unwrap()@, s.unwrap()@),
        ),        code == -1 || code == 0 || code == 1 || code == 2,
        code == 1 <==> (code != -1 && felt_of(hash.unwrap()@) < element_upper_bound() && 0 < felt_of(
            r.unwrap()@,
        ) < element_upper_bound() && 0 < felt_of(s.unwrap()@) < element_upper_bound()
            && (ecdsa_verify_value(
            felt_of(pub_key.unwrap()@),
            felt_of(hash.unwrap()@),
            felt_of(r.unwrap()@),
            felt_of(s.unwrap()@),
        ) matches Ok(valid) && valid)),
        code == 0 <==> (code != -1 && felt_of(hash.unwrap()@) < element_upper_bound() && 0 < felt_of(
            r.unwrap()@,
        ) < element_upper_bound() && 0 < felt_of(s.unwrap()@) < element_upper_bound()
            && (ecdsa_verify_value(
            felt_of(pub_key.unwrap()@),
            felt_of(hash.unwrap()@),
            felt_of(r.unwrap()@),
            felt_of(s.unwrap()@),
        ) matches Ok(valid) && !valid)),
{
    match (pub_key, hash, r, s) {
        (Some(q), Some(z), Some(r), Some(s)) => {
            match verify_le(q, z, r, s) {
                Ok(true) => 1,
                Ok(false) => 0,
                Err(_) => 2,
            }
        },
        _ => -1,
    }
}

/// All 32 bytes of `b` are zero.
fn all_zero(b: &[u8; FELT_LEN]) -> (z: bool)
    ensures
        z == (le_nat(b@) == 0),
{
    proof {
        lemma_le_nat_zero(b@);
    }
    let mut i: usize = 0;
    while i < FELT_LEN
        invariant
            i <= 32,
            b@.len() == 32,
            forall|j: int| 0 <= j < i ==> b@[j] == 0,
            le_nat(b@) == 0 <==> forall|j: int| 0 <= j < b@.len() ==> b@[j] == 0,
        decreases 32 - i,
    {
        if b[i] != 0 {
            return false;
        }
        i = i + 1;
    }
    true
}

/// `a` and `b` hold the same bytes.
fn same_bytes(a: &[u8; FELT_LEN], b: &[u8; FELT_LEN]) -> (e: bool)
    ensures
        e == (a@ == b@),
{
    let mut i: usize = 0;
    while i < FELT_LEN
        invariant
            i <= 32,
            a@.len() == 32,
            b@.len() == 32,
            forall|j: int| 0 <= j < i ==> a@[j] == b@[j],
        decreases 32 - i,
    {
        if a[i] != b[i] {
            return false;
        }
        i = i + 1;
    }
    assert(a@ =~= b@);
    true
}

/// The canonical encoding `c` holds a value in [1, 2^251).
fn encoded_in_signature_range(c: &[u8; FELT_LEN]) -> (b: bool)
    ensures
        b == in_signature_range(le_nat(c@)),
{
    proof {
        lemma_le_nat_below_upper_bound(c@);
    }
    c[31] < 8 && !all_zero(c)
}

/// The canonical encoding `c` holds an odd value.
fn encoded_odd(c: &[u8; FELT_LEN]) -> (b: bool)
    ensures
        b == is_odd(le_nat(c@)),
{
    proof {
        lemma_le_nat_parity(c@);
    }
    c[0] % 2 == 1
}

/// Tests whether verifying the signature `(r, s)` over `hash` under `pub_key` reaches
/// the point at infinity, where the verification call panics.
pub fn verify_may_reach_infinity_test(
    pub_key: &[u8; FELT_LEN],
    hash: &[u8; FELT_LEN],
    r: &[u8; FELT_LEN],
    s: &[u8; FELT_LEN],
) -> (reaches: bool)
    ensures
        reaches == !verify_returns(pub_key@, hash@, r@, s@),
{
    let ghost (q, z, rv, sv) = (felt_of(pub_key@), felt_of(hash@), felt_of(r@), felt_of(s@));
    let zc = felt_canonical_le(hash);
    let rc = felt_canonical_le(r);
    let sc = felt_canonical_le(s);
    proof {
        lemma_encoded_value(zc@, z);
        lemma_encoded_value(rc@, rv);
        lemma_encoded_value(sc@, sv);
        lemma_le_nat_below_upper_bound(zc@);
    }
    if zc[31] >= 8 || !encoded_in_signature_range(&rc) || !encoded_in_signature_range(&sc) {
        return false;
    }
    let (y_even, y_odd) = match (curve_point_y_le(pub_key, false), curve_point_y_le(pub_key, true)) {
        (Some(a), Some(b)) => (a, b),
        _ => return false,
    };
    proof {
        lemma_encoded_value(y_even@, curve_point_y_value(q, false)->Some_0);
        lemma_encoded_value(y_odd@, curve_point_y_value(q, true)->Some_0);
    }
    let order = ec_order_le();
    let w = mod_inverse_le(s, &order);
    if let Some(wb) = &w {
        proof {
            lemma_encoded_value(wb@, mod_inverse_value(sv, ec_order())->Some_0);
            lemma_le_nat_below_upper_bound(wb@);
        }
        if wb[31] >= 8 {
            return false;
        }
    }
    if all_zero(&zc) {
        return false;
    }
    let key_odd = le_lt(&y_odd, &y_even);
    let zg = generator_mul_le(hash);
    let ghost zgv = generator_mul_value(z);
    proof {
        lemma_encoded_value(zg.0@, zgv.0);
        lemma_encoded_value(zg.1@, zgv.1);
    }
    match curve_mul_le(pub_key, key_odd, r) {
        None => true,
        Some((px, py)) => {
            let ghost pv = curve_mul_value(q, key_odd, rv)->Some_0;
            proof {
                lemma_encoded_value(px@, pv.0);
                lemma_encoded_value(py@, pv.1);
            }
            if !same_bytes(&px, &zg.0) {
                return false;
            }
            if !same_bytes(&py, &zg.1) {
                return true;
            }
            match &w {
                None => true,
                Some(wb) => {
                    let ghost wv = mod_inverse_value(sv, ec_order())->Some_0;
                    match curve_mul_le(&zg.0, encoded_odd(&zg.1), wb) {
                        None => true,
                        Some((tx, ty)) => {
                            let ghost tv = curve_mul_value(zgv.0, is_odd(zgv.1), wv)->Some_0;
                            proof {
                                lemma_encoded_value(tx@, tv.0);
                                lemma_encoded_value(ty@, tv.1);
                            }
                            let mut two = [0u8; FELT_LEN];
                            two[0] = 2;
                            proof {
                                lemma_le_nat_one_byte(two@);
                            }
                            match curve_mul_le(&tx, encoded_odd(&ty), &two) {
                                None => true,
                                Some((ux, uy)) => {
                                    let ghost uv = curve_mul_value(tv.0, is_odd(tv.1), 2)->Some_0;
                                    proof {
                                        lemma_encoded_value(ux@, uv.0);
                                    }
                                    !same_bytes(&ux, &rc)
                                },
                            }
                        },
                    }
                },
            }
        },
    }
}

/// Verifies like `starknet_crypto_verify`, after testing whether the verification would
/// reach the point at infinity: on such inputs it returns `None` and verifies nothing,
/// otherwise the code that `starknet_crypto_verify` returns.
pub fn starknet_crypto_verify_checked(
    pub_key: Option<&[u8; FELT_LEN]>,
    hash: Option<&[u8; FELT_LEN]>,
    r: Option<&[u8; FELT_LEN]>,
    s: Option<&[u8; FELT_LEN]>,
) -> (res: Option<i32>)
    ensures
        res is None <==> (pub_key is Some && hash is Some && r is Some && s is Some
            && !verify_returns(pub_key.unwrap()@, hash.unwrap()@, r.unwrap()@, s.unwrap()@)),
        res == Some(-1i32) <==> (pub_key is None || hash is None || r is None || s is None),
        res is Some && res != Some(-1i32) ==> res == Some(
            verify_code(verify_outcome(pub_key.unwrap()@, hash.unwrap()@, r.unwrap()@, s.unwrap()@)),
        ),
{
    if let (Some(q), Some(z), Some(rr), Some(ss)) = (pub_key, hash, r, s) {
        if verify_may_reach_infinity_test(q, z, rr, ss) {
            return None;
        }
    }
    Some(starknet_crypto_verify(pub_key, hash, r, s))
}

/// Derives the RFC 6979 nonce for the message hash `hash` and the private key
/// `priv_key` and writes its encoding to `out`.  A seed is used where `seed` is present
/// and `seed_len` is not zero: its first 32 bytes, which `seed_len` must then cover.
/// A missing `hash`, `priv_key` or `out` gives -1; a present seed shorter than 32 bytes
/// gives -2; in those cases nothing is written.  A written nonce gives 0.
pub fn starknet_crypto_rfc6979_nonce(
    hash: Option<&[u8; FELT_LEN]>,
    priv_key: Option<&[u8; FELT_LEN]>,
    seed: Option<&[u8]>,
    seed_len: usize,
    out: Option<&mut [u8; FELT_LEN]>,
) -> (code: i32)
    requires
        seed is Some && seed_len >= 32 ==> seed.unwrap()@.len() >= 32,
    ensures
        code == -1 <==> (hash is None || priv_key is None || out is None),
        code == -2 <==> (!(hash is None || priv_key is None || out is None) && seed is Some
            && 0 < seed_len < 32),
        code == 0 || code == -1 || code == -2,
        code != 0 && out is Some ==> *final(out.unwrap()) == *out.unwrap(),
        code == 0 ==> encodes_felt(
            final(out.unwrap())@,
            rfc6979_nonce_value(
                felt_of(hash.unwrap()@),
                felt_of(priv_key.unwrap()@),
                seed_choice(seed, seed_len),
            ),
        ),
        code == 0 ==> felt_of(final(out.unwrap())@) != 0,
        code == 0 ==> felt_of(final(out.unwrap())@) < ec_order(),
        code == 0 && seed is Some && seed_len >= 32 ==> encodes_felt(
            final(out.unwrap())@,
            rfc6979_nonce_value(
                felt_of(hash.unwrap()@),
                felt_of(priv_key.unwrap()@),
                Some(felt_of(seed.unwrap()@.subrange(0, 32))),
            ),
        ),
        code == 0 && (seed is None || seed_len == 0) ==> encodes_felt(
            final(out.unwrap())@,
            rfc6979_nonce_value(felt_of(hash.unwrap()@), felt_of(priv_key.unwrap()@), None),
        ),
        code == 0 ==> signable(hash.unwrap()@, final(out.unwrap())@),
{
    match (hash, priv_key, out) {
        (Some(z), Some(d), Some(out)) => {
            let seed_bytes: Option<[u8; FELT_LEN]> = match seed {
                Some(b) => if seed_len == 0 {
                    None
                } else if seed_len >= FELT_LEN {
                    Some(felt_bytes_at(b, 0))
                } else {
                    return -2;
                },
                None => None,
            };
            let k = match &seed_bytes {
                Some(b) => rfc6979_generate_k_le(z, d, Some(b)),
                None => rfc6979_generate_k_le(z, d, None),
            };
            *out = k;
            0
        },
        _ => -1,
    }
}

/// An empty seed is no seed, and of a longer seed only the first 32 bytes count.
pub proof fn rfc6979_seed_reading(s1: &[u8], s2: &[u8], seed_len1: usize, seed_len2: usize)
    requires
        32 <= seed_len1,
        32 <= seed_len2,
        32 <= s1@.len(),
        32 <= s2@.len(),
        s1@.subrange(0, 32) == s2@.subrange(0, 32),
    ensures
        seed_choice(Some(s1), 0) == seed_choice(None, seed_len1),
        seed_choice(Some(s1), seed_len1) == seed_choice(Some(s2), seed_len2),
{
}

/// A seed of 32 bytes or more is passed on whole: the nonce's seed is the field element
/// of all of the seed's first 32 bytes, so two seeds are passed on alike exactly when
/// those bytes hold the same field element.
pub proof fn rfc6979_seed_is_first_32_bytes(s1: &[u8], s2: &[u8], seed_len1: usize, seed_len2: usize)
    requires
        32 <= seed_len1,
        32 <= seed_len2,
        32 <= s1@.len(),
        32 <= s2@.len(),
    ensures
        seed_choice(Some(s1), seed_len1) == Some(felt_of(s1@.subrange(0, 32))),
        seed_choice(Some(s1), seed_len1) == seed_choice(Some(s2), seed_len2) <==> felt_of(
            s1@.subrange(0, 32),
        ) == felt_of(s2@.subrange(0, 32)),
{
}

/// A signature that `starknet_crypto_sign` writes clears every range check that
/// `starknet_crypto_verify` applies to the same message hash: whatever the public key,
/// the verdict on it comes from the curve computation alone.
pub proof fn signature_clears_verify_checks(
    priv_key: Seq<u8>,
    hash: Seq<u8>,
    k: Seq<u8>,
    r: Seq<u8>,
    s: Seq<u8>,
    pub_key: Seq<u8>,
)
    requires
        signature_of(priv_key, hash, k, r, s),
    ensures
        verify_outcome(pub_key, hash, r, s) == ecdsa_verify_value(
            felt_of(pub_key),
            felt_of(hash),
            felt_of(r),
            felt_of(s),
        ),
{
    let (rv, sv) = sign_outcome(priv_key, hash, k)->Ok_0;
    lemma_felt_bytes_roundtrip(rv);
    lemma_felt_bytes_roundtrip(sv);
}

} // verus!
