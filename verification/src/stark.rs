//! The calls into `starknet_crypto`.
//!
//! Each function here hands its 32-byte buffers to `Felt::from_bytes_le_slice`, which
//! reads them as little-endian integers reduced modulo the Stark prime, makes one call
//! into `starknet_crypto`, and hands every resulting `Felt` back through
//! `Felt::to_bytes_le`, the canonical little-endian encoding of a value below the prime.
//! The hash and curve computations themselves are named, not spelled out: each name
//! below stands for what the corresponding `starknet_crypto` function returns on given
//! field elements.
use crate::curve::verify_may_reach_infinity;
use crate::field::{FELT_LEN, element_upper_bound, ec_order, encodes_felt, felt_of};
use starknet_crypto::{Felt, SignError, VerifyError};
use vstd::prelude::*;

verus! {

/// Why `starknet_crypto::sign` refused to sign.
#[derive(Debug, Clone, Copy, PartialEq, Eq, Structural)]
pub enum SignFailure {
    InvalidMessageHash,
    InvalidK,
}

/// Why `starknet_crypto::verify` could not decide on a signature.
#[derive(Debug, Clone, Copy, PartialEq, Eq, Structural)]
pub enum VerifyFailure {
    InvalidPublicKey,
    InvalidMessageHash,
    InvalidR,
    InvalidS,
}

/// `starknet_crypto::pedersen_hash` on two field elements.
pub uninterp spec fn pedersen_hash_value(x: nat, y: nat) -> nat;

/// `starknet_crypto::poseidon_hash` on two field elements.
pub uninterp spec fn poseidon_hash_value(x: nat, y: nat) -> nat;

/// `starknet_crypto::poseidon_hash_single` on one field element.
pub uninterp spec fn poseidon_hash_single_value(x: nat) -> nat;

/// `starknet_crypto::poseidon_hash_many` on a sequence of field elements.
pub uninterp spec fn poseidon_hash_many_value(xs: Seq<nat>) -> nat;

/// `starknet_crypto::get_public_key` on a private key.
pub uninterp spec fn public_key_value(private_key: nat) -> nat;

/// `starknet_crypto::rfc6979_generate_k` on a message hash, a private key and a seed.
pub uninterp spec fn rfc6979_nonce_value(message: nat, private_key: nat, seed: Option<nat>) -> nat;

/// The signature `(r, s)` that `starknet_crypto::sign` computes from a private key, a
/// message hash below 2^251 and a nonzero `k`, or `None` where it finds `k` unusable.
pub uninterp spec fn ecdsa_sign_value(private_key: nat, message: nat, k: nat) -> Option<(nat, nat)>;

/// What `starknet_crypto::verify` returns once the message hash, `r` and `s` have
/// passed its range checks.
pub uninterp spec fn ecdsa_verify_value(public_key: nat, message: nat, r: nat, s: nat) -> Result<bool, VerifyFailure>;

/// `v` lies in the range [1, 2^251) that ECDSA asks of `r` and `s`.
pub open spec fn in_signature_range(v: nat) -> bool {
    0 < v < element_upper_bound()
}

/// The field element that an optional seed buffer encodes.
pub open spec fn seed_felt(seed: Option<&[u8; 32]>) -> Option<nat> {
    match seed {
        Some(b) => Some(felt_of(b@)),
        None => None,
    }
}

/// The outcome of a refused signing.
pub open spec fn refused(e: SignFailure) -> Result<([u8; 32], [u8; 32]), SignFailure> {
    Err(e)
}

/// `res` is what `starknet_crypto::sign` gives back, in canonical encodings, once its
/// own computation has produced `signed` (`None` where it refuses `k`).
pub open spec fn sign_encoding(res: Result<([u8; 32], [u8; 32]), SignFailure>, signed: Option<(nat, nat)>) -> bool {
    match signed {
        Some((r, s)) => {
            &&& res is Ok
            &&& encodes_felt(res->Ok_0.0@, r)
            &&& encodes_felt(res->Ok_0.1@, s)
            &&& in_signature_range(r)
            &&& in_signature_range(s)
        },
        None => res == refused(SignFailure::InvalidK),
    }
}

/// What `starknet_crypto::verify` returns on a message hash `message` and signature
/// `(r, s)`, given what its curve computation returns past the range checks.
pub open spec fn verify_checked(message: nat, r: nat, s: nat, past_checks: Result<bool, VerifyFailure>) -> Result<bool, VerifyFailure> {
    if message >= element_upper_bound() {
        Err(VerifyFailure::InvalidMessageHash)
    } else if !in_signature_range(r) {
        Err(VerifyFailure::InvalidR)
    } else if !in_signature_range(s) {
        Err(VerifyFailure::InvalidS)
    } else {
        past_checks
    }
}

/// Calls `Felt::from_bytes_le_slice` on `b`.  Claimed: the result is the canonical
/// encoding of the field element that `b` encodes, the little-endian integer of its
/// bytes reduced modulo the Stark prime.
#[verifier::external_body]
pub(crate) fn felt_canonical_le(b: &[u8; FELT_LEN]) -> (r: [u8; FELT_LEN])
    ensures
        encodes_felt(r@, felt_of(b@)),
{
    Felt::from_bytes_le_slice(b).to_bytes_le()
}

/// Calls `starknet_crypto::pedersen_hash` on the field elements that `a` and `b` encode.
/// Claimed: the result is the canonical encoding of the field element that the hash
/// returns for those two elements.
#[verifier::external_body]
pub(crate) fn pedersen_hash_le(a: &[u8; FELT_LEN], b: &[u8; FELT_LEN]) -> (r: [u8; FELT_LEN])
    ensures
        encodes_felt(r@, pedersen_hash_value(felt_of(a@), felt_of(b@))),
{
    let x = Felt::from_bytes_le_slice(a);
    let y = Felt::from_bytes_le_slice(b);
    starknet_crypto::pedersen_hash(&x, &y).to_bytes_le()
}

/// Calls `starknet_crypto::poseidon_hash` on the field elements that `a` and `b` encode.
/// Claimed: the result is the canonical encoding of what the hash returns.
#[verifier::external_body]
pub(crate) fn poseidon_hash_le(a: &[u8; FELT_LEN], b: &[u8; FELT_LEN]) -> (r: [u8; FELT_LEN])
    ensures
        encodes_felt(r@, poseidon_hash_value(felt_of(a@), felt_of(b@))),
{
    let x = Felt::from_bytes_le_slice(a);
    let y = Felt::from_bytes_le_slice(b);
    starknet_crypto::poseidon_hash(x, y).to_bytes_le()
}

/// Calls `starknet_crypto::poseidon_hash_single` on the field element that `a` encodes.
/// Claimed: the result is the canonical encoding of what the hash returns.
#[verifier::external_body]
pub(crate) fn poseidon_hash_single_le(a: &[u8; FELT_LEN]) -> (r: [u8; FELT_LEN])
    ensures
        encodes_felt(r@, poseidon_hash_single_value(felt_of(a@))),
{
    starknet_crypto::poseidon_hash_single(Felt::from_bytes_le_slice(a)).to_bytes_le()
}

/// Calls `starknet_crypto::poseidon_hash_many` on the field elements that the buffers
/// of `inputs` encode, in order.  Claimed: the result is the canonical encoding of what
/// the hash returns for that sequence.
#[verifier::external_body]
pub(crate) fn poseidon_hash_many_le(inputs: &Vec<[u8; FELT_LEN]>) -> (r: [u8; FELT_LEN])
    ensures
        encodes_felt(r@, poseidon_hash_many_value(inputs@.map_values(|b: [u8; 32]| felt_of(b@)))),
{
    let felts: Vec<Felt> = inputs.iter().map(|b| Felt::from_bytes_le_slice(b)).collect();
    starknet_crypto::poseidon_hash_many(&felts).to_bytes_le()
}

/// Calls `starknet_crypto::get_public_key` on the private key that `private_key` encodes.
/// Claimed: the result is the canonical encoding of the public key.  The call multiplies
/// the generator by the key and panics where that gives the point at infinity, that is
/// where the key is 0 or the group order; `requires` leaves those keys out.
#[verifier::external_body]
pub(crate) fn get_public_key_le(private_key: &[u8; FELT_LEN]) -> (r: [u8; FELT_LEN])
    requires
        felt_of(private_key@) != 0,
        felt_of(private_key@) != ec_order(),
    ensures
        encodes_felt(r@, public_key_value(felt_of(private_key@))),
{
    starknet_crypto::get_public_key(&Felt::from_bytes_le_slice(private_key)).to_bytes_le()
}

/// Calls `starknet_crypto::rfc6979_generate_k` on the field elements that `message`,
/// `private_key` and, where present, `seed` encode.  Claimed: the result is the canonical
/// encoding of the nonce, which the call only returns once it is nonzero and below the
/// group order.
#[verifier::external_body]
pub(crate) fn rfc6979_generate_k_le(
    message: &[u8; FELT_LEN],
    private_key: &[u8; FELT_LEN],
    seed: Option<&[u8; FELT_LEN]>,
) -> (r: [u8; FELT_LEN])
    ensures
        encodes_felt(r@, rfc6979_nonce_value(felt_of(message@), felt_of(private_key@), seed_felt(seed))),
        0 < felt_of(r@) < ec_order(),
{
    let z = Felt::from_bytes_le_slice(message);
    let d = Felt::from_bytes_le_slice(private_key);
    let s = seed.map(|b| Felt::from_bytes_le_slice(b));
    starknet_crypto::rfc6979_generate_k(&z, &d, s.as_ref()).to_bytes_le()
}

/// Calls `starknet_crypto::sign` on the field elements that the three buffers encode.
/// Claimed, from the source: a message hash of 2^251 or more is refused with
/// `InvalidMessageHash`, a zero `k` with `InvalidK`; otherwise the call either refuses
/// `k` or returns `r` and `s`, both in [1, 2^251), as canonical encodings.  The call
/// panics where a valid message hash meets a `k` equal to the group order (the point
/// `k * G` is then at infinity); `requires` leaves that input out.
#[verifier::external_body]
pub(crate) fn sign_le(private_key: &[u8; FELT_LEN], message: &[u8; FELT_LEN], k: &[u8; FELT_LEN]) -> (res: Result<([u8; FELT_LEN], [u8; FELT_LEN]), SignFailure>)
    requires
        felt_of(message@) < element_upper_bound() ==> felt_of(k@) != ec_order(),
    ensures
        felt_of(message@) >= element_upper_bound() ==> res == refused(SignFailure::InvalidMessageHash),
        felt_of(message@) < element_upper_bound() && felt_of(k@) == 0 ==> res == refused(SignFailure::InvalidK),
        felt_of(message@) < element_upper_bound() && felt_of(k@) != 0 ==> sign_encoding(res, ecdsa_sign_value(felt_of(private_key@), felt_of(message@), felt_of(k@))),
{
    let d = Felt::from_bytes_le_slice(private_key);
    let z = Felt::from_bytes_le_slice(message);
    let k = Felt::from_bytes_le_slice(k);
    match starknet_crypto::sign(&d, &z, &k) {
        Ok(sig) => Ok((sig.r.to_bytes_le(), sig.s.to_bytes_le())),
        Err(SignError::InvalidMessageHash) => Err(SignFailure::InvalidMessageHash),
        Err(SignError::InvalidK) => Err(SignFailure::InvalidK),
    }
}

/// Calls `starknet_crypto::verify` on the field elements that the four buffers encode.
/// Claimed, from the source: the message hash must lie below 2^251 and `r` and `s` in
/// [1, 2^251), or the call fails with `InvalidMessageHash`, `InvalidR` or `InvalidS`, in
/// that order of checks; past those checks the result is named.  The call ends in
/// `to_affine().unwrap()` on two points and panics where the one it forms is at
/// infinity; `requires` leaves out exactly those inputs (see `verify_may_reach_infinity`).
#[verifier::external_body]
pub(crate) fn verify_le(public_key: &[u8; FELT_LEN], message: &[u8; FELT_LEN], r: &[u8; FELT_LEN], s: &[u8; FELT_LEN]) -> (res: Result<bool, VerifyFailure>)
    requires
        !verify_may_reach_infinity(felt_of(public_key@), felt_of(message@), felt_of(r@), felt_of(s@)),
    ensures
        res == verify_checked(felt_of(message@), felt_of(r@), felt_of(s@), ecdsa_verify_value(felt_of(public_key@), felt_of(message@), felt_of(r@), felt_of(s@))),
{
    let q = Felt::from_bytes_le_slice(public_key);
    let z = Felt::from_bytes_le_slice(message);
    let (r, s) = (Felt::from_bytes_le_slice(r), Felt::from_bytes_le_slice(s));
    match starknet_crypto::verify(&q, &z, &r, &s) {
        Ok(valid) => Ok(valid),
        Err(VerifyError::InvalidPublicKey) => Err(VerifyFailure::InvalidPublicKey),
        Err(VerifyError::InvalidMessageHash) => Err(VerifyFailure::InvalidMessageHash),
        Err(VerifyError::InvalidR) => Err(VerifyFailure::InvalidR),
        Err(VerifyError::InvalidS) => Err(VerifyFailure::InvalidS),
    }
}

} // verus!
