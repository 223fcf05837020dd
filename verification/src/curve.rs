//! Points of the Stark curve, and the inputs on which `starknet_crypto::verify` reaches
//! the point at infinity.
//!
//! `starknet_crypto::verify` ends by forming `S1 = z*w*G + r*w*Q`, where `z` is the
//! message hash, `w` the inverse of `s` modulo the group order, `G` the generator and
//! `Q` the curve point with x-coordinate `public_key` and the lower of its two
//! y-coordinates (`Felt::sqrt`).  It returns `true` where `S1` has x-coordinate `r`, and
//! otherwise forms `S2 = z*w*G - r*w*Q`; it panics where the point it forms is at
//! infinity.  The curve has prime order and `w` is invertible, so `S1` is at infinity
//! exactly where `z*G = -(r*Q)`, and `S2` exactly where `z*G = r*Q`, in which case
//! `S1 = 2*w*(z*G)`.  Both need `z*G` and `r*Q` to share their x-coordinate; their
//! y-coordinates then tell the two cases apart.
use crate::field::{FELT_LEN, element_upper_bound, ec_order, encodes_felt, felt_of};
use starknet_crypto::Felt;
use starknet_types_core::curve::AffinePoint;
use starknet_types_core::felt::NonZeroFelt;
use vstd::prelude::*;

verus! {

/// The y-coordinate of the point that `AffinePoint::new_from_x` builds from the
/// x-coordinate `x` and the parity `odd_y`; `None` where no curve point has
/// x-coordinate `x`.
pub uninterp spec fn curve_point_y_value(x: nat, odd_y: bool) -> Option<nat>;

/// The coordinates of `k * P`, where `P` is the point that `AffinePoint::new_from_x`
/// builds from `x` and `odd_y`; `None` where no curve point has x-coordinate `x`.
pub uninterp spec fn curve_mul_value(x: nat, odd_y: bool, k: nat) -> Option<(nat, nat)>;

/// The coordinates of `k * G` for the generator `G`.
pub uninterp spec fn generator_mul_value(k: nat) -> (nat, nat);

/// What `Felt::mod_inverse` returns for `a` modulo `m`.
pub uninterp spec fn mod_inverse_value(a: nat, m: nat) -> Option<nat>;

pub open spec fn is_odd(v: nat) -> bool {
    v % 2 == 1
}

/// `w` is the inverse of `a` modulo `m`, in [0, m).
pub open spec fn is_inverse_mod(w: nat, a: nat, m: nat) -> bool {
    &&& w < m
    &&& (a * w) % m == 1
}

/// The point `Q` that verification builds from the public key has an odd y-coordinate:
/// its lower root is the odd one.
pub open spec fn key_point_is_odd(public_key: nat) -> bool {
    curve_point_y_value(public_key, true)->Some_0 < curve_point_y_value(public_key, false)->Some_0
}

/// Where `S2` is at infinity (`z*G = r*Q`), `S1 = 2*(w*(z*G))`: its x-coordinate is
/// not `r`, so that verification goes on to form `S2`.
pub open spec fn first_sum_misses_r(zg: (nat, nat), w: Option<nat>, r: nat) -> bool {
    match w {
        None => true,
        Some(w) => match curve_mul_value(zg.0, is_odd(zg.1), w) {
            None => true,
            Some(t) => match curve_mul_value(t.0, is_odd(t.1), 2) {
                None => true,
                Some(u) => u.0 != r,
            },
        },
    }
}

/// Given `r*Q` and `z*G`, verification reaches the point at infinity.
pub open spec fn sums_reach_infinity(rq: Option<(nat, nat)>, zg: (nat, nat), w: Option<nat>, r: nat) -> bool {
    match rq {
        None => true,
        Some(p) => p.0 == zg.0 && (p.1 != zg.1 || first_sum_misses_r(zg, w, r)),
    }
}

/// The inverse of `s` lies below 2^251, so that verification does not refuse `s`.
pub open spec fn inverse_passes(w: Option<nat>) -> bool {
    match w {
        Some(w) => w < element_upper_bound(),
        None => true,
    }
}

/// `starknet_crypto::verify` on these field elements reaches the point at infinity,
/// where it panics: the message hash, `r` and `s` pass the range checks, the public key
/// is the x-coordinate of a curve point, the inverse of `s` lies below 2^251, and
/// `S1` is at infinity, or `S1` misses `r` and `S2` is at infinity.
pub open spec fn verify_may_reach_infinity(public_key: nat, message: nat, r: nat, s: nat) -> bool {
    &&& message < element_upper_bound()
    &&& 0 < r < element_upper_bound()
    &&& 0 < s < element_upper_bound()
    &&& curve_point_y_value(public_key, false) is Some
    &&& curve_point_y_value(public_key, true) is Some
    &&& inverse_passes(mod_inverse_value(s, ec_order()))
    &&& message != 0
    &&& sums_reach_infinity(
        curve_mul_value(public_key, key_point_is_odd(public_key), r),
        generator_mul_value(message),
        mod_inverse_value(s, ec_order()),
        r,
    )
}

/// Calls `AffinePoint::new_from_x` on the field element that `x` encodes and reads the
/// point's y-coordinate.  Claimed: the result is the canonical encoding of that
/// y-coordinate, or `None` where no curve point has x-coordinate `x`.
#[verifier::external_body]
pub(crate) fn curve_point_y_le(x: &[u8; FELT_LEN], odd_y: bool) -> (r: Option<[u8; FELT_LEN]>)
    ensures
        match curve_point_y_value(felt_of(x@), odd_y) {
            Some(v) => r is Some && encodes_felt(r->Some_0@, v),
            None => r is None,
        },
{
    AffinePoint::new_from_x(&Felt::from_bytes_le_slice(x), odd_y).map(|p| p.y().to_bytes_le())
}

/// Multiplies a curve point by the field element that `k` encodes with
/// `&AffinePoint * Felt`; the point is the one that `AffinePoint::new_from_x` builds from
/// `x` and `odd_y`.  Claimed: the result holds the canonical encodings of the product's
/// coordinates, or is `None` where no curve point has x-coordinate `x`.
#[verifier::external_body]
pub(crate) fn curve_mul_le(x: &[u8; FELT_LEN], odd_y: bool, k: &[u8; FELT_LEN]) -> (r: Option<([u8; FELT_LEN], [u8; FELT_LEN])>)
    ensures
        match curve_mul_value(felt_of(x@), odd_y, felt_of(k@)) {
            Some((px, py)) => r is Some && encodes_felt(r->Some_0.0@, px) && encodes_felt(r->Some_0.1@, py),
            None => r is None,
        },
{
    let k = Felt::from_bytes_le_slice(k);
    let point = AffinePoint::new_from_x(&Felt::from_bytes_le_slice(x), odd_y);
    point.map(|p| (&p * k)).map(|m| (m.x().to_bytes_le(), m.y().to_bytes_le()))
}

/// Multiplies `AffinePoint::generator()` by the field element that `k` encodes.
/// Claimed: the result holds the canonical encodings of the product's coordinates.
#[verifier::external_body]
pub(crate) fn generator_mul_le(k: &[u8; FELT_LEN]) -> (r: ([u8; FELT_LEN], [u8; FELT_LEN]))
    ensures
        encodes_felt(r.0@, generator_mul_value(felt_of(k@)).0),
        encodes_felt(r.1@, generator_mul_value(felt_of(k@)).1),
{
    let m = &AffinePoint::generator() * Felt::from_bytes_le_slice(k);
    (m.x().to_bytes_le(), m.y().to_bytes_le())
}

/// Calls `Felt::mod_inverse` on the field elements that `a` and `m` encode (a modulus
/// above 1).  Claimed: a returned value is the canonical encoding of the inverse of `a`
/// modulo `m`, below `m`; modulo the group order, a prime, every `a` in (0, order) has
/// one.
#[verifier::external_body]
pub(crate) fn mod_inverse_le(a: &[u8; FELT_LEN], m: &[u8; FELT_LEN]) -> (r: Option<[u8; FELT_LEN]>)
    requires
        felt_of(m@) > 1,
    ensures
        match mod_inverse_value(felt_of(a@), felt_of(m@)) {
            Some(w) => r is Some && encodes_felt(r->Some_0@, w) && is_inverse_mod(w, felt_of(a@), felt_of(m@)),
            None => r is None,
        },
        felt_of(m@) == ec_order() && 0 < felt_of(a@) < ec_order() ==> r is Some,
{
    let m = NonZeroFelt::try_from(Felt::from_bytes_le_slice(m)).expect("nonzero modulus");
    Felt::from_bytes_le_slice(a).mod_inverse(&m).map(|w| w.to_bytes_le())
}

} // verus!
