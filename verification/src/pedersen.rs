//! Pedersen hash of two encoded field elements.
use crate::field::{FELT_LEN, encodes_felt, felt_bytes, felt_of};
use crate::stark::{pedersen_hash_le, pedersen_hash_value};
use vstd::prelude::*;

verus! {

/// The buffer that the Pedersen hash of `a` and `b` is written as.
pub open spec fn pedersen_output(a: Seq<u8>, b: Seq<u8>) -> Seq<u8> {
    felt_bytes(pedersen_hash_value(felt_of(a), felt_of(b)))
}

/// Computes the Pedersen hash of the field elements that `a` and `b` encode and writes
/// its 32-byte little-endian encoding to `out`.  A missing buffer (`None`) is refused
/// with -1 and nothing is written; otherwise the result is 0.
pub fn starknet_crypto_pedersen_hash(
    a: Option<&[u8; FELT_LEN]>,
    b: Option<&[u8; FELT_LEN]>,
    out: Option<&mut [u8; FELT_LEN]>,
) -> (code: i32)
    ensures
        code == -1 <==> (a is None || b is None || out is None),
        code == 0 <==> !(a is None || b is None || out is None),
        code == -1 && out is Some ==> *final(out.unwrap()) == *out.unwrap(),
        code == 0 ==> final(out.unwrap())@ == pedersen_output(a.unwrap()@, b.unwrap()@),
        code == 0 ==> encodes_felt(
            final(out.unwrap())@,
            pedersen_hash_value(felt_of(a.unwrap()@), felt_of(b.unwrap()@)),
        ),
{
    match (a, b, out) {
        (Some(a), Some(b), Some(out)) => {
            *out = pedersen_hash_le(a, b);
            0
        },
        _ => -1,
    }
}

/// The Pedersen hash reads its inputs as field elements: two encodings of the same
/// pair of elements, canonical or not, hash to the same buffer.  In particular hashing
/// the same buffers twice gives the same result.
pub proof fn pedersen_reads_field_elements(a1: Seq<u8>, b1: Seq<u8>, a2: Seq<u8>, b2: Seq<u8>)
    requires
        felt_of(a1) == felt_of(a2),
        felt_of(b1) == felt_of(b2),
    ensures
        pedersen_output(a1, b1) == pedersen_output(a2, b2),
{
}

} // verus!
