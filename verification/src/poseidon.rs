//! Poseidon hashes of encoded field elements.
use crate::field::{FELT_LEN, encodes_felt, felt_bytes, felt_bytes_at, felt_of, felt_window};
use crate::stark::{
    poseidon_hash_le, poseidon_hash_many_le, poseidon_hash_many_value, poseidon_hash_single_le,
    poseidon_hash_single_value, poseidon_hash_value,
};
use vstd::prelude::*;

verus! {

/// The field elements that the first `count` 32-byte windows of `bytes` encode.
pub open spec fn felts_of_chunks(bytes: Seq<u8>, count: nat) -> Seq<nat> {
    Seq::new(count, |i: int| felt_of(felt_window(bytes, 32 * i)))
}

/// The bytes behind an optional input buffer; a missing buffer holds none.
pub open spec fn bytes_of(inputs: Option<&[u8]>) -> Seq<u8> {
    match inputs {
        Some(s) => s@,
        None => Seq::empty(),
    }
}

/// The buffer that `poseidon_hash(a, b)` is written as.
pub open spec fn poseidon_output(a: Seq<u8>, b: Seq<u8>) -> Seq<u8> {
    felt_bytes(poseidon_hash_value(felt_of(a), felt_of(b)))
}

/// The buffer that `poseidon_hash_single(a)` is written as.
pub open spec fn poseidon_single_output(a: Seq<u8>) -> Seq<u8> {
    felt_bytes(poseidon_hash_single_value(felt_of(a)))
}

/// The buffer that `poseidon_hash_many` over the first `count` elements of `bytes` is
/// written as.
pub open spec fn poseidon_many_output(bytes: Seq<u8>, count: nat) -> Seq<u8> {
    felt_bytes(poseidon_hash_many_value(felts_of_chunks(bytes, count)))
}

/// The buffer that `poseidon_hash_many([a, b])` is written as.
pub open spec fn poseidon_2_output(a: Seq<u8>, b: Seq<u8>) -> Seq<u8> {
    felt_bytes(poseidon_hash_many_value(seq![felt_of(a), felt_of(b)]))
}

/// Splits the first `count` 32-byte windows of `bytes` into separate buffers.
pub fn split_felts(bytes: &[u8], count: usize) -> (v: Vec<[u8; FELT_LEN]>)
    requires
        32 * count <= bytes@.len(),
    ensures
        v@.len() == count,
        forall|i: int| 0 <= i < count ==> (#[trigger] v@[i])@ == felt_window(bytes@, 32 * i),
        v@.map_values(|b: [u8; 32]| felt_of(b@)) == felts_of_chunks(bytes@, count as nat),
{
    let len: usize = bytes.len();
    let mut v: Vec<[u8; FELT_LEN]> = Vec::new();
    let mut i: usize = 0;
    while i < count
        invariant
            i <= count,
            len == bytes@.len(),
            32 * count <= len,
            v@.len() == i,
            forall|j: int| 0 <= j < i ==> (#[trigger] v@[j])@ == felt_window(bytes@, 32 * j),
        decreases count - i,
    {
        v.push(felt_bytes_at(bytes, 32 * i));
        i = i + 1;
    }
    assert(v@.map_values(|b: [u8; 32]| felt_of(b@)) =~= felts_of_chunks(bytes@, count as nat));
    v
}

/// Computes the Poseidon hash of the two field elements that `a` and `b` encode (the
/// Hades permutation of `[a, b, 2]`, first element) and writes its encoding to `out`.
/// A missing buffer is refused with -1 and nothing is written; otherwise the result is 0.
pub fn starknet_crypto_poseidon_hash(
    a: Option<&[u8; FELT_LEN]>,
    b: Option<&[u8; FELT_LEN]>,
    out: Option<&mut [u8; FELT_LEN]>,
) -> (code: i32)
    ensures
        code == -1 <==> (a is None || b is None || out is None),
        code == 0 <==> !(a is None || b is None || out is None),
        code == -1 && out is Some ==> *final(out.unwrap()) == *out.unwrap(),
        code == 0 ==> final(out.unwrap())@ == poseidon_output(a.unwrap()@, b.unwrap()@),
        code == 0 ==> encodes_felt(
            final(out.unwrap())@,
            poseidon_hash_value(felt_of(a.unwrap()@), felt_of(b.unwrap()@)),
        ),
{
    match (a, b, out) {
        (Some(a), Some(b), Some(out)) => {
            *out = poseidon_hash_le(a, b);
            0
        },
        _ => -1,
    }
}

/// Computes the Poseidon hash of the single field element that `value` encodes (the
/// Hades permutation of `[value, 0, 1]`, first element) and writes its encoding to `out`.
/// A missing buffer is refused with -1 and nothing is written; otherwise the result is 0.
pub fn starknet_crypto_poseidon_hash_single(
    value: Option<&[u8; FELT_LEN]>,
    out: Option<&mut [u8; FELT_LEN]>,
) -> (code: i32)
    ensures
        code == -1 <==> (value is None || out is None),
        code == 0 <==> !(value is None || out is None),
        code == -1 && out is Some ==> *final(out.unwrap()) == *out.unwrap(),
        code == 0 ==> final(out.unwrap())@ == poseidon_single_output(value.unwrap()@),
        code == 0 ==> encodes_felt(
            final(out.unwrap())@,
            poseidon_hash_single_value(felt_of(value.unwrap()@)),
        ),
{
    match (value, out) {
        (Some(value), Some(out)) => {
            *out = poseidon_hash_single_le(value);
            0
        },
        _ => -1,
    }
}

/// Computes `poseidon_hash_many` over the two field elements that `a` and `b` encode and
/// writes its encoding to `out`.  A missing buffer is refused with -1 and nothing is
/// written; otherwise the result is 0.
pub fn starknet_crypto_poseidon_hash_2(
    a: Option<&[u8; FELT_LEN]>,
    b: Option<&[u8; FELT_LEN]>,
    out: Option<&mut [u8; FELT_LEN]>,
) -> (code: i32)
    ensures
        code == -1 <==> (a is None || b is None || out is None),
        code == 0 <==> !(a is None || b is None || out is None),
        code == -1 && out is Some ==> *final(out.unwrap()) == *out.unwrap(),
        code == 0 ==> final(out.unwrap())@ == poseidon_2_output(a.unwrap()@, b.unwrap()@),
        code == 0 ==> encodes_felt(
            final(out.unwrap())@,
            poseidon_hash_many_value(seq![felt_of(a.unwrap()@), felt_of(b.unwrap()@)]),
        ),
{
    match (a, b, out) {
        (Some(a), Some(b), Some(out)) => {
            let pair: Vec<[u8; FELT_LEN]> = vec![*a, *b];
            let h = poseidon_hash_many_le(&pair);
            assert(pair@.map_values(|x: [u8; 32]| felt_of(x@)) =~= seq![felt_of(a@), felt_of(b@)]);
            *out = h;
            0
        },
        _ => -1,
    }
}

/// Computes `poseidon_hash_many` over the `count` field elements that `inputs` holds,
/// 32 little-endian bytes each, and writes its encoding to `out`.  A missing `out`, or a
/// missing `inputs` with a nonzero `count`, is refused with -1 and nothing is written;
/// with `count == 0` the hash of the empty sequence is written whatever `inputs` is.
pub fn starknet_crypto_poseidon_hash_many(
    inputs: Option<&[u8]>,
    count: usize,
    out: Option<&mut [u8; FELT_LEN]>,
) -> (code: i32)
    requires
        inputs matches Some(s) ==> 32 * count <= s@.len(),
    ensures
        code == -1 <==> (out is None || (count > 0 && inputs is None)),
        code == 0 <==> !(out is None || (count > 0 && inputs is None)),
        code == -1 && out is Some ==> *final(out.unwrap()) == *out.unwrap(),
        code == 0 ==> final(out.unwrap())@ == poseidon_many_output(bytes_of(inputs), count as nat),
        code == 0 ==> encodes_felt(
            final(out.unwrap())@,
            poseidon_hash_many_value(felts_of_chunks(bytes_of(inputs), count as nat)),
        ),
        code == 0 && inputs is Some ==> encodes_felt(
            final(out.unwrap())@,
            poseidon_hash_many_value(
                Seq::new(count as nat, |i: int| felt_of(inputs.unwrap()@.subrange(32 * i, 32 * i + 32))),
            ),
        ),
        code == 0 && count == 0 ==> encodes_felt(
            final(out.unwrap())@,
            poseidon_hash_many_value(Seq::<nat>::empty()),
        ),
{
    match out {
        None => -1,
        Some(out) => {
            if count > 0 && inputs.is_none() {
                return -1;
            }
            let felts: Vec<[u8; FELT_LEN]> = match inputs {
                Some(s) => split_felts(s, count),
                None => Vec::new(),
            };
            assert(felts@.map_values(|x: [u8; 32]| felt_of(x@)) =~= felts_of_chunks(bytes_of(inputs), count as nat));
            proof {
                if let Some(b) = inputs {
                    assert(felts_of_chunks(bytes_of(inputs), count as nat) =~= Seq::new(
                        count as nat,
                        |i: int| felt_of(b@.subrange(32 * i, 32 * i + 32)),
                    ));
                }
                assert(felts_of_chunks(bytes_of(inputs), 0) =~= Seq::<nat>::empty());
            }
            *out = poseidon_hash_many_le(&felts);
            0
        },
    }
}

/// `starknet_crypto_poseidon_hash_2` is `starknet_crypto_poseidon_hash_many` over the
/// 64 bytes of its two inputs laid end to end.
pub proof fn poseidon_hash_2_is_hash_many(a: Seq<u8>, b: Seq<u8>)
    requires
        a.len() == 32,
        b.len() == 32,
    ensures
        poseidon_2_output(a, b) == poseidon_many_output(a + b, 2),
{
    let ab = a + b;
    assert(felt_window(ab, 0) =~= a);
    assert(felt_window(ab, 32) =~= b);
    assert(felts_of_chunks(ab, 2) =~= seq![felt_of(a), felt_of(b)]);
}

/// The many-hash reads its inputs straight from the caller's buffer: element `i` is the
/// field element of the whole 32-byte window `[32 * i, 32 * i + 32)`, every byte of it,
/// and there are exactly `count` elements.
pub proof fn poseidon_hash_many_reads_raw_windows(s: &[u8], count: nat, i: int)
    requires
        32 * count <= s@.len(),
        0 <= i < count,
    ensures
        bytes_of(Some(s)) == s@,
        felts_of_chunks(bytes_of(Some(s)), count).len() == count,
        felts_of_chunks(bytes_of(Some(s)), count)[i] == felt_of(s@.subrange(32 * i, 32 * i + 32)),
{
}

/// Two input buffers hash alike whenever their first `count` windows hold the same
/// field elements, and the elements they hash differ wherever one window's element
/// differs: the hash sees each element whole.
pub proof fn poseidon_hash_many_elements_are_windows(s1: &[u8], s2: &[u8], count: nat)
    requires
        32 * count <= s1@.len(),
        32 * count <= s2@.len(),
    ensures
        (forall|i: int| 0 <= i < count ==> felt_of(#[trigger] s1@.subrange(32 * i, 32 * i + 32))
            == felt_of(s2@.subrange(32 * i, 32 * i + 32))) ==> poseidon_many_output(
            bytes_of(Some(s1)),
            count,
        ) == poseidon_many_output(bytes_of(Some(s2)), count),
        (exists|i: int| 0 <= i < count && felt_of(#[trigger] s1@.subrange(32 * i, 32 * i + 32))
            != felt_of(s2@.subrange(32 * i, 32 * i + 32))) ==> felts_of_chunks(
            bytes_of(Some(s1)),
            count,
        ) != felts_of_chunks(bytes_of(Some(s2)), count),
{
    if forall|i: int| 0 <= i < count ==> felt_of(#[trigger] s1@.subrange(32 * i, 32 * i + 32))
        == felt_of(s2@.subrange(32 * i, 32 * i + 32)) {
        assert(felts_of_chunks(bytes_of(Some(s1)), count) =~= felts_of_chunks(bytes_of(Some(s2)), count));
    }
    if exists|i: int| 0 <= i < count && felt_of(#[trigger] s1@.subrange(32 * i, 32 * i + 32))
        != felt_of(s2@.subrange(32 * i, 32 * i + 32)) {
        let i = choose|i: int| 0 <= i < count && felt_of(#[trigger] s1@.subrange(32 * i, 32 * i + 32))
            != felt_of(s2@.subrange(32 * i, 32 * i + 32));
        assert(felts_of_chunks(bytes_of(Some(s1)), count)[i] != felts_of_chunks(bytes_of(Some(s2)), count)[i]);
    }
}

/// With a count of zero nothing is read: the hash of the empty sequence is written,
/// whatever the input buffer holds.
pub proof fn poseidon_hash_many_of_nothing(bytes1: Seq<u8>, bytes2: Seq<u8>)
    ensures
        poseidon_many_output(bytes1, 0) == poseidon_many_output(bytes2, 0),
        felts_of_chunks(bytes1, 0) == Seq::<nat>::empty(),
{
    assert(felts_of_chunks(bytes1, 0) =~= Seq::<nat>::empty());
    assert(felts_of_chunks(bytes2, 0) =~= Seq::<nat>::empty());
}

} // verus!
