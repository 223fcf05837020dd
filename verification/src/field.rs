//! The Stark field and the 32-byte little-endian encoding of its elements.
//!
//! Every value that crosses the library's interface is a buffer of 32 bytes holding a
//! little-endian integer.  A buffer is read as the field element that integer leaves
//! modulo the Stark prime, and every field element the library writes is the canonical
//! encoding of a value below the prime.
use vstd::arithmetic::div_mod::*;
use vstd::arithmetic::mul::*;
use vstd::prelude::*;

verus! {

/// Number of bytes in an encoded field element.
pub const FELT_LEN: usize = 32;

/// The Stark prime, 2^251 + 17 * 2^192 + 1.
pub open spec fn stark_prime() -> nat {
    0x800000000000011000000000000000000000000000000000000000000000001nat
}

/// 2^251, the exclusive bound that ECDSA puts on message hashes, `r` and `s`.
pub open spec fn element_upper_bound() -> nat {
    0x800000000000000000000000000000000000000000000000000000000000000nat
}

/// The order of the Stark curve's generator.
pub open spec fn ec_order() -> nat {
    0x800000000000010ffffffffffffffffb781126dcae7b2321e66a241adc64d2fnat
}

/// 256 to the power `n`.
pub open spec fn byte_pow(n: nat) -> nat
    decreases n,
{
    if n == 0 {
        1
    } else {
        256 * byte_pow((n - 1) as nat)
    }
}

/// The integer that the bytes `s` hold, least significant byte first.
pub open spec fn le_nat(s: Seq<u8>) -> nat
    decreases s.len(),
{
    if s.len() == 0 {
        0
    } else {
        s[0] as nat + 256 * le_nat(s.drop_first())
    }
}

/// The field element that an encoded buffer stands for.
pub open spec fn felt_of(s: Seq<u8>) -> nat {
    le_nat(s) % stark_prime()
}

/// The `n` least significant bytes of `v`, least significant first.
pub open spec fn le_bytes(v: nat, n: nat) -> Seq<u8>
    decreases n,
{
    if n == 0 {
        Seq::empty()
    } else {
        seq![(v % 256) as u8] + le_bytes(v / 256, (n - 1) as nat)
    }
}

/// The canonical 32-byte encoding of the field element `v`.
pub open spec fn felt_bytes(v: nat) -> Seq<u8> {
    le_bytes(v, 32)
}

/// `s` is the canonical encoding of the field element `v`.
pub open spec fn encodes_felt(s: Seq<u8>, v: nat) -> bool {
    &&& v < stark_prime()
    &&& s == felt_bytes(v)
}

/// The 32 bytes of `s` that start at `start`.
pub open spec fn felt_window(s: Seq<u8>, start: int) -> Seq<u8> {
    s.subrange(start, start + 32)
}

pub proof fn lemma_le_bytes_len(v: nat, n: nat)
    ensures
        le_bytes(v, n).len() == n,
    decreases n,
{
    if n > 0 {
        lemma_le_bytes_len(v / 256, (n - 1) as nat);
    }
}

pub proof fn lemma_byte_pow_pos(n: nat)
    ensures
        byte_pow(n) > 0,
    decreases n,
{
    if n > 0 {
        lemma_byte_pow_pos((n - 1) as nat);
    }
}

/// Reading back the `n` low bytes of `v` gives `v` modulo 256^n.
pub proof fn lemma_le_nat_le_bytes(v: nat, n: nat)
    ensures
        le_nat(le_bytes(v, n)) == v % byte_pow(n),
    decreases n,
{
    lemma_le_bytes_len(v, n);
    if n == 0 {
        assert(le_bytes(v, n) =~= Seq::<u8>::empty());
    } else {
        let m = (n - 1) as nat;
        let s = le_bytes(v, n);
        lemma_le_nat_le_bytes(v / 256, m);
        assert(s.drop_first() =~= le_bytes(v / 256, m));
        lemma_byte_pow_pos(m);
        lemma_mod_breakdown(v as int, 256, byte_pow(m) as int);
        assert(s[0] as nat == v % 256);
    }
}

pub proof fn lemma_byte_pow_32()
    ensures
        byte_pow(32) == 0x10000000000000000000000000000000000000000000000000000000000000000nat,
{
    reveal_with_fuel(byte_pow, 33);
}

/// Decoding the canonical encoding of a field element gives the element back.
pub proof fn lemma_felt_bytes_roundtrip(v: nat)
    requires
        v < stark_prime(),
    ensures
        felt_bytes(v).len() == 32,
        le_nat(felt_bytes(v)) == v,
        felt_of(felt_bytes(v)) == v,
{
    lemma_le_bytes_len(v, 32);
    lemma_le_nat_le_bytes(v, 32);
    lemma_byte_pow_32();
    lemma_small_mod(v, byte_pow(32));
    lemma_small_mod(v, stark_prime());
}

/// A canonical encoding holds the value it encodes.
pub proof fn lemma_encoded_value(b: Seq<u8>, v: nat)
    requires
        encodes_felt(b, v),
    ensures
        b.len() == 32,
        le_nat(b) == v,
        felt_of(b) == v,
{
    lemma_felt_bytes_roundtrip(v);
}

/// A buffer holds zero exactly when all its bytes are zero.
pub proof fn lemma_le_nat_zero(s: Seq<u8>)
    ensures
        le_nat(s) == 0 <==> forall|i: int| 0 <= i < s.len() ==> s[i] == 0,
    decreases s.len(),
{
    if s.len() > 0 {
        lemma_le_nat_zero(s.drop_first());
        if le_nat(s) == 0 {
            assert forall|i: int| 0 <= i < s.len() implies s[i] == 0 by {
                if i > 0 {
                    assert(s[i] == s.drop_first()[i - 1]);
                }
            }
        }
        if forall|i: int| 0 <= i < s.len() ==> s[i] == 0 {
            assert forall|i: int| 0 <= i < s.drop_first().len() implies s.drop_first()[i] == 0 by {
                assert(s.drop_first()[i] == s[i + 1]);
            }
        }
    }
}

/// The integer a buffer holds is below 256 to the power of its length.
pub proof fn lemma_le_nat_bound(s: Seq<u8>)
    ensures
        le_nat(s) < byte_pow(s.len()),
    decreases s.len(),
{
    if s.len() > 0 {
        lemma_le_nat_bound(s.drop_first());
        let m = le_nat(s.drop_first());
        let b = byte_pow((s.len() - 1) as nat);
        assert(256 * m <= 256 * (b - 1)) by (nonlinear_arith)
            requires
                m < b,
        ;
    }
}

/// The integer a buffer holds splits at any point into a low and a high part.
pub proof fn lemma_le_nat_append(s: Seq<u8>, t: Seq<u8>)
    ensures
        le_nat(s + t) == le_nat(s) + byte_pow(s.len()) * le_nat(t),
    decreases s.len(),
{
    if s.len() == 0 {
        assert(s + t =~= t);
    } else {
        lemma_le_nat_append(s.drop_first(), t);
        assert((s + t).drop_first() =~= s.drop_first() + t);
        assert((s + t)[0] == s[0]);
        assert(le_nat(s + t) == s[0] as nat + 256 * le_nat(s.drop_first() + t));
        assert(byte_pow(s.len()) == 256 * byte_pow((s.len() - 1) as nat));
        let a = le_nat(s.drop_first());
        let b = byte_pow((s.len() - 1) as nat);
        let c = le_nat(t);
        assert(256 * (a + b * c) == 256 * a + (256 * b) * c) by (nonlinear_arith);
    }
}

/// The integer in 32 bytes lies below 2^251 exactly when its top byte is below 8.
pub proof fn lemma_le_nat_below_upper_bound(s: Seq<u8>)
    requires
        s.len() == 32,
    ensures
        le_nat(s) < element_upper_bound() <==> s[31] < 8,
{
    let low = s.take(31);
    let high = seq![s[31]];
    assert(s =~= low + high);
    lemma_le_nat_append(low, high);
    lemma_le_nat_bound(low);
    assert(le_nat(high) == s[31] as nat) by {
        assert(high.drop_first() =~= Seq::<u8>::empty());
        assert(le_nat(Seq::<u8>::empty()) == 0);
        assert(le_nat(high) == high[0] as nat + 256 * le_nat(high.drop_first()));
    }
    reveal_with_fuel(byte_pow, 32);
    assert(byte_pow(31) == 0x100000000000000000000000000000000000000000000000000000000000000nat);
    let l = le_nat(low);
    let h = s[31] as nat;
    assert(l + 0x100000000000000000000000000000000000000000000000000000000000000nat * h
        < 0x800000000000000000000000000000000000000000000000000000000000000nat <==> h < 8)
        by (nonlinear_arith)
        requires
            l < 0x100000000000000000000000000000000000000000000000000000000000000nat,
    ;
}

/// The integer a buffer holds is odd exactly when its first byte is.
pub proof fn lemma_le_nat_parity(s: Seq<u8>)
    requires
        s.len() > 0,
    ensures
        le_nat(s) % 2 == s[0] % 2,
{
    let h = le_nat(s.drop_first());
    assert((s[0] as nat + 256 * h) % 2 == s[0] % 2) by (nonlinear_arith);
}

/// Of two buffers of one length that agree above index `i`, the one with the smaller
/// byte at `i` holds the smaller integer.
pub proof fn lemma_le_nat_lt_at(a: Seq<u8>, b: Seq<u8>, i: int)
    requires
        a.len() == b.len(),
        0 <= i < a.len(),
        a[i] < b[i],
        forall|j: int| i < j < a.len() ==> a[j] == b[j],
    ensures
        le_nat(a) < le_nat(b),
    decreases i,
{
    if i == 0 {
        assert(a.drop_first() =~= b.drop_first());
    } else {
        assert forall|j: int| i - 1 < j < a.drop_first().len() implies a.drop_first()[j]
            == b.drop_first()[j] by {
            assert(a.drop_first()[j] == a[j + 1]);
            assert(b.drop_first()[j] == b[j + 1]);
        }
        lemma_le_nat_lt_at(a.drop_first(), b.drop_first(), i - 1);
    }
}

/// Compares the integers that two 32-byte buffers hold.
pub fn le_lt(a: &[u8; FELT_LEN], b: &[u8; FELT_LEN]) -> (lt: bool)
    ensures
        lt == (le_nat(a@) < le_nat(b@)),
{
    let mut i: usize = FELT_LEN;
    while i > 0
        invariant
            i <= 32,
            a@.len() == 32,
            b@.len() == 32,
            forall|j: int| i <= j < 32 ==> a@[j] == b@[j],
        decreases i,
    {
        let k = i - 1;
        if a[k] != b[k] {
            proof {
                if a@[k as int] < b@[k as int] {
                    lemma_le_nat_lt_at(a@, b@, k as int);
                } else {
                    lemma_le_nat_lt_at(b@, a@, k as int);
                }
            }
            return a[k] < b[k];
        }
        i = k;
    }
    assert(a@ =~= b@);
    false
}

/// A 32-byte buffer whose bytes past the first are zero holds its first byte.
pub proof fn lemma_le_nat_one_byte(s: Seq<u8>)
    requires
        s.len() == 32,
        forall|j: int| 0 < j < 32 ==> s[j] == 0,
    ensures
        le_nat(s) == s[0] as nat,
        felt_of(s) == s[0] as nat,
{
    lemma_le_nat_zero(s.drop_first());
    assert forall|j: int| 0 <= j < s.drop_first().len() implies s.drop_first()[j] == 0 by {
        assert(s.drop_first()[j] == s[j + 1]);
    }
    lemma_small_mod(s[0] as nat, stark_prime());
}

/// The little-endian bytes of the group order.
pub open spec fn ec_order_bytes() -> Seq<u8> {
    seq![0x2fu8, 0x4du8, 0xc6u8, 0xadu8, 0x41u8, 0xa2u8, 0x66u8, 0x1eu8, 0x32u8, 0xb2u8, 0xe7u8, 0xcau8, 0x6du8, 0x12u8, 0x81u8, 0xb7u8, 0xffu8, 0xffu8, 0xffu8, 0xffu8, 0xffu8, 0xffu8, 0xffu8, 0xffu8, 0x10u8, 0x00u8, 0x00u8, 0x00u8, 0x00u8, 0x00u8, 0x00u8, 0x08u8]
}

pub proof fn lemma_ec_order_bytes()
    ensures
        ec_order_bytes().len() == 32,
        le_nat(ec_order_bytes()) == ec_order(),
        felt_of(ec_order_bytes()) == ec_order(),
{
    reveal_with_fuel(le_nat, 33);
    lemma_small_mod(ec_order(), stark_prime());
}

/// The group order, encoded.
pub fn ec_order_le() -> (n: [u8; FELT_LEN])
    ensures
        n@ == ec_order_bytes(),
        felt_of(n@) == ec_order(),
{
    let n: [u8; FELT_LEN] = [0x2f, 0x4d, 0xc6, 0xad, 0x41, 0xa2, 0x66, 0x1e, 0x32, 0xb2, 0xe7, 0xca, 0x6d, 0x12, 0x81, 0xb7, 0xff, 0xff, 0xff, 0xff, 0xff, 0xff, 0xff, 0xff, 0x10, 0x00, 0x00, 0x00, 0x00, 0x00, 0x00, 0x08];
    assert(n@ =~= ec_order_bytes());
    proof {
        lemma_ec_order_bytes();
    }
    n
}

/// Copies the 32 bytes of `s` that start at `start`.
pub fn felt_bytes_at(s: &[u8], start: usize) -> (r: [u8; FELT_LEN])
    requires
        start + 32 <= s@.len(),
    ensures
        r@ == felt_window(s@, start as int),
{
    let len: usize = s.len();
    let mut r = [0u8; FELT_LEN];
    let mut i: usize = 0;
    while i < FELT_LEN
        invariant
            i <= 32,
            len == s@.len(),
            start + 32 <= len,
            r@.len() == 32,
            forall|j: int| 0 <= j < i ==> r@[j] == s@[start + j],
        decreases 32 - i,
    {
        r[i] = s[start + i];
        i = i + 1;
    }
    assert(r@ =~= felt_window(s@, start as int));
    r
}

} // verus!
