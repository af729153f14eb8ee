//! The scalar-field boundary: 256-bit encodings of field elements and the
//! arithmetic they support, performed by the arkworks field backend.

use vstd::prelude::*;
use ark_ff::Field;
use ark_ff::PrimeField;

verus! {

/// A 256-bit unsigned integer, stored as four 64-bit limbs in little-endian
/// order. It encodes a field element when its value is strictly below the
/// field modulus.
#[derive(Clone, Copy, PartialEq, Eq, Structural, Debug)]
pub struct Uint256 {
    pub l0: u64,
    pub l1: u64,
    pub l2: u64,
    pub l3: u64,
}

/// The integer value of an encoding.
pub open spec fn u_val(e: Uint256) -> nat {
    (e.l0 + e.l1 * 0x10000000000000000 + e.l2 * 0x100000000000000000000000000000000
        + e.l3 * 0x1000000000000000000000000000000000000000000000000) as nat
}

/// The integer value of four little-endian limbs.
pub open spec fn limb_val(l: [u64; 4]) -> nat {
    (l[0] + l[1] * 0x10000000000000000 + l[2] * 0x100000000000000000000000000000000
        + l[3] * 0x1000000000000000000000000000000000000000000000000) as nat
}

/// The BN254 scalar-field modulus.
pub open spec fn p_modulus() -> nat {
    21888242871839275222246405745257275088548364400416034343698204186575808495617nat
}

/// The values of a sequence of encodings.
pub open spec fn vals(s: Seq<Uint256>) -> Seq<nat> {
    s.map(|i: int, e: Uint256| u_val(e))
}

/// The values of a sequence of limb quadruples.
pub open spec fn limb_vals(s: Seq<[u64; 4]>) -> Seq<nat> {
    s.map(|i: int, l: [u64; 4]| limb_val(l))
}

/// The values of a concatenation are the concatenated values.
pub proof fn lemma_vals_concat(a: Seq<Uint256>, b: Seq<Uint256>)
    ensures
        vals(a + b) == vals(a) + vals(b),
{
    assert(vals(a + b) =~= vals(a) + vals(b));
}

/// Builds the encodings of an array of little-endian limb quadruples.
pub fn from_limbs<const N: usize>(a: &[[u64; 4]; N]) -> (v: Vec<Uint256>)
    ensures
        v@.len() == N,
        vals(v@) == limb_vals(a@),
{
    let mut v: Vec<Uint256> = Vec::new();
    let mut i: usize = 0;
    while i < N
        invariant
            i <= N,
            v@.len() == i,
            forall|j: int| 0 <= j < i ==> u_val(v@[j]) == limb_val(a@[j]),
        decreases N - i,
    {
        let l = a[i];
        v.push(uint256(l[0], l[1], l[2], l[3]));
        i += 1;
    }
    proof {
        assert(vals(v@) =~= limb_vals(a@));
    }
    v
}

/// Builds an encoding from its four little-endian limbs.
pub fn uint256(l0: u64, l1: u64, l2: u64, l3: u64) -> (r: Uint256)
    ensures
        r == (Uint256 { l0, l1, l2, l3 }),
{
    Uint256 { l0, l1, l2, l3 }
}

/// Relies on ark_ff's `PrimeField::from_le_bytes_mod_order` (reads
/// little-endian bytes, reducing modulo the field's prime), field addition of
/// `ark_bn254::Fr`, and `PrimeField::into_bigint` (the canonical
/// representative, below the modulus).
#[verifier::external_body]
pub fn fe_add(a: Uint256, b: Uint256) -> (r: Uint256)
    ensures
        u_val(r) == (u_val(a) + u_val(b)) % p_modulus(),
        u_val(r) < p_modulus(),
{
    let x = ark_bn254::Fr::from_le_bytes_mod_order(
        &[a.l0.to_le_bytes(), a.l1.to_le_bytes(), a.l2.to_le_bytes(), a.l3.to_le_bytes()].concat());
    let y = ark_bn254::Fr::from_le_bytes_mod_order(
        &[b.l0.to_le_bytes(), b.l1.to_le_bytes(), b.l2.to_le_bytes(), b.l3.to_le_bytes()].concat());
    let o = (x + y).into_bigint().0;
    Uint256 { l0: o[0], l1: o[1], l2: o[2], l3: o[3] }
}

/// Relies on ark_ff's `PrimeField::from_le_bytes_mod_order`, field
/// multiplication of `ark_bn254::Fr`, and `PrimeField::into_bigint`.
#[verifier::external_body]
pub fn fe_mul(a: Uint256, b: Uint256) -> (r: Uint256)
    ensures
        u_val(r) == (u_val(a) * u_val(b)) % p_modulus(),
        u_val(r) < p_modulus(),
{
    let x = ark_bn254::Fr::from_le_bytes_mod_order(
        &[a.l0.to_le_bytes(), a.l1.to_le_bytes(), a.l2.to_le_bytes(), a.l3.to_le_bytes()].concat());
    let y = ark_bn254::Fr::from_le_bytes_mod_order(
        &[b.l0.to_le_bytes(), b.l1.to_le_bytes(), b.l2.to_le_bytes(), b.l3.to_le_bytes()].concat());
    let o = (x * y).into_bigint().0;
    Uint256 { l0: o[0], l1: o[1], l2: o[2], l3: o[3] }
}

/// Relies on ark_ff's `PrimeField::from_le_bytes_mod_order`, `Field::pow`
/// (exponentiation by the little-endian exponent words), and
/// `PrimeField::into_bigint`.
#[verifier::external_body]
pub fn fe_pow5(a: Uint256) -> (r: Uint256)
    ensures
        u_val(r) == (u_val(a) * u_val(a) * u_val(a) * u_val(a) * u_val(a)) % p_modulus(),
        u_val(r) < p_modulus(),
{
    let x = ark_bn254::Fr::from_le_bytes_mod_order(
        &[a.l0.to_le_bytes(), a.l1.to_le_bytes(), a.l2.to_le_bytes(), a.l3.to_le_bytes()].concat());
    let o = x.pow([5u64]).into_bigint().0;
    Uint256 { l0: o[0], l1: o[1], l2: o[2], l3: o[3] }
}

/// Whether an encoding is canonical, i.e. strictly below the field modulus.
pub fn is_canonical(e: Uint256) -> (r: bool)
    ensures
        r <==> u_val(e) < p_modulus(),
{
    proof {
        lemma_limb_order(e);
    }
    e.l3 < 0x30644e72e131a029
        || (e.l3 == 0x30644e72e131a029
            && (e.l2 < 0xb85045b68181585d
                || (e.l2 == 0xb85045b68181585d
                    && (e.l1 < 0x2833e84879b97091
                        || (e.l1 == 0x2833e84879b97091 && e.l0 < 0x43e1f593f0000001)))))
}

/// An encoding is determined by its value: two encodings of equal value are
/// limb-for-limb the same. Together with the hash contract, two calls on
/// equal inputs return the identical digest encoding.
pub proof fn lemma_u_val_injective(a: Uint256, b: Uint256)
    requires
        u_val(a) == u_val(b),
    ensures
        a == b,
{
    let b1: int = 0x10000000000000000int;
    let d1: int = a.l1 - b.l1;
    let d2: int = a.l2 - b.l2;
    let d3: int = a.l3 - b.l3;
    let inner: int = d1 + d2 * b1 + d3 * b1 * b1;
    assert(a.l0 - b.l0 == -(inner * b1)) by (nonlinear_arith)
        requires
            u_val(a) == u_val(b),
            b1 == 0x10000000000000000int,
            d1 == a.l1 - b.l1,
            d2 == a.l2 - b.l2,
            d3 == a.l3 - b.l3,
            inner == d1 + d2 * b1 + d3 * b1 * b1;
    assert(inner == 0) by (nonlinear_arith)
        requires
            a.l0 - b.l0 == -(inner * b1),
            -b1 < a.l0 - b.l0 < b1,
            b1 == 0x10000000000000000int;
    assert(a.l0 == b.l0);
    let inner2: int = d2 + d3 * b1;
    assert(d1 == -(inner2 * b1)) by (nonlinear_arith)
        requires
            inner == 0,
            inner == d1 + d2 * b1 + d3 * b1 * b1,
            inner2 == d2 + d3 * b1,
            b1 == 0x10000000000000000int;
    assert(inner2 == 0) by (nonlinear_arith)
        requires
            d1 == -(inner2 * b1),
            -b1 < d1 < b1,
            b1 == 0x10000000000000000int;
    assert(a.l1 == b.l1);
    assert(d2 == -(d3 * b1)) by (nonlinear_arith)
        requires
            inner2 == 0,
            inner2 == d2 + d3 * b1;
    assert(d3 == 0) by (nonlinear_arith)
        requires
            d2 == -(d3 * b1),
            -b1 < d2 < b1,
            b1 == 0x10000000000000000int;
    assert(a.l2 == b.l2 && a.l3 == b.l3);
}

/// The limb-wise comparison against the modulus agrees with the comparison of
/// the encoded values.
proof fn lemma_limb_order(e: Uint256)
    ensures
        (u_val(e) < p_modulus()) <==> (e.l3 < 0x30644e72e131a029
            || (e.l3 == 0x30644e72e131a029
                && (e.l2 < 0xb85045b68181585d
                    || (e.l2 == 0xb85045b68181585d
                        && (e.l1 < 0x2833e84879b97091
                            || (e.l1 == 0x2833e84879b97091 && e.l0 < 0x43e1f593f0000001)))))),
{
    let p3: int = 0x30644e72e131a029int;
    let p2: int = 0xb85045b68181585dint;
    let p1: int = 0x2833e84879b97091int;
    let p0: int = 0x43e1f593f0000001int;
    let b1: int = 0x10000000000000000int;
    let b2: int = 0x100000000000000000000000000000000int;
    let b3: int = 0x1000000000000000000000000000000000000000000000000int;
    let v: int = e.l0 + e.l1 * b1 + e.l2 * b2 + e.l3 * b3;
    assert(u_val(e) == v);
    assert(p_modulus() == p0 + p1 * b1 + p2 * b2 + p3 * b3);
    if e.l3 < p3 {
        assert(v <= b1 - 1 + (b1 - 1) * b1 + (b1 - 1) * b2 + (p3 - 1) * b3);
    } else if e.l3 == p3 {
        if e.l2 < p2 {
            assert(v <= b1 - 1 + (b1 - 1) * b1 + (p2 - 1) * b2 + p3 * b3);
        } else if e.l2 == p2 {
            if e.l1 < p1 {
                assert(v <= b1 - 1 + (p1 - 1) * b1 + p2 * b2 + p3 * b3);
            } else if e.l1 == p1 {
                assert(e.l0 < p0 ==> v < p_modulus());
                assert(e.l0 >= p0 ==> v >= p_modulus());
            } else {
                assert(v >= (p1 + 1) * b1 + p2 * b2 + p3 * b3);
            }
        } else {
            assert(v >= (p2 + 1) * b2 + p3 * b3);
        }
    } else {
        assert(v >= (p3 + 1) * b3);
    }
}

} // verus!
