//! The boundary to the curve arithmetic of `babyjubjub-rs`: what each of
//! its operations is taken to return, and the calls themselves.
//!
//! Each call turns the limbs of a field element into the curve library's
//! `Fr` with `from_repr` and takes limbs back with `into_repr`. `from_repr`
//! accepts every number below the field prime, which every `FieldElement`
//! is by its type invariant.

use crate::bigint::BigInt;
use crate::bytes::le_bytes;
use crate::field::{modulus, FieldElement};
use crate::point::{Point, PointView};
use crate::projective::{PointProjective, ProjectiveView};
use babyjubjub_rs::Fr;
use ff_ce::PrimeField;
use vstd::math::abs;
use vstd::prelude::*;

verus! {

/// The coordinates of `n` times the point `(x, y)`, as the curve library computes the multiple.
pub uninterp spec fn curve_scalar_multiple(x: nat, y: nat, n: nat) -> (nat, nat);

/// The affine coordinates to which the curve library normalises the
/// projective triple `(x, y, z)`.
pub uninterp spec fn curve_normalized(x: nat, y: nat, z: nat) -> (nat, nat);

/// Two to the power 255: the top bit of a 32-byte number.
pub open spec fn top_bit() -> nat {
    0x8000_0000_0000_0000_0000_0000_0000_0000_0000_0000_0000_0000_0000_0000_0000_0000nat
}

/// Two affine points are equal when their coordinates are.
pub open spec fn spec_equals(a: PointView, b: PointView) -> bool {
    a.x == b.x && a.y == b.y
}

/// The projective form of an affine point: the same coordinates, and one for `z`.
pub open spec fn spec_projective(p: PointView) -> ProjectiveView {
    ProjectiveView { x: p.x, y: p.y, z: 1 }
}

/// The affine form of a projective point. With one for `z` the
/// coordinates stay as they are; else the curve library's normalisation decides.
/// `is_affine_of` says what holds of it.
pub open spec fn spec_affine(p: ProjectiveView) -> PointView {
    if p.z == 1 {
        PointView { x: p.x, y: p.y }
    } else {
        PointView { x: curve_normalized(p.x, p.y, p.z).0, y: curve_normalized(p.x, p.y, p.z).1 }
    }
}

/// What the affine form `a` of a projective point `p` has to meet. With
/// zero for `z` it is the pair of zeros. Else each coordinate of `a` times
/// `z` is the coordinate of `p`, modulo the field prime.
pub open spec fn is_affine_of(a: PointView, p: ProjectiveView) -> bool {
    &&& a.x < modulus()
    &&& a.y < modulus()
    &&& p.z == 0 ==> a.x == 0 && a.y == 0
    &&& p.z != 0 ==> (a.x * p.z) % modulus() == p.x && (a.y * p.z) % modulus() == p.y
}

/// The affine point `n` times `p`. The curve library looks at the
/// magnitude of the scalar only: a negative `n` gives what `-n` gives.
pub open spec fn spec_scalar_multiple(p: PointView, n: int) -> PointView {
    PointView {
        x: curve_scalar_multiple(p.x, p.y, abs(n)).0,
        y: curve_scalar_multiple(p.x, p.y, abs(n)).1,
    }
}

/// The compressed encoding of `p`: the 32 bytes of `y`, least significant
/// first, with the top bit of the last byte set where `x` is above half the
/// field prime.
pub open spec fn spec_compress(p: PointView) -> Seq<u8> {
    if p.x > modulus() / 2 {
        le_bytes(p.y + top_bit(), 32)
    } else {
        le_bytes(p.y, 32)
    }
}

/// Calls `equals` of `babyjubjub_rs::Point`. Claims what its source
/// shows: the result tells whether both coordinates are the same field elements.
#[verifier::external_body]
pub(crate) fn curve_equals(a: &Point, b: &Point) -> (r: bool)
    ensures
        r == spec_equals(a@, b@),
{
    let fr = |e: &FieldElement| {
        let mut t = <Fr as PrimeField>::Repr::default();
        t.0 = e.limbs;
        Fr::from_repr(t).unwrap()
    };
    let other = babyjubjub_rs::Point { x: fr(&b.x), y: fr(&b.y) };
    babyjubjub_rs::Point { x: fr(&a.x), y: fr(&a.y) }.equals(other)
}

/// Calls `compress` of `babyjubjub_rs::Point`. Claims what its source
/// shows: the 32 bytes are `y`, least significant byte first, and the top
/// bit of the last byte is set where `x` is above half the field prime.
#[verifier::external_body]
pub(crate) fn curve_compress(p: &Point) -> (r: Vec<u8>)
    ensures
        r@ == spec_compress(p@),
{
    let fr = |e: &FieldElement| {
        let mut t = <Fr as PrimeField>::Repr::default();
        t.0 = e.limbs;
        Fr::from_repr(t).unwrap()
    };
    babyjubjub_rs::Point { x: fr(&p.x), y: fr(&p.y) }.compress().to_vec()
}

/// Calls `mul_scalar` of `babyjubjub_rs::Point` with the `num_bigint`
/// integer of the same value. Claims that the point it returns depends on
/// the coordinates and on the magnitude of the scalar alone (the source
/// walks the bits of the magnitude and never reads the sign), and that its
/// coordinates, taken with `into_repr`, are below the field prime.
#[verifier::external_body]
pub(crate) fn curve_mul_scalar(p: &Point, n: &BigInt) -> (r: Point)
    ensures
        (r@.x, r@.y) == curve_scalar_multiple(p@.x, p@.y, abs(n@)),
        r@.x < modulus() && r@.y < modulus(),
{
    let fr = |e: &FieldElement| {
        let mut t = <Fr as PrimeField>::Repr::default();
        t.0 = e.limbs;
        Fr::from_repr(t).unwrap()
    };
    let sign = if n.is_negative() { num_bigint::Sign::Minus } else { num_bigint::Sign::Plus };
    let k = num_bigint::BigInt::from_bytes_be(sign, &n.magnitude().to_bytes_be());
    let q = babyjubjub_rs::Point { x: fr(&p.x), y: fr(&p.y) }.mul_scalar(&k);
    Point {
        x: FieldElement { limbs: q.x.into_repr().0 },
        y: FieldElement { limbs: q.y.into_repr().0 },
    }
}

/// Calls `projective` of `babyjubjub_rs::Point`. Claims what its source
/// shows: the coordinates are kept and `z` is the field's one.
#[verifier::external_body]
pub(crate) fn curve_projective(p: &Point) -> (r: PointProjective)
    ensures
        r@ == spec_projective(p@),
        r@.x < modulus() && r@.y < modulus() && r@.z < modulus(),
{
    let fr = |e: &FieldElement| {
        let mut t = <Fr as PrimeField>::Repr::default();
        t.0 = e.limbs;
        Fr::from_repr(t).unwrap()
    };
    let q = babyjubjub_rs::Point { x: fr(&p.x), y: fr(&p.y) }.projective();
    PointProjective {
        x: FieldElement { limbs: q.x.into_repr().0 },
        y: FieldElement { limbs: q.y.into_repr().0 },
        z: FieldElement { limbs: q.z.into_repr().0 },
    }
}

/// Calls `affine` of `babyjubjub_rs::PointProjective`. Claims what its
/// source shows: with zero for `z` both coordinates are zero; else both
/// are multiplied by the inverse of `z`, so that each times `z` is the
/// coordinate it came from, modulo the field prime. Claims further that the
/// point depends on the three coordinates alone, and that its coordinates,
/// taken with `into_repr`, are below the field prime.
#[verifier::external_body]
pub(crate) fn curve_affine(p: &PointProjective) -> (r: Point)
    ensures
        p@.z == 0 ==> r@.x == 0 && r@.y == 0,
        p@.z != 0 ==> (r@.x * p@.z) % modulus() == p@.x && (r@.y * p@.z) % modulus() == p@.y,
        p@.z != 1 ==> (r@.x, r@.y) == curve_normalized(p@.x, p@.y, p@.z),
        r@.x < modulus() && r@.y < modulus(),
{
    let fr = |e: &FieldElement| {
        let mut t = <Fr as PrimeField>::Repr::default();
        t.0 = e.limbs;
        Fr::from_repr(t).unwrap()
    };
    let q = babyjubjub_rs::PointProjective { x: fr(&p.x), y: fr(&p.y), z: fr(&p.z) }.affine();
    Point {
        x: FieldElement { limbs: q.x.into_repr().0 },
        y: FieldElement { limbs: q.y.into_repr().0 },
    }
}

} // verus!
