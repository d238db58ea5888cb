//! Projective points of BabyJubjub as immutable values.

use crate::bigint::BigUint;
use crate::curve::{
    curve_affine, curve_equals, curve_mul_scalar, curve_projective, is_affine_of, spec_affine,
    spec_equals, spec_projective, spec_scalar_multiple,
};
use crate::error::Error;
use crate::field::{
    biguint_to_hex_string, field_from_decimal, hex_string, modulus, spec_field_of_decimal,
    FieldElement,
};
use crate::ingest::{spec_to_bigint, spec_to_decimal_string, HostValue, HostValueView};
use crate::point::{Point, PointView};
use vstd::arithmetic::div_mod::lemma_small_mod;
use vstd::prelude::*;

verus! {

/// A projective point: three field elements. Triples that differ by a
/// common factor stand for the same point.
#[derive(Clone, Copy, Debug)]
pub struct PointProjective {
    pub(crate) x: FieldElement,
    pub(crate) y: FieldElement,
    pub(crate) z: FieldElement,
}

/// A projective point as a triple of numbers below the field prime.
pub struct ProjectiveView {
    pub x: nat,
    pub y: nat,
    pub z: nat,
}

impl View for PointProjective {
    type V = ProjectiveView;

    open spec fn view(&self) -> ProjectiveView {
        ProjectiveView { x: self.spec_x()@, y: self.spec_y()@, z: self.spec_z()@ }
    }
}

/// The projective point made of three host values. All three are read as
/// integers first, so a failure of that step on any comes before
/// `FieldConstructionError` on any.
pub open spec fn spec_new_projective(
    x: HostValueView,
    y: HostValueView,
    z: HostValueView,
) -> Result<ProjectiveView, Error> {
    match spec_to_decimal_string(x) {
        Err(e) => Err(e),
        Ok(xs) => match spec_to_decimal_string(y) {
            Err(e) => Err(e),
            Ok(ys) => match spec_to_decimal_string(z) {
                Err(e) => Err(e),
                Ok(zs) => match (
                    spec_field_of_decimal(xs),
                    spec_field_of_decimal(ys),
                    spec_field_of_decimal(zs),
                ) {
                    (Some(a), Some(b), Some(c)) => Ok(ProjectiveView { x: a, y: b, z: c }),
                    _ => Err(Error::FieldConstructionError),
                },
            },
        },
    }
}

/// Two projective points are equal when their affine forms are.
pub open spec fn spec_projective_equals(a: ProjectiveView, b: ProjectiveView) -> bool {
    spec_equals(spec_affine(a), spec_affine(b))
}

/// The multiple of a projective point by a host value read as an integer:
/// the affine form is multiplied, and the result made projective again.
pub open spec fn spec_projective_mul_scalar(p: ProjectiveView, n: HostValueView) -> Result<
    ProjectiveView,
    Error,
> {
    match spec_to_bigint(n) {
        Ok(k) => Ok(spec_projective(spec_scalar_multiple(spec_affine(p), k))),
        Err(e) => Err(e),
    }
}

/// How a projective point is written out.
pub open spec fn spec_projective_string(p: ProjectiveView) -> Seq<char> {
    "PointProjective(x="@ + hex_string(p.x) + ", y="@ + hex_string(p.y) + ", z="@ + hex_string(
        p.z,
    ) + ")"@
}

impl PointProjective {
    /// The first coordinate.
    pub closed spec fn spec_x(&self) -> FieldElement {
        self.x
    }

    /// The second coordinate.
    pub closed spec fn spec_y(&self) -> FieldElement {
        self.y
    }

    /// The third coordinate.
    pub closed spec fn spec_z(&self) -> FieldElement {
        self.z
    }

    /// Makes a projective point of three host values, one for each coordinate.
    pub fn new(x: &HostValue, y: &HostValue, z: &HostValue) -> (r: Result<PointProjective, Error>)
        ensures
            match r {
                Ok(p) => spec_new_projective(x@, y@, z@) == Ok::<ProjectiveView, Error>(p@),
                Err(e) => spec_new_projective(x@, y@, z@) == Err::<ProjectiveView, Error>(e),
            },
    {
        let x_str = match x.to_decimal_string() {
            Ok(s) => s,
            Err(e) => { return Err(e); },
        };
        let y_str = match y.to_decimal_string() {
            Ok(s) => s,
            Err(e) => { return Err(e); },
        };
        let z_str = match z.to_decimal_string() {
            Ok(s) => s,
            Err(e) => { return Err(e); },
        };
        match (
            field_from_decimal(x_str.as_str()),
            field_from_decimal(y_str.as_str()),
            field_from_decimal(z_str.as_str()),
        ) {
            (Some(x), Some(y), Some(z)) => Ok(PointProjective { x, y, z }),
            _ => Err(Error::FieldConstructionError),
        }
    }

    /// The first coordinate as a canonical unsigned integer below the field prime.
    pub fn x(&self) -> (r: BigUint)
        ensures
            r.wf(),
            r@ == self@.x,
            r@ < modulus(),
    {
        self.x.to_biguint()
    }

    /// The second coordinate as a canonical unsigned integer below the field prime.
    pub fn y(&self) -> (r: BigUint)
        ensures
            r.wf(),
            r@ == self@.y,
            r@ < modulus(),
    {
        self.y.to_biguint()
    }

    /// The third coordinate as a canonical unsigned integer below the field prime.
    pub fn z(&self) -> (r: BigUint)
        ensures
            r.wf(),
            r@ == self@.z,
            r@ < modulus(),
    {
        self.z.to_biguint()
    }

    /// Writes the point as `PointProjective(x=<hex>, y=<hex>, z=<hex>)`,
    /// each coordinate as its hex string.
    pub fn to_string(&self) -> (r: String)
        ensures
            r@ == spec_projective_string(self@),
    {
        let x = biguint_to_hex_string(self.x());
        let y = biguint_to_hex_string(self.y());
        let z = biguint_to_hex_string(self.z());
        let r = String::from_str("PointProjective(x=").concat(x.as_str()).concat(", y=").concat(
            y.as_str(),
        ).concat(", z=").concat(z.as_str()).concat(")");
        assert(r@ =~= spec_projective_string(self@));
        r
    }

    /// The same rendering as `to_string`.
    pub fn to_debug_string(&self) -> (r: String)
        ensures
            r@ == spec_projective_string(self@),
    {
        self.to_string()
    }

    /// Whether both points have the same affine form.
    pub fn equals(&self, other: &PointProjective) -> (r: bool)
        ensures
            r == spec_projective_equals(self@, other@),
    {
        let a = self.to_affine();
        let b = other.to_affine();
        curve_equals(&a, &b)
    }

    /// The point times `n`, where `n` is read as `to_bigint` reads it. Fails
    /// exactly where that reading fails, with its error. A negative `n`
    /// gives what `-n` gives: the curve library multiplies by the magnitude.
    pub fn mul_scalar(&self, n: &HostValue) -> (r: Result<PointProjective, Error>)
        ensures
            match r {
                Ok(p) => spec_projective_mul_scalar(self@, n@) == Ok::<ProjectiveView, Error>(p@),
                Err(e) => spec_projective_mul_scalar(self@, n@) == Err::<ProjectiveView, Error>(e),
            },
    {
        match n.to_bigint() {
            Ok(k) => {
                let affine = self.to_affine();
                let result = curve_mul_scalar(&affine, &k);
                Ok(curve_projective(&result))
            },
            Err(e) => Err(e),
        }
    }

    /// The same point in affine coordinates: both coordinates divided by
    /// `z` in the field, and the pair of zeros where `z` is zero.
    pub fn to_affine(&self) -> (r: Point)
        ensures
            r@ == spec_affine(self@),
            is_affine_of(r@, self@),
    {
        let r = curve_affine(self);
        proof {
            if self@.z == 1 {
                lemma_small_mod(r@.x, modulus());
                lemma_small_mod(r@.y, modulus());
            }
        }
        r
    }
}

} // verus!
