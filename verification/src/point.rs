//! Affine points of BabyJubjub as immutable values.

use crate::bigint::BigUint;
use crate::bytes::lemma_le_bytes_len;
use crate::curve::{
    curve_compress, curve_equals, curve_mul_scalar, curve_projective, spec_compress, spec_equals,
    spec_projective, spec_scalar_multiple, top_bit,
};
use crate::error::Error;
use crate::field::{
    biguint_to_hex_string, field_from_decimal, hex_string, hex_with_prefix, modulus,
    spec_field_of_decimal, FieldElement,
};
use crate::ingest::{spec_to_bigint, spec_to_decimal_string, HostValue, HostValueView};
use crate::numeral::hex_encoding;
use crate::projective::PointProjective;
use vstd::prelude::*;

verus! {

/// An affine point: two field elements. Whether they satisfy the curve
/// equation is not looked at here.
#[derive(Clone, Copy, Debug)]
pub struct Point {
    pub(crate) x: FieldElement,
    pub(crate) y: FieldElement,
}

/// An affine point as a pair of numbers below the field prime.
pub struct PointView {
    pub x: nat,
    pub y: nat,
}

impl View for Point {
    type V = PointView;

    open spec fn view(&self) -> PointView {
        PointView { x: self.spec_x()@, y: self.spec_y()@ }
    }
}

/// The point made of two host values. Both are read as integers first,
/// so a failure of that step on either comes before
/// `FieldConstructionError` on any.
pub open spec fn spec_new_point(x: HostValueView, y: HostValueView) -> Result<PointView, Error> {
    match spec_to_decimal_string(x) {
        Err(e) => Err(e),
        Ok(xs) => match spec_to_decimal_string(y) {
            Err(e) => Err(e),
            Ok(ys) => match (spec_field_of_decimal(xs), spec_field_of_decimal(ys)) {
                (Some(a), Some(b)) => Ok(PointView { x: a, y: b }),
                _ => Err(Error::FieldConstructionError),
            },
        },
    }
}

/// The multiple of a point by a host value read as an integer.
pub open spec fn spec_mul_scalar(p: PointView, n: HostValueView) -> Result<PointView, Error> {
    match spec_to_bigint(n) {
        Ok(k) => Ok(spec_scalar_multiple(p, k)),
        Err(e) => Err(e),
    }
}

/// How a point is written out.
pub open spec fn spec_point_string(p: PointView) -> Seq<char> {
    "Point(x="@ + hex_string(p.x) + ", y="@ + hex_string(p.y) + ")"@
}

/// The compressed encoding as a hex string: `0x`, then the hex encoding of the bytes.
pub open spec fn spec_compress_hex(p: PointView) -> Seq<char> {
    seq!['0', 'x'] + hex_encoding(spec_compress(p))
}

impl Point {
    /// The first coordinate.
    pub closed spec fn spec_x(&self) -> FieldElement {
        self.x
    }

    /// The second coordinate.
    pub closed spec fn spec_y(&self) -> FieldElement {
        self.y
    }

    /// Makes a point of two host values, one for each coordinate.
    pub fn new(x: &HostValue, y: &HostValue) -> (r: Result<Point, Error>)
        ensures
            match r {
                Ok(p) => spec_new_point(x@, y@) == Ok::<PointView, Error>(p@),
                Err(e) => spec_new_point(x@, y@) == Err::<PointView, Error>(e),
            },
    {
        let x_str = match x.to_decimal_string() {
            Ok(s) => s,
            Err(e) => { return Err(e); },
        };
        let y_str = match y.to_decimal_string() {
            Ok(s) => s,
            Err(e) => { return Err(e); },
        };
        match (field_from_decimal(x_str.as_str()), field_from_decimal(y_str.as_str())) {
            (Some(x), Some(y)) => Ok(Point { x, y }),
            _ => Err(Error::FieldConstructionError),
        }
    }

    /// The first coordinate as a canonical unsigned integer below the field prime.
    pub fn x(&self) -> (r: BigUint)
        ensures
            r.wf(),
            r@ == self@.x,
            r@ < modulus(),
    {
        self.x.to_biguint()
    }

    /// The second coordinate as a canonical unsigned integer below the field prime.
    pub fn y(&self) -> (r: BigUint)
        ensures
            r.wf(),
            r@ == self@.y,
            r@ < modulus(),
    {
        self.y.to_biguint()
    }

    /// The coordinates by name: `x` first, then `y`.
    pub fn to_dict(&self) -> (r: Vec<(String, BigUint)>)
        ensures
            r@.len() == 2,
            r@[0].0@ == seq!['x'] && r@[0].1.wf() && r@[0].1@ == self@.x,
            r@[1].0@ == seq!['y'] && r@[1].1.wf() && r@[1].1@ == self@.y,
    {
        proof {
            reveal_strlit("x");
            reveal_strlit("y");
            assert("x"@ =~= seq!['x']);
            assert("y"@ =~= seq!['y']);
        }
        let mut dict: Vec<(String, BigUint)> = Vec::new();
        dict.push((String::from_str("x"), self.x()));
        dict.push((String::from_str("y"), self.y()));
        dict
    }

    /// Writes the point as `Point(x=<hex>, y=<hex>)`, each coordinate as its hex string.
    pub fn to_string(&self) -> (r: String)
        ensures
            r@ == spec_point_string(self@),
    {
        let x = biguint_to_hex_string(self.x());
        let y = biguint_to_hex_string(self.y());
        let r = String::from_str("Point(x=").concat(x.as_str()).concat(", y=").concat(
            y.as_str(),
        ).concat(")");
        assert(r@ =~= spec_point_string(self@));
        r
    }

    /// The same rendering as `to_string`.
    pub fn to_debug_string(&self) -> (r: String)
        ensures
            r@ == spec_point_string(self@),
    {
        self.to_string()
    }

    /// Whether both points have the same coordinates.
    pub fn equals(&self, other: &Point) -> (r: bool)
        ensures
            r == spec_equals(self@, other@),
    {
        curve_equals(self, other)
    }

    /// The compressed encoding of the point: the 32 bytes of `y`, least
    /// significant first, and in the top bit of the last byte whether `x` is
    /// above half the field prime.
    pub fn compress(&self) -> (r: Vec<u8>)
        ensures
            r@ == spec_compress(self@),
            r@.len() == 32,
    {
        proof {
            lemma_le_bytes_len(self@.y, 32);
            lemma_le_bytes_len(self@.y + top_bit(), 32);
        }
        curve_compress(self)
    }

    /// The compressed encoding as a hex string: `0x`, then two lower-case
    /// digits for each byte of `compress`.
    pub fn compress_hex(&self) -> (r: String)
        ensures
            r@ == spec_compress_hex(self@),
            r@.len() == 66,
    {
        let bytes = self.compress();
        hex_with_prefix(bytes.as_slice())
    }

    /// The point times `n`, where `n` is read as `to_bigint` reads it. Fails
    /// exactly where that reading fails, with its error. A negative `n`
    /// gives what `-n` gives: the curve library multiplies by the magnitude.
    pub fn mul_scalar(&self, n: &HostValue) -> (r: Result<Point, Error>)
        ensures
            match r {
                Ok(p) => spec_mul_scalar(self@, n@) == Ok::<PointView, Error>(p@),
                Err(e) => spec_mul_scalar(self@, n@) == Err::<PointView, Error>(e),
            },
    {
        match n.to_bigint() {
            Ok(k) => Ok(curve_mul_scalar(self, &k)),
            Err(e) => Err(e),
        }
    }

    /// The same point in projective coordinates.
    pub fn to_projective(&self) -> (r: PointProjective)
        ensures
            r@ == spec_projective(self@),
    {
        curve_projective(self)
    }
}

} // verus!
