//! What holds of the conversions as a whole: every shape of a number
//! ingests to the same field element, export gives back what was ingested,
//! and equality of points is an equivalence.

use crate::bigint::BigUint;
use crate::bytes::{be_bytes, be_value, lemma_be_bytes_value, lemma_minimal_is_be_bytes};
use crate::curve::{spec_affine, spec_equals, spec_projective};
use crate::error::Error;
use crate::field::{hex_string, modulus, spec_ingest, FieldElement};
use crate::ingest::{has_hex_prefix, spec_to_bigint, spec_to_decimal_string, HostValueView};
use crate::numeral::{
    body_value, decimal_digits, hex_char, hex_encoding, is_digit, is_digit_string,
    lemma_body_value_push, lemma_decimal_digits, lemma_digit_string_parses,
    lemma_hex_encoding_push, signed_decimal,
};
use crate::point::{spec_new_point, PointView};
use crate::projective::{spec_projective_equals, ProjectiveView};
use vstd::arithmetic::div_mod::lemma_small_mod;
use vstd::prelude::*;

verus! {

/// Whether a host value writes the number `n` in one of the accepted
/// shapes: as a native integer, as its decimal digits, as a run of
/// hexadecimal digits behind `0x` or `0X`, or as big-endian bytes.
pub open spec fn denotes(v: HostValueView, n: nat) -> bool {
    match v {
        HostValueView::Integer(i) => i == n,
        HostValueView::Text(s) => s == decimal_digits(n) || (has_hex_prefix(s) && is_digit_string(
            s.skip(2),
            16,
        ) && body_value(s.skip(2), 16) == n),
        HostValueView::Bytes(b) => be_value(b) == n,
        HostValueView::Unsupported => false,
    }
}

/// The hex encoding of a byte string spells, in hexadecimal digits, the
/// number that the bytes denote.
pub proof fn lemma_hex_encoding_value(bytes: Seq<u8>)
    ensures
        body_value(hex_encoding(bytes), 16) == be_value(bytes),
        forall|i: int|
            0 <= i < hex_encoding(bytes).len() ==> is_digit(#[trigger] hex_encoding(bytes)[i], 16),
    decreases bytes.len(),
{
    if bytes.len() == 0 {
        assert(hex_encoding(bytes) =~= Seq::<char>::empty());
    } else {
        let head = bytes.drop_last();
        let byte = bytes.last();
        let high = hex_char((byte / 16) as nat);
        let low = hex_char((byte % 16) as nat);
        lemma_hex_encoding_value(head);
        assert(bytes =~= head.push(byte));
        lemma_hex_encoding_push(head, byte);
        assert(is_digit(high, 16));
        assert(is_digit(low, 16));
        lemma_body_value_push(hex_encoding(head), high, 16);
        lemma_body_value_push(hex_encoding(head).push(high), low, 16);
        let s = hex_encoding(bytes);
        assert forall|i: int| 0 <= i < s.len() implies is_digit(#[trigger] s[i], 16) by {
            if i < hex_encoding(head).len() {
                assert(is_digit(hex_encoding(head)[i], 16));
            }
        }
    }
}

/// The hex string of a number denotes that number.
pub proof fn lemma_hex_string_denotes(n: nat)
    ensures
        denotes(HostValueView::Text(hex_string(n)), n),
{
    let s = hex_string(n);
    lemma_be_bytes_value(n);
    lemma_hex_encoding_value(be_bytes(n));
    assert(s.skip(2) =~= hex_encoding(be_bytes(n)));
}

/// Whatever shape writes the number `n`, the decimal numeral handed to the
/// field constructor is the same: the decimal digits of `n`.
pub proof fn law_one_numeral_for_every_shape(v: HostValueView, n: nat)
    requires
        denotes(v, n),
    ensures
        spec_to_decimal_string(v) == Ok::<Seq<char>, Error>(decimal_digits(n)),
{
    lemma_decimal_digits(n);
    match v {
        HostValueView::Text(s) => {
            if s == decimal_digits(n) {
                if s.len() >= 2 {
                    assert(is_digit(s[1], 10));
                }
                lemma_digit_string_parses(s, 10);
            } else {
                lemma_digit_string_parses(s.skip(2), 16);
            }
        },
        _ => {},
    }
}

/// What ingest comes to: the host value is read as an integer; an integer
/// from zero up gives the element of its value modulo the field prime, and
/// a negative one is rejected by the field constructor. Every other
/// failure is that of the reading.
pub proof fn law_ingest_of_integer(v: HostValueView)
    ensures
        spec_ingest(v) == match spec_to_bigint(v) {
            Ok(n) => if n >= 0 {
                Ok::<nat, Error>(n as nat % modulus())
            } else {
                Err::<nat, Error>(Error::FieldConstructionError)
            },
            Err(e) => Err::<nat, Error>(e),
        },
{
    match spec_to_bigint(v) {
        Ok(n) => {
            if n >= 0 {
                lemma_decimal_digits(n as nat);
            } else {
                let s = signed_decimal(n);
                assert(s[0] == '-');
            }
        },
        Err(_) => {},
    }
}

/// Shape equivalence: host values that write the same number in different
/// shapes ingest to the same field element, the number modulo the field prime.
pub proof fn law_shape_equivalence(v: HostValueView, w: HostValueView, n: nat)
    requires
        denotes(v, n),
        denotes(w, n),
    ensures
        spec_ingest(v) == Ok::<nat, Error>(n % modulus()),
        spec_ingest(v) == spec_ingest(w),
{
    law_one_numeral_for_every_shape(v, n);
    law_one_numeral_for_every_shape(w, n);
    lemma_decimal_digits(n);
}

/// Round trip: below the field prime, the element made of any shape of `p`
/// is `p` itself, which is what export then returns.
pub proof fn law_round_trip(v: HostValueView, p: nat)
    requires
        p < modulus(),
        denotes(v, p),
    ensures
        spec_ingest(v) == Ok::<nat, Error>(p),
{
    law_shape_equivalence(v, v, p);
    lemma_small_mod(p, modulus());
}

/// Round trip, step by step: where `f` is the element that ingest makes of
/// a shape of `p`, and `b` the unsigned integer that export makes of `f`,
/// `b` is `p`, held in the minimal bytes of `p`.
pub proof fn law_export_of_ingest(v: HostValueView, p: nat, f: FieldElement, b: BigUint)
    requires
        p < modulus(),
        denotes(v, p),
        spec_ingest(v) == Ok::<nat, Error>(f@),
        b.wf(),
        b@ == f@,
    ensures
        b@ == p,
        b.spec_bytes() == be_bytes(p),
{
    law_round_trip(v, p);
    lemma_minimal_is_be_bytes(b.spec_bytes());
}

/// Round trip through the hex string: what export writes for `p` ingests to `p` again.
pub proof fn law_round_trip_hex_string(p: nat)
    requires
        p < modulus(),
    ensures
        spec_ingest(HostValueView::Text(hex_string(p))) == Ok::<nat, Error>(p),
{
    lemma_hex_string_denotes(p);
    law_round_trip(HostValueView::Text(hex_string(p)), p);
}

/// A point is made exactly where both coordinates ingest, and then holds
/// the two elements.
pub proof fn law_point_holds_ingested_coordinates(x: HostValueView, y: HostValueView, p: PointView)
    ensures
        spec_new_point(x, y) == Ok::<PointView, Error>(p) <==> spec_ingest(x) == Ok::<nat, Error>(
            p.x,
        ) && spec_ingest(y) == Ok::<nat, Error>(p.y),
{
}

/// Shape equivalence for points: writing a coordinate in another shape
/// changes nothing of the point that is made.
pub proof fn law_point_shape_equivalence(
    x: HostValueView,
    x_other: HostValueView,
    y: HostValueView,
    y_other: HostValueView,
    n: nat,
    m: nat,
)
    requires
        denotes(x, n),
        denotes(x_other, n),
        denotes(y, m),
        denotes(y_other, m),
    ensures
        spec_new_point(x, y) == spec_new_point(x_other, y_other),
        spec_new_point(x, y) == Ok::<PointView, Error>(
            PointView { x: n % modulus(), y: m % modulus() },
        ),
{
    law_one_numeral_for_every_shape(x, n);
    law_one_numeral_for_every_shape(x_other, n);
    law_one_numeral_for_every_shape(y, m);
    law_one_numeral_for_every_shape(y_other, m);
    lemma_decimal_digits(n);
    lemma_decimal_digits(m);
}

/// Equality of affine points is reflexive.
pub proof fn law_equals_reflexive(a: PointView)
    ensures
        spec_equals(a, a),
{
}

/// Equality of affine points is symmetric.
pub proof fn law_equals_symmetric(a: PointView, b: PointView)
    ensures
        spec_equals(a, b) == spec_equals(b, a),
{
}

/// Equality of affine points is transitive.
pub proof fn law_equals_transitive(a: PointView, b: PointView, c: PointView)
    requires
        spec_equals(a, b),
        spec_equals(b, c),
    ensures
        spec_equals(a, c),
{
}

/// Equality of projective points is reflexive.
pub proof fn law_projective_equals_reflexive(a: ProjectiveView)
    ensures
        spec_projective_equals(a, a),
{
}

/// Equality of projective points is symmetric.
pub proof fn law_projective_equals_symmetric(a: ProjectiveView, b: ProjectiveView)
    ensures
        spec_projective_equals(a, b) == spec_projective_equals(b, a),
{
}

/// Equality of projective points is transitive.
pub proof fn law_projective_equals_transitive(
    a: ProjectiveView,
    b: ProjectiveView,
    c: ProjectiveView,
)
    requires
        spec_projective_equals(a, b),
        spec_projective_equals(b, c),
    ensures
        spec_projective_equals(a, c),
{
}

/// An affine point made projective and affine again equals itself.
pub proof fn law_projective_affine_round_trip(p: PointView)
    ensures
        spec_equals(spec_affine(spec_projective(p)), p),
{
}

} // verus!
