//! The ways in which a conversion can fail.

use vstd::prelude::*;

verus! {

/// Why a host value could not be turned into a number, a field element or a point.
#[derive(Clone, Copy, Debug, PartialEq, Eq, Structural)]
pub enum Error {
    /// The host value has none of the accepted shapes.
    TypeMismatch,
    /// A string is no numeral of the base it claims.
    MalformedNumeral,
    /// The field constructor rejected the decimal numeral it was handed.
    FieldConstructionError,
    /// The curve library reported a failure during arithmetic. The curve
    /// operations behind this crate's functions are total, so none of them
    /// returns it.
    CurveOperationError,
}

} // verus!
