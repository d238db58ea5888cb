//! Arbitrary-precision integers as plain data: a sign and the minimal
//! big-endian bytes of the magnitude. The `num-bigint` crate parses,
//! normalises and prints them.

use crate::bytes::{be_value, is_minimal};
use crate::numeral::{parse_numeral, signed_decimal};
use num_traits::Num;
use vstd::prelude::*;

verus! {

/// An unsigned integer of any size.
#[derive(Clone, Debug)]
pub struct BigUint {
    bytes: Vec<u8>,
}

/// A signed integer of any size.
#[derive(Clone, Debug)]
pub struct BigInt {
    negative: bool,
    magnitude: BigUint,
}

/// Declares `num_bigint::ParseBigIntError`, the error of `from_str_radix`,
/// as a type of which nothing is known but that it exists.
#[verifier::external_type_specification]
#[verifier::external_body]
pub struct ExParseBigIntError(num_bigint::ParseBigIntError);

impl View for BigUint {
    type V = nat;

    /// The number itself.
    open spec fn view(&self) -> nat {
        be_value(self.spec_bytes())
    }
}

impl BigUint {
    /// The big-endian bytes that hold the number.
    pub closed spec fn spec_bytes(&self) -> Seq<u8> {
        self.bytes@
    }

    /// The bytes are the minimal encoding of the number.
    pub open spec fn wf(&self) -> bool {
        is_minimal(self.spec_bytes())
    }

    /// The number that big-endian `bytes` denote; the empty buffer denotes zero.
    pub fn from_bytes_be(bytes: &[u8]) -> (r: BigUint)
        ensures
            r.wf(),
            r@ == be_value(bytes@),
    {
        biguint_from_bytes_be(bytes)
    }

    /// The bytes of the number, most significant first.
    pub fn to_bytes_be(&self) -> (r: Vec<u8>)
        ensures
            r@ == self.spec_bytes(),
    {
        self.bytes.clone()
    }
}

impl View for BigInt {
    type V = int;

    /// The number itself.
    open spec fn view(&self) -> int {
        if self.spec_negative() {
            -(self.spec_magnitude()@ as int)
        } else {
            self.spec_magnitude()@ as int
        }
    }
}

impl BigInt {
    /// Whether the number carries a minus sign.
    pub closed spec fn spec_negative(&self) -> bool {
        self.negative
    }

    /// The number without its sign.
    pub closed spec fn spec_magnitude(&self) -> BigUint {
        self.magnitude
    }

    /// The magnitude is minimal, and zero carries no minus sign.
    pub open spec fn wf(&self) -> bool {
        &&& self.spec_magnitude().wf()
        &&& self.spec_negative() ==> self.spec_magnitude()@ != 0
    }

    /// The integer with the given sign whose magnitude big-endian `bytes` denote.
    pub fn from_bytes_be(negative: bool, bytes: &[u8]) -> (r: BigInt)
        ensures
            r.wf(),
            r@ == if negative {
                -(be_value(bytes@) as int)
            } else {
                be_value(bytes@) as int
            },
    {
        bigint_from_bytes_be(negative, bytes)
    }

    /// Whether the number is below zero.
    pub fn is_negative(&self) -> (r: bool)
        ensures
            r == self.spec_negative(),
    {
        self.negative
    }

    /// The number without its sign.
    pub fn magnitude(&self) -> (r: &BigUint)
        ensures
            *r == self.spec_magnitude(),
    {
        &self.magnitude
    }

    /// The decimal numeral of the number.
    pub fn to_decimal_string(&self) -> (r: String)
        ensures
            r@ == signed_decimal(self@),
    {
        bigint_to_string(self)
    }
}

/// Calls `num_bigint::BigUint::from_bytes_be` and takes the number back
/// with `to_bytes_be`. Claims that the result denotes the same number as
/// `bytes` and is minimal: `to_bytes_be` gives `[0]` for zero and no
/// leading zero byte otherwise.
#[verifier::external_body]
fn biguint_from_bytes_be(bytes: &[u8]) -> (r: BigUint)
    ensures
        r.wf(),
        r@ == be_value(bytes@),
{
    BigUint { bytes: num_bigint::BigUint::from_bytes_be(bytes).to_bytes_be() }
}

/// Calls `num_bigint::BigInt::from_bytes_be` with the sign `Minus` or
/// `Plus`. Claims that the result is the number that `bytes` denote with
/// that sign, in minimal form, and that zero comes back without a sign.
#[verifier::external_body]
fn bigint_from_bytes_be(negative: bool, bytes: &[u8]) -> (r: BigInt)
    ensures
        r.wf(),
        r@ == if negative {
            -(be_value(bytes@) as int)
        } else {
            be_value(bytes@) as int
        },
{
    let sign = if negative { num_bigint::Sign::Minus } else { num_bigint::Sign::Plus };
    let (sign, bytes) = num_bigint::BigInt::from_bytes_be(sign, bytes).to_bytes_be();
    BigInt { negative: matches!(sign, num_bigint::Sign::Minus), magnitude: BigUint { bytes } }
}

/// Calls `from_str_radix` of `num_bigint::BigInt` (its impl of
/// `num_traits::Num`). Claims that it accepts exactly the numerals of the
/// radix, as `parse_numeral` defines them, and returns the integer that the
/// numeral denotes. The call panics for a radix outside 2 to 36.
#[verifier::external_body]
pub(crate) fn bigint_from_str_radix(s: &str, radix: u32) -> (r: Result<
    BigInt,
    num_bigint::ParseBigIntError,
>)
    requires
        2 <= radix <= 36,
    ensures
        match r {
            Ok(n) => n.wf() && parse_numeral(s@, radix as nat) == Some(n@),
            Err(_) => parse_numeral(s@, radix as nat).is_none(),
        },
{
    let (sign, bytes) = num_bigint::BigInt::from_str_radix(s, radix)?.to_bytes_be();
    Ok(BigInt { negative: matches!(sign, num_bigint::Sign::Minus), magnitude: BigUint { bytes } })
}

/// Calls `to_string` on the `num_bigint::BigInt` of the same value. Claims
/// that the result is the decimal numeral: the digits without leading
/// zeros, behind a `-` for a negative number.
#[verifier::external_body]
fn bigint_to_string(n: &BigInt) -> (r: String)
    ensures
        r@ == signed_decimal(n@),
{
    let sign = if n.negative { num_bigint::Sign::Minus } else { num_bigint::Sign::Plus };
    num_bigint::BigInt::from_bytes_be(sign, &n.magnitude.bytes).to_string()
}

} // verus!
