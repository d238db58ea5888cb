//! Host values and their reading as integers: a native integer, a decimal
//! string, a `0x` hex string or a big-endian byte buffer.

use crate::bigint::{bigint_from_str_radix, BigInt};
use crate::bytes::{be_value, lemma_be_value_append_word, push_word_be, word_be_bytes};
use crate::error::Error;
use crate::numeral::{parse_numeral, signed_decimal};
use vstd::prelude::*;

verus! {

/// A value as the host hands it over, tagged with its shape.
#[derive(Clone, Debug)]
pub enum HostValue {
    /// A native unsigned integer.
    Unsigned(u64),
    /// A native signed integer.
    Signed(i64),
    /// A string: a decimal numeral, or a hexadecimal one behind `0x` or `0X`.
    Text(String),
    /// A byte buffer: a magnitude, most significant byte first.
    Bytes(Vec<u8>),
    /// A host value of any other shape.
    Unsupported,
}

/// What a host value holds, as mathematics sees it.
pub enum HostValueView {
    Integer(int),
    Text(Seq<char>),
    Bytes(Seq<u8>),
    Unsupported,
}

impl View for HostValue {
    type V = HostValueView;

    open spec fn view(&self) -> HostValueView {
        match self {
            HostValue::Unsigned(n) => HostValueView::Integer(*n as int),
            HostValue::Signed(n) => HostValueView::Integer(*n as int),
            HostValue::Text(s) => HostValueView::Text(s@),
            HostValue::Bytes(b) => HostValueView::Bytes(b@),
            HostValue::Unsupported => HostValueView::Unsupported,
        }
    }
}

/// Whether a string starts with `0x` or `0X`.
pub open spec fn has_hex_prefix(s: Seq<char>) -> bool {
    s.len() >= 2 && s[0] == '0' && (s[1] == 'x' || s[1] == 'X')
}

/// The integer that a hexadecimal numeral denotes, with or without the
/// prefix `0x` or `0X` in front of it.
pub open spec fn spec_parse_hex(s: Seq<char>) -> Option<int> {
    if has_hex_prefix(s) {
        parse_numeral(s.skip(2), 16)
    } else {
        parse_numeral(s, 16)
    }
}

/// The integer that a string denotes: behind a hex prefix a hexadecimal
/// numeral, else a decimal one.
pub open spec fn spec_parse_text(s: Seq<char>) -> Option<int> {
    if has_hex_prefix(s) {
        parse_numeral(s.skip(2), 16)
    } else {
        parse_numeral(s, 10)
    }
}

/// The integer that a host value denotes, or the reason why it denotes none.
pub open spec fn spec_to_bigint(v: HostValueView) -> Result<int, Error> {
    match v {
        HostValueView::Integer(n) => Ok(n),
        HostValueView::Text(s) => match spec_parse_text(s) {
            Some(n) => Ok(n),
            None => Err(Error::MalformedNumeral),
        },
        HostValueView::Bytes(b) => Ok(be_value(b) as int),
        HostValueView::Unsupported => Err(Error::TypeMismatch),
    }
}

/// The decimal numeral that stands for a host value when a field element
/// is made of it: the value is read as an integer, whatever its shape, and
/// the integer is written in decimal.
pub open spec fn spec_to_decimal_string(v: HostValueView) -> Result<Seq<char>, Error> {
    match spec_to_bigint(v) {
        Ok(n) => Ok(signed_decimal(n)),
        Err(e) => Err(e),
    }
}

/// Whether `s` starts with `0x` or `0X`.
fn starts_with_hex_prefix(s: &str) -> (r: bool)
    ensures
        r == has_hex_prefix(s@),
{
    s.unicode_len() >= 2 && s.get_char(0) == '0' && (s.get_char(1) == 'x' || s.get_char(1) == 'X')
}

/// What follows the first two characters of `s`.
fn after_prefix(s: &str) -> (r: &str)
    requires
        s@.len() >= 2,
    ensures
        r@ == s@.skip(2),
{
    let n = s.unicode_len();
    s.substring_char(2, n)
}

/// Reads a hexadecimal numeral, with or without the prefix `0x` or `0X`.
/// Fails with `MalformedNumeral` exactly where what follows the prefix is
/// no hexadecimal numeral.
pub fn parse_hex_to_bigint(hex_str: &str) -> (r: Result<BigInt, Error>)
    ensures
        match r {
            Ok(n) => n.wf() && spec_parse_hex(hex_str@) == Some(n@),
            Err(e) => e == Error::MalformedNumeral && spec_parse_hex(hex_str@).is_none(),
        },
{
    let hex = if starts_with_hex_prefix(hex_str) {
        after_prefix(hex_str)
    } else {
        hex_str
    };
    match bigint_from_str_radix(hex, 16) {
        Ok(n) => Ok(n),
        Err(_) => Err(Error::MalformedNumeral),
    }
}

/// The integer of a native unsigned value.
fn bigint_of_u64(negative: bool, magnitude: u64) -> (r: BigInt)
    ensures
        r.wf(),
        r@ == if negative {
            -(magnitude as int)
        } else {
            magnitude as int
        },
{
    let mut bytes: Vec<u8> = Vec::new();
    push_word_be(&mut bytes, magnitude);
    proof {
        lemma_be_value_append_word(Seq::<u8>::empty(), magnitude);
        assert(bytes@ =~= Seq::<u8>::empty() + word_be_bytes(magnitude));
    }
    BigInt::from_bytes_be(negative, bytes.as_slice())
}

impl HostValue {
    /// Reads the value as an integer. A native integer is itself; a string
    /// behind `0x` or `0X` is a hexadecimal numeral, any other string a
    /// decimal one; a byte buffer is a magnitude, most significant byte
    /// first. Fails with `MalformedNumeral` exactly for a string that is no
    /// numeral of its base, and with `TypeMismatch` exactly for a value of
    /// no accepted shape.
    pub fn to_bigint(&self) -> (r: Result<BigInt, Error>)
        ensures
            match r {
                Ok(n) => n.wf() && spec_to_bigint(self@) == Ok::<int, Error>(n@),
                Err(e) => spec_to_bigint(self@) == Err::<int, Error>(e),
            },
    {
        match self {
            HostValue::Unsigned(n) => Ok(bigint_of_u64(false, *n)),
            HostValue::Signed(n) => {
                if *n < 0 {
                    let magnitude: u64 = (-(*n + 1)) as u64 + 1;
                    Ok(bigint_of_u64(true, magnitude))
                } else {
                    Ok(bigint_of_u64(false, *n as u64))
                }
            },
            HostValue::Text(s) => {
                let parsed = if starts_with_hex_prefix(s.as_str()) {
                    bigint_from_str_radix(after_prefix(s.as_str()), 16)
                } else {
                    bigint_from_str_radix(s.as_str(), 10)
                };
                match parsed {
                    Ok(n) => Ok(n),
                    Err(_) => Err(Error::MalformedNumeral),
                }
            },
            HostValue::Bytes(b) => Ok(BigInt::from_bytes_be(false, b.as_slice())),
            HostValue::Unsupported => Err(Error::TypeMismatch),
        }
    }

    /// The decimal numeral from which a field element is made: the value
    /// is read with `to_bigint`, whatever its shape, and the integer is
    /// written in decimal, without leading zeros and behind a `-` where it
    /// is negative. Fails exactly where `to_bigint` fails, with its error.
    pub fn to_decimal_string(&self) -> (r: Result<String, Error>)
        ensures
            match r {
                Ok(s) => spec_to_decimal_string(self@) == Ok::<Seq<char>, Error>(s@),
                Err(e) => spec_to_decimal_string(self@) == Err::<Seq<char>, Error>(e),
            },
    {
        match self.to_bigint() {
            Ok(n) => Ok(n.to_decimal_string()),
            Err(e) => Err(e),
        }
    }
}

} // verus!
