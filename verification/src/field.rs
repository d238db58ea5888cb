//! Elements of the base field of BabyJubjub: how they are made from host
//! values and how they are read back as unsigned integers and hex strings.

use crate::bigint::BigUint;
use crate::bytes::{
    be_bytes, be_value, lemma_be_value_append_word, lemma_minimal_is_be_bytes, limbs_value,
    push_word_be,
};
use crate::error::Error;
use crate::ingest::{spec_to_decimal_string, HostValue, HostValueView};
use crate::numeral::{body_value, hex_encoding, is_canonical_decimal};
use ff_ce::PrimeField;
use vstd::prelude::*;

verus! {

/// The prime order of the field.
pub open spec fn modulus() -> nat {
    21888242871839275222246405745257275088548364400416034343698204186575808495617nat
}

/// A residue modulo the field prime, held as the four 64-bit limbs of the
/// number below the modulus that stands for it, least significant limb first.
#[derive(Clone, Copy, Debug)]
pub struct FieldElement {
    pub(crate) limbs: [u64; 4],
}

impl View for FieldElement {
    type V = nat;

    /// The number below the modulus that stands for the element.
    open spec fn view(&self) -> nat {
        limbs_value(self.spec_limbs())
    }
}

/// The element that the field constructor makes of a decimal numeral: the
/// number modulo the field prime for a canonical numeral, and none for
/// anything else.
pub open spec fn spec_field_of_decimal(s: Seq<char>) -> Option<nat> {
    if is_canonical_decimal(s) {
        Some(body_value(s, 10) % modulus())
    } else {
        None
    }
}

/// The element made of a host value, or the reason why none is made.
/// `law_ingest_of_integer` says what that comes to.
pub open spec fn spec_ingest(v: HostValueView) -> Result<nat, Error> {
    match spec_to_decimal_string(v) {
        Ok(s) => match spec_field_of_decimal(s) {
            Some(n) => Ok(n),
            None => Err(Error::FieldConstructionError),
        },
        Err(e) => Err(e),
    }
}

/// The hex string of a number: `0x` and two lower-case digits for each
/// byte of its minimal big-endian encoding.
pub open spec fn hex_string(n: nat) -> Seq<char> {
    seq!['0', 'x'] + hex_encoding(be_bytes(n))
}

impl FieldElement {
    /// The limbs, least significant first.
    pub closed spec fn spec_limbs(&self) -> Seq<u64> {
        self.limbs@
    }

    /// Every element is held as a number below the modulus.
    #[verifier::type_invariant]
    pub open spec fn valid(&self) -> bool {
        self@ < modulus()
    }

    /// Makes a field element of a host value: the value is read as an
    /// integer and written as a decimal numeral, and the field constructor
    /// reduces that numeral modulo the field prime. Fails as `to_bigint`
    /// does, and with `FieldConstructionError` exactly where the field
    /// constructor rejects the numeral, which it does for a negative integer.
    pub fn ingest(v: &HostValue) -> (r: Result<FieldElement, Error>)
        ensures
            match r {
                Ok(f) => f.valid() && spec_ingest(v@) == Ok::<nat, Error>(f@),
                Err(e) => spec_ingest(v@) == Err::<nat, Error>(e),
            },
    {
        match v.to_decimal_string() {
            Ok(s) => match field_from_decimal(s.as_str()) {
                Some(f) => Ok(f),
                None => Err(Error::FieldConstructionError),
            },
            Err(e) => Err(e),
        }
    }

    /// The limbs, least significant first.
    pub fn limbs(&self) -> (r: [u64; 4])
        ensures
            r@ == self.spec_limbs(),
    {
        self.limbs
    }

    /// The element as a canonical unsigned integer, which is below the field prime.
    pub fn to_biguint(&self) -> (r: BigUint)
        ensures
            r.wf(),
            r@ == self@,
            r@ < modulus(),
    {
        proof {
            use_type_invariant(self);
        }
        field_element_to_biguint(self.limbs.as_slice())
    }
}

/// Calls `from_str` of `babyjubjub_rs::Fr` (from `ff_ce::PrimeField`) and
/// takes the limbs with `into_repr`. Claims that the constructor accepts
/// exactly the canonical decimal numerals, that the element is the numeral's
/// value modulo the field prime, and that `into_repr` gives the limbs of the
/// number below the modulus.
#[verifier::external_body]
pub(crate) fn field_from_decimal(s: &str) -> (r: Option<FieldElement>)
    ensures
        match r {
            Some(f) => f.valid() && spec_field_of_decimal(s@) == Some(f@),
            None => spec_field_of_decimal(s@).is_none(),
        },
{
    match babyjubjub_rs::Fr::from_str(s) {
        Some(f) => Some(FieldElement { limbs: f.into_repr().0 }),
        None => None,
    }
}

/// Calls `ff_ce::hex::encode`. Claims what its documentation says: two
/// lower-case hexadecimal digits for each byte, in order.
#[verifier::external_body]
fn hex_encode(bytes: &[u8]) -> (r: String)
    ensures
        r@ == hex_encoding(bytes@),
{
    ff_ce::hex::encode(bytes)
}

/// The unsigned integer that limbs denote, least significant limb first.
/// The limbs are walked from the most significant one down, each is
/// written as eight big-endian bytes, and the bytes make the integer.
pub fn field_element_to_biguint(repr: &[u64]) -> (r: BigUint)
    ensures
        r.wf(),
        r@ == limbs_value(repr@),
{
    let mut bytes: Vec<u8> = Vec::new();
    let mut i: usize = repr.len();
    assert(repr@.skip(i as int) =~= Seq::<u64>::empty());
    while i > 0
        invariant
            i <= repr.len(),
            be_value(bytes@) == limbs_value(repr@.skip(i as int)),
        decreases i,
    {
        i -= 1;
        proof {
            lemma_be_value_append_word(bytes@, repr[i as int]);
            assert(repr@.skip(i as int).skip(1) =~= repr@.skip(i + 1));
        }
        push_word_be(&mut bytes, repr[i]);
    }
    assert(repr@.skip(0) =~= repr@);
    BigUint::from_bytes_be(bytes.as_slice())
}

/// `0x`, then two lower-case hexadecimal digits for each byte.
pub fn hex_with_prefix(bytes: &[u8]) -> (r: String)
    ensures
        r@ == seq!['0', 'x'] + hex_encoding(bytes@),
{
    let digits = hex_encode(bytes);
    proof {
        reveal_strlit("0x");
        assert("0x"@ =~= seq!['0', 'x']);
    }
    String::from_str("0x").concat(digits.as_str())
}

/// The hex string of an unsigned integer: `0x`, then two lower-case digits
/// for each of its bytes.
pub fn biguint_to_hex_string(biguint: BigUint) -> (r: String)
    ensures
        r@ == seq!['0', 'x'] + hex_encoding(biguint.spec_bytes()),
        biguint.wf() ==> r@ == hex_string(biguint@),
{
    let bytes = biguint.to_bytes_be();
    proof {
        if biguint.wf() {
            lemma_minimal_is_be_bytes(biguint.spec_bytes());
        }
    }
    hex_with_prefix(bytes.as_slice())
}

} // verus!
