//! Big-endian byte strings, little-endian limbs, and the numbers they denote.

use vstd::prelude::*;

verus! {

/// The number that a big-endian byte string denotes. The empty string denotes zero.
pub open spec fn be_value(bytes: Seq<u8>) -> nat
    decreases bytes.len(),
{
    if bytes.len() == 0 {
        0
    } else {
        be_value(bytes.drop_last()) * 256 + bytes.last() as nat
    }
}

/// A byte string is minimal when it has no leading zero byte that could be
/// dropped: zero is the single byte `0`, any other number starts with a
/// byte other than `0`.
pub open spec fn is_minimal(bytes: Seq<u8>) -> bool {
    bytes.len() == 1 || (bytes.len() > 1 && bytes[0] != 0)
}

/// The minimal big-endian encoding of `n`.
pub open spec fn be_bytes(n: nat) -> Seq<u8>
    decreases n,
{
    if n < 256 {
        seq![n as u8]
    } else {
        be_bytes(n / 256).push((n % 256) as u8)
    }
}

/// The `len` lowest bytes of `n`, least significant byte first.
pub open spec fn le_bytes(n: nat, len: nat) -> Seq<u8>
    decreases len,
{
    if len == 0 {
        Seq::empty()
    } else {
        seq![(n % 256) as u8] + le_bytes(n / 256, (len - 1) as nat)
    }
}

/// The number that a sequence of 64-bit limbs denotes, least significant limb first.
pub open spec fn limbs_value(limbs: Seq<u64>) -> nat
    decreases limbs.len(),
{
    if limbs.len() == 0 {
        0
    } else {
        limbs[0] as nat + 0x1_0000_0000_0000_0000 * limbs_value(limbs.skip(1))
    }
}

/// The eight bytes of a 64-bit word, most significant first.
pub open spec fn word_be_bytes(word: u64) -> Seq<u8> {
    seq![
        (word >> 56) as u8,
        ((word >> 48) & 0xff) as u8,
        ((word >> 40) & 0xff) as u8,
        ((word >> 32) & 0xff) as u8,
        ((word >> 24) & 0xff) as u8,
        ((word >> 16) & 0xff) as u8,
        ((word >> 8) & 0xff) as u8,
        (word & 0xff) as u8,
    ]
}

/// Appending one byte shifts the number left by eight bits and adds the byte.
pub proof fn lemma_be_value_push(bytes: Seq<u8>, byte: u8)
    ensures
        be_value(bytes.push(byte)) == be_value(bytes) * 256 + byte as nat,
{
    assert(bytes.push(byte).drop_last() =~= bytes);
}

/// Appending the eight bytes of a word shifts the number left by 64 bits and adds the word.
pub proof fn lemma_be_value_append_word(bytes: Seq<u8>, word: u64)
    ensures
        be_value(bytes + word_be_bytes(word)) == be_value(bytes) * 0x1_0000_0000_0000_0000
            + word as nat,
{
    let w = word_be_bytes(word);
    let s0 = bytes.push(w[0]);
    let s1 = s0.push(w[1]);
    let s2 = s1.push(w[2]);
    let s3 = s2.push(w[3]);
    let s4 = s3.push(w[4]);
    let s5 = s4.push(w[5]);
    let s6 = s5.push(w[6]);
    let s7 = s6.push(w[7]);
    assert(s7 =~= bytes + w);
    lemma_be_value_push(bytes, w[0]);
    lemma_be_value_push(s0, w[1]);
    lemma_be_value_push(s1, w[2]);
    lemma_be_value_push(s2, w[3]);
    lemma_be_value_push(s3, w[4]);
    lemma_be_value_push(s4, w[5]);
    lemma_be_value_push(s5, w[6]);
    lemma_be_value_push(s6, w[7]);
    assert(word == ((word >> 56) as u8) as u64 * 0x100_0000_0000_0000
        + (((word >> 48) & 0xff) as u8) as u64 * 0x1_0000_0000_0000
        + (((word >> 40) & 0xff) as u8) as u64 * 0x100_0000_0000
        + (((word >> 32) & 0xff) as u8) as u64 * 0x1_0000_0000
        + (((word >> 24) & 0xff) as u8) as u64 * 0x100_0000
        + (((word >> 16) & 0xff) as u8) as u64 * 0x1_0000
        + (((word >> 8) & 0xff) as u8) as u64 * 0x100
        + ((word & 0xff) as u8) as u64) by (bit_vector);
}

/// Appends the eight bytes of `word`, most significant first.
pub fn push_word_be(bytes: &mut Vec<u8>, word: u64)
    ensures
        final(bytes)@ == old(bytes)@ + word_be_bytes(word),
{
    assert((word >> 56) < 0x100) by (bit_vector);
    assert((word >> 48) & 0xff < 0x100) by (bit_vector);
    assert((word >> 40) & 0xff < 0x100) by (bit_vector);
    assert((word >> 32) & 0xff < 0x100) by (bit_vector);
    assert((word >> 24) & 0xff < 0x100) by (bit_vector);
    assert((word >> 16) & 0xff < 0x100) by (bit_vector);
    assert((word >> 8) & 0xff < 0x100) by (bit_vector);
    assert(word & 0xff < 0x100) by (bit_vector);
    bytes.push((word >> 56) as u8);
    bytes.push(((word >> 48) & 0xff) as u8);
    bytes.push(((word >> 40) & 0xff) as u8);
    bytes.push(((word >> 32) & 0xff) as u8);
    bytes.push(((word >> 24) & 0xff) as u8);
    bytes.push(((word >> 16) & 0xff) as u8);
    bytes.push(((word >> 8) & 0xff) as u8);
    bytes.push((word & 0xff) as u8);
    assert(bytes@ =~= old(bytes)@ + word_be_bytes(word));
}

/// A byte string that starts with a byte other than zero denotes a positive number.
pub proof fn lemma_be_value_positive(bytes: Seq<u8>)
    requires
        bytes.len() > 0,
        bytes[0] != 0,
    ensures
        be_value(bytes) > 0,
    decreases bytes.len(),
{
    if bytes.len() > 1 {
        lemma_be_value_positive(bytes.drop_last());
    }
}

/// The encoding of a positive number starts with a byte other than zero.
pub proof fn lemma_be_bytes_leading(n: nat)
    requires
        n > 0,
    ensures
        be_bytes(n).len() > 0,
        be_bytes(n)[0] != 0,
    decreases n,
{
    if n >= 256 {
        lemma_be_bytes_leading(n / 256);
    }
}

/// `be_bytes(n)` is minimal and denotes `n`.
pub proof fn lemma_be_bytes_value(n: nat)
    ensures
        is_minimal(be_bytes(n)),
        be_value(be_bytes(n)) == n,
    decreases n,
{
    if n < 256 {
        lemma_be_value_push(Seq::<u8>::empty(), n as u8);
        assert(be_bytes(n) =~= Seq::<u8>::empty().push(n as u8));
    } else {
        lemma_be_bytes_value(n / 256);
        lemma_be_bytes_leading(n / 256);
        lemma_be_value_push(be_bytes(n / 256), (n % 256) as u8);
    }
}

/// `le_bytes(n, len)` has `len` bytes.
pub proof fn lemma_le_bytes_len(n: nat, len: nat)
    ensures
        le_bytes(n, len).len() == len,
    decreases len,
{
    if len > 0 {
        lemma_le_bytes_len(n / 256, (len - 1) as nat);
    }
}

/// A minimal byte string is the encoding of the number it denotes: each
/// number has exactly one minimal encoding.
pub proof fn lemma_minimal_is_be_bytes(bytes: Seq<u8>)
    requires
        is_minimal(bytes),
    ensures
        bytes == be_bytes(be_value(bytes)),
    decreases bytes.len(),
{
    let head = bytes.drop_last();
    if bytes.len() == 1 {
        assert(head =~= Seq::<u8>::empty());
        assert(bytes =~= seq![bytes[0]]);
    } else {
        lemma_minimal_is_be_bytes(head);
        lemma_be_value_positive(head);
        assert(bytes =~= head.push(bytes.last()));
    }
}

} // verus!
