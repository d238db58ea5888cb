//! Numerals: how a string of digits denotes a number, and how a number is
//! written in decimal and in hexadecimal.

use vstd::prelude::*;

verus! {

/// The digit that a character stands for: `0`-`9` are 0 to 9, and the
/// letters `a`-`z`, in either case, are 10 to 35. Any other character is no digit.
pub open spec fn digit_of(c: char) -> Option<nat> {
    if '0' <= c <= '9' {
        Some((c as nat - '0' as nat) as nat)
    } else if 'a' <= c <= 'z' {
        Some((c as nat - 'a' as nat + 10) as nat)
    } else if 'A' <= c <= 'Z' {
        Some((c as nat - 'A' as nat + 10) as nat)
    } else {
        None
    }
}

/// Whether `c` is a digit of the given radix.
pub open spec fn is_digit(c: char, radix: nat) -> bool {
    digit_of(c) matches Some(d) && d < radix
}

/// The unsigned part of a numeral: at least one character, the first one
/// no underscore, each one a digit of the radix or an underscore.
pub open spec fn is_numeral_body(s: Seq<char>, radix: nat) -> bool {
    &&& s.len() > 0
    &&& s[0] != '_'
    &&& forall|i: int| 0 <= i < s.len() ==> s[i] == '_' || is_digit(#[trigger] s[i], radix)
}

/// The number that the digits of `s` denote in the given radix, most
/// significant digit first. Underscores separate digits and count for nothing.
pub open spec fn body_value(s: Seq<char>, radix: nat) -> nat
    decreases s.len(),
{
    if s.len() == 0 {
        0
    } else if s.last() == '_' {
        body_value(s.drop_last(), radix)
    } else {
        body_value(s.drop_last(), radix) * radix + digit_of(s.last()).unwrap()
    }
}

/// The integer that a numeral denotes: an optional single sign, `-` or `+`,
/// and then a numeral body. `None` where `s` is no numeral of the radix.
pub open spec fn parse_numeral(s: Seq<char>, radix: nat) -> Option<int> {
    let negative = s.len() > 0 && s[0] == '-';
    let signed = s.len() > 0 && (s[0] == '-' || s[0] == '+');
    let body = if signed {
        s.skip(1)
    } else {
        s
    };
    if !is_numeral_body(body, radix) {
        None
    } else if negative {
        Some(-(body_value(body, radix) as int))
    } else {
        Some(body_value(body, radix) as int)
    }
}

/// The character that writes a digit below ten.
pub open spec fn decimal_char(d: nat) -> char {
    ('0' as nat + d) as char
}

/// The character that writes a digit below sixteen, in lower case.
pub open spec fn hex_char(d: nat) -> char {
    if d < 10 {
        ('0' as nat + d) as char
    } else {
        ('a' as nat + d - 10) as char
    }
}

/// The decimal digits of `n`, most significant first and without leading
/// zeros; zero is written `0`.
pub open spec fn decimal_digits(n: nat) -> Seq<char>
    decreases n,
{
    if n < 10 {
        seq![decimal_char(n)]
    } else {
        decimal_digits(n / 10).push(decimal_char(n % 10))
    }
}

/// The decimal numeral of an integer: its digits, behind a `-` where it is negative.
pub open spec fn signed_decimal(v: int) -> Seq<char> {
    if v < 0 {
        seq!['-'] + decimal_digits((-v) as nat)
    } else {
        decimal_digits(v as nat)
    }
}

/// A canonical decimal numeral: decimal digits only, at least one, and no
/// leading zero but in `0` itself.
pub open spec fn is_canonical_decimal(s: Seq<char>) -> bool {
    &&& s.len() > 0
    &&& forall|i: int| 0 <= i < s.len() ==> '0' <= #[trigger] s[i] <= '9'
    &&& (s.len() == 1 || s[0] != '0')
}

/// Two lower-case hexadecimal digits for each byte, high nibble first.
pub open spec fn hex_encoding(bytes: Seq<u8>) -> Seq<char> {
    Seq::new(
        2 * bytes.len(),
        |i: int|
            if i % 2 == 0 {
                hex_char((bytes[i / 2] / 16) as nat)
            } else {
                hex_char((bytes[i / 2] % 16) as nat)
            },
    )
}

/// A run of digits of the radix: at least one character, and nothing but digits.
pub open spec fn is_digit_string(s: Seq<char>, radix: nat) -> bool {
    &&& s.len() > 0
    &&& forall|i: int| 0 <= i < s.len() ==> is_digit(#[trigger] s[i], radix)
}

/// Appending a digit multiplies the number by the radix and adds the digit.
pub proof fn lemma_body_value_push(s: Seq<char>, c: char, radix: nat)
    requires
        is_digit(c, radix),
    ensures
        body_value(s.push(c), radix) == body_value(s, radix) * radix + digit_of(c).unwrap(),
{
    assert(s.push(c).drop_last() =~= s);
}

/// A run of digits is a numeral, and denotes the number that its digits spell.
pub proof fn lemma_digit_string_parses(s: Seq<char>, radix: nat)
    requires
        is_digit_string(s, radix),
    ensures
        parse_numeral(s, radix) == Some(body_value(s, radix) as int),
{
    assert(is_digit(s[0], radix));
    assert forall|i: int| 0 <= i < s.len() implies s[i] == '_' || is_digit(
        #[trigger] s[i],
        radix,
    ) by {
        assert(is_digit(s[i], radix));
    }
}

/// The decimal digits of a number are a canonical decimal numeral that denotes the number.
pub proof fn lemma_decimal_digits(n: nat)
    ensures
        is_canonical_decimal(decimal_digits(n)),
        is_digit_string(decimal_digits(n), 10),
        body_value(decimal_digits(n), 10) == n,
    decreases n,
{
    if n < 10 {
        let c = decimal_char(n);
        assert(is_digit(c, 10));
        lemma_body_value_push(Seq::<char>::empty(), c, 10);
        assert(decimal_digits(n) =~= Seq::<char>::empty().push(c));
    } else {
        let head = decimal_digits(n / 10);
        let c = decimal_char(n % 10);
        lemma_decimal_digits(n / 10);
        assert(is_digit(c, 10));
        lemma_body_value_push(head, c, 10);
        if head.len() == 1 && head[0] == '0' {
            lemma_body_value_push(Seq::<char>::empty(), '0', 10);
            assert(head =~= Seq::<char>::empty().push('0'));
        }
        let s = decimal_digits(n);
        assert forall|i: int| 0 <= i < s.len() implies is_digit(#[trigger] s[i], 10) by {
            if i < head.len() {
                assert(is_digit(head[i], 10));
            }
        }
        assert forall|i: int| 0 <= i < s.len() implies '0' <= #[trigger] s[i] <= '9' by {
            if i < head.len() {
                assert('0' <= head[i] <= '9');
            }
        }
    }
}

/// The hex encoding of a byte string with one more byte is the encoding of
/// the string and then the two digits of the byte.
pub proof fn lemma_hex_encoding_push(bytes: Seq<u8>, byte: u8)
    ensures
        hex_encoding(bytes.push(byte)) == hex_encoding(bytes).push(
            hex_char((byte / 16) as nat),
        ).push(hex_char((byte % 16) as nat)),
{
    assert(hex_encoding(bytes.push(byte)) =~= hex_encoding(bytes).push(
        hex_char((byte / 16) as nat),
    ).push(hex_char((byte % 16) as nat)));
}

} // verus!
