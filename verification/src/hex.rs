//! Lowercase hexadecimal text for byte strings.

use vstd::prelude::*;

verus! {

/// `String::push` appends one character to the end of the string.
pub assume_specification[ String::push ](s: &mut String, c: char)
    ensures
        final(s)@ == old(s)@.push(c),
;

/// The ASCII code of `0`.
pub const DIGIT_0: u8 = 48;

/// The ASCII code of `9`.
pub const DIGIT_9: u8 = 57;

/// The ASCII code of `A`.
pub const UPPER_A: u8 = 65;

/// The ASCII code of `F`.
pub const UPPER_F: u8 = 70;

/// The ASCII code of `a`.
pub const LOWER_A: u8 = 97;

/// The ASCII code of `f`.
pub const LOWER_F: u8 = 102;

/// The lowercase hexadecimal digit that stands for `n`, for `n` below sixteen.
pub open spec fn hex_digit(n: int) -> char {
    if n < 10 {
        ('0' as int + n) as char
    } else {
        ('a' as int + n - 10) as char
    }
}

/// Whether `c` is one of `0`-`9`, `a`-`f`.
pub open spec fn is_lower_hex_digit(c: char) -> bool {
    ('0' <= c && c <= '9') || ('a' <= c && c <= 'f')
}

/// Whether `c` is a hexadecimal digit of either case.
pub open spec fn is_hex_digit(c: char) -> bool {
    is_lower_hex_digit(c) || ('A' <= c && c <= 'F')
}

/// `c` with the digits `A`-`F` replaced by `a`-`f`.
pub open spec fn lower_hex_digit(c: char) -> char {
    if 'A' <= c && c <= 'F' {
        (c as int - 'A' as int + 'a' as int) as char
    } else {
        c
    }
}

/// `text` with every digit `A`-`F` replaced by its lowercase form.
pub open spec fn lower_hex(text: Seq<char>) -> Seq<char> {
    Seq::new(text.len(), |i: int| lower_hex_digit(text[i]))
}

/// Whether `text` consists of hexadecimal digits of either case.
pub open spec fn is_hex(text: Seq<char>) -> bool {
    forall|i: int| 0 <= i < text.len() ==> is_hex_digit(#[trigger] text[i])
}

/// Whether `text` consists of the digits `0`-`9`, `a`-`f`.
pub open spec fn is_lower_hex(text: Seq<char>) -> bool {
    forall|i: int| 0 <= i < text.len() ==> is_lower_hex_digit(#[trigger] text[i])
}

/// The nibble of `bytes` that the hexadecimal digit at position `i` stands for:
/// the high half of a byte first, then its low half.
pub open spec fn nibble(bytes: Seq<u8>, i: int) -> int {
    if i % 2 == 0 {
        bytes[i / 2] as int / 16
    } else {
        bytes[i / 2] as int % 16
    }
}

/// The lowercase hexadecimal encoding of `bytes`, two digits for each byte.
pub open spec fn hex_lower(bytes: Seq<u8>) -> Seq<char> {
    Seq::new(2 * bytes.len(), |i: int| hex_digit(nibble(bytes, i)))
}

/// The encoding of a byte string is lowercase hexadecimal text, twice as long.
pub proof fn lemma_hex_lower_is_lower_hex(bytes: Seq<u8>)
    ensures
        hex_lower(bytes).len() == 2 * bytes.len(),
        is_lower_hex(hex_lower(bytes)),
        lower_hex(hex_lower(bytes)) == hex_lower(bytes),
{
    assert(forall|i: int|
        0 <= i < hex_lower(bytes).len() ==> is_lower_hex_digit(#[trigger] hex_lower(bytes)[i]));
}

/// Distinct nibbles have distinct digits.
pub proof fn lemma_hex_digit_injective(x: int, y: int)
    requires
        0 <= x < 16,
        0 <= y < 16,
        hex_digit(x) == hex_digit(y),
    ensures
        x == y,
{
}

/// Two byte strings with the same encoding are the same byte string.
pub proof fn lemma_hex_lower_injective(a: Seq<u8>, b: Seq<u8>)
    requires
        hex_lower(a) == hex_lower(b),
    ensures
        a == b,
{
    assert(hex_lower(b).len() == 2 * b.len());
    assert forall|k: int| 0 <= k < a.len() implies a[k] == b[k] by {
        let hi = 2 * k;
        let lo = 2 * k + 1;
        assert(hex_lower(b)[hi] == hex_digit(nibble(b, hi)));
        assert(hex_lower(b)[lo] == hex_digit(nibble(b, lo)));
        lemma_hex_digit_injective(nibble(a, hi), nibble(b, hi));
        lemma_hex_digit_injective(nibble(a, lo), nibble(b, lo));
    }
}

/// The character for the nibble `n`.
fn digit_of(n: u8) -> (c: char)
    requires
        n < 16,
    ensures
        c == hex_digit(n as int),
{
    if n < 10 {
        (DIGIT_0 + n) as char
    } else {
        (LOWER_A + (n - 10)) as char
    }
}

/// Encodes `bytes` as lowercase hexadecimal text.
pub fn encode_hex(bytes: &[u8]) -> (text: String)
    ensures
        text@ == hex_lower(bytes@),
{
    let mut text = String::new();
    let mut i: usize = 0;
    while i < bytes.len()
        invariant
            i <= bytes.len(),
            text@.len() == 2 * i,
            forall|j: int| 0 <= j < 2 * i ==> text@[j] == hex_digit(nibble(bytes@, j)),
        decreases bytes.len() - i,
    {
        let b: u8 = bytes[i];
        text.push(digit_of(b / 16));
        text.push(digit_of(b % 16));
        i += 1;
    }
    text
}

} // verus!
