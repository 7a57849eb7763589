//! Hexadecimal text.
use vstd::prelude::*;

use crate::hash::Digest;

verus! {

/// The lowercase hexadecimal digit of a number below 16.
pub open spec fn hex_character(value: int) -> char {
    if value < 10 {
        ('0' as int + value) as char
    } else {
        ('a' as int + value - 10) as char
    }
}

/// A byte string as lowercase hexadecimal text, two digits to a byte.
pub open spec fn hex_text(bytes: Seq<u8>) -> Seq<char> {
    Seq::new(
        2 * bytes.len(),
        |i: int|
            hex_character(
                if i % 2 == 0 {
                    bytes[i / 2] as int / 16
                } else {
                    bytes[i / 2] as int % 16
                },
            ),
    )
}

/// Calls `ToString::to_string` on the digest type of `commonware_cryptography`,
/// which writes the digest's bytes as lowercase hexadecimal text.
#[verifier::external_body]
pub(crate) fn digest_text(digest: &Digest) -> (text: String)
    ensures
        text@ == hex_text(digest.0@),
{
    commonware_cryptography::sha256::Digest(digest.0).to_string()
}

/// White space that may stand anywhere in hexadecimal text.
pub open spec fn is_blank(c: char) -> bool {
    c == '\t' || c == '\n' || c == '\r' || c == ' '
}

/// The value of a hexadecimal digit, in either case.
pub open spec fn hex_digit(c: char) -> Option<int> {
    if '0' <= c && c <= '9' {
        Some(c as int - '0' as int)
    } else if 'a' <= c && c <= 'f' {
        Some(c as int - 'a' as int + 10)
    } else if 'A' <= c && c <= 'F' {
        Some(c as int - 'A' as int + 10)
    } else {
        None
    }
}

/// The text without the prefix `0X`, where it has it.
pub open spec fn strip_upper_prefix(text: Seq<char>) -> Seq<char> {
    if text.len() >= 2 && text[0] == '0' && text[1] == 'X' {
        text.skip(2)
    } else {
        text
    }
}

/// The text without the prefix `0x` or `0X`, where it has it.
pub open spec fn strip_prefix(text: Seq<char>) -> Seq<char> {
    if text.len() >= 2 && text[0] == '0' && (text[1] == 'x' || text[1] == 'X') {
        text.skip(2)
    } else {
        text
    }
}

/// The digits of hexadecimal text: what is left without white space and without a
/// prefix. Behind a prefix `0X` another one is taken off as well.
pub open spec fn hex_digits(text: Seq<char>) -> Seq<char> {
    strip_prefix(strip_upper_prefix(text.filter(|c: char| !is_blank(c))))
}

/// The bytes that hexadecimal text stands for, two digits to a byte; none where
/// something else than digits stands in it, or an odd number of them.
pub open spec fn hex_bytes(text: Seq<char>) -> Option<Seq<u8>> {
    let digits = hex_digits(text);
    if digits.len() % 2 == 0 && forall|i: int|
        0 <= i < digits.len() ==> hex_digit(#[trigger] digits[i]) is Some {
        Some(
            Seq::new(
                digits.len() / 2,
                |i: int|
                    (16 * hex_digit(digits[2 * i])->0 + hex_digit(digits[2 * i + 1])->0) as u8,
            ),
        )
    } else {
        None
    }
}

/// Calls `commonware_formatting::from_hex`, which drops tabs, line breaks and
/// spaces, takes off a prefix `0x` or `0X` (two of them where the first is `0X`),
/// and decodes an even number of digits of either case; other text it refuses.
#[verifier::external_body]
pub(crate) fn from_hex(text: &str) -> (bytes: Option<Vec<u8>>)
    ensures
        match bytes {
            Some(bytes) => hex_bytes(text@) == Some(bytes@),
            None => hex_bytes(text@) is None,
        },
{
    commonware_formatting::from_hex(text)
}

proof fn lemma_filter_keeps(text: Seq<char>, keep: spec_fn(char) -> bool)
    requires
        forall|i: int| 0 <= i < text.len() ==> keep(#[trigger] text[i]),
    ensures
        text.filter(keep) == text,
    decreases text.len(),
{
    reveal(Seq::filter);
    if text.len() > 0 {
        lemma_filter_keeps(text.drop_last(), keep);
        assert(text =~= text.drop_last().push(text.last()));
    }
}

/// Lowercase hexadecimal text reads back as the bytes that it was written for.
pub proof fn lemma_hex_round_trip(bytes: Seq<u8>)
    ensures
        hex_bytes(hex_text(bytes)) == Some(bytes),
{
    let text = hex_text(bytes);
    let keep = |c: char| !is_blank(c);
    assert forall|i: int| 0 <= i < text.len() implies keep(#[trigger] text[i]) && hex_digit(text[i])
        == Some(
        if i % 2 == 0 {
            bytes[i / 2] as int / 16
        } else {
            bytes[i / 2] as int % 16
        },
    ) && text[i] != 'x' && text[i] != 'X' by {}
    lemma_filter_keeps(text, keep);
    assert(hex_digits(text) == text);
    let decoded = hex_bytes(text)->0;
    assert forall|i: int| 0 <= i < bytes.len() implies decoded[i] == bytes[i] by {
        assert(hex_digit(text[2 * i]) == Some(bytes[i] as int / 16));
        assert(hex_digit(text[2 * i + 1]) == Some(bytes[i] as int % 16));
    }
    assert(decoded =~= bytes);
}

} // verus!
