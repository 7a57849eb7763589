//! What numerals, hexadecimal text, JSON text and length prefixes stand for.
use vstd::prelude::*;

verus! {

/// The number that decimal digits stand for, the most significant first.
pub open spec fn number_of(digits: Seq<char>) -> int
    decreases digits.len(),
{
    if digits.len() == 0 {
        0
    } else {
        10 * number_of(digits.drop_last()) + (digits.last() as int - '0' as int)
    }
}

/// A numeral is made of digits that stand for its number, with no zero in front but for
/// zero itself.
pub proof fn law_numerals_stand_for_their_number(n: nat)
    ensures
        number_of(crate::text::decimal(n)) == n,
        crate::text::decimal(n).len() >= 1,
        forall|i: int|
            0 <= i < crate::text::decimal(n).len() ==> '0' <= #[trigger] crate::text::decimal(n)[i]
                <= '9',
        n > 0 ==> crate::text::decimal(n)[0] != '0',
        n == 0 ==> crate::text::decimal(n) == seq!['0'],
    decreases n,
{
    let text = crate::text::decimal(n);
    if n < 10 {
        assert(text.drop_last() =~= Seq::<char>::empty());
        assert(number_of(text.drop_last()) == 0);
    } else {
        law_numerals_stand_for_their_number(n / 10);
        assert(text.drop_last() =~= crate::text::decimal(n / 10));
    }
}

/// A text occurs in another where the other is made of it and of something on both sides.
pub proof fn law_occurrences(needle: Seq<char>, haystack: Seq<char>)
    ensures
        forall|front: Seq<char>, back: Seq<char>|
            haystack == #[trigger] (front + needle + back) ==> crate::text::occurs_in(
                needle,
                haystack,
            ),
        crate::text::occurs_in(needle, haystack) ==> exists|front: Seq<char>, back: Seq<char>|
            haystack == #[trigger] (front + needle + back),
{
    assert forall|front: Seq<char>, back: Seq<char>|
        haystack == #[trigger] (front + needle + back) implies crate::text::occurs_in(
        needle,
        haystack,
    ) by {
        let at = front.len() as int;
        assert(haystack.subrange(at, at + needle.len()) =~= needle);
        assert(crate::text::occurs_at(needle, haystack, at));
    }
    if crate::text::occurs_in(needle, haystack) {
        let at = choose|at: int| #[trigger] crate::text::occurs_at(needle, haystack, at);
        let front = haystack.take(at);
        let back = haystack.skip(at + needle.len());
        assert(haystack =~= front + haystack.subrange(at, at + needle.len()) + back);
        assert(haystack == front + needle + back);
    }
}

/// The value of a lowercase hexadecimal digit.
pub open spec fn nibble(c: char) -> int {
    if c <= '9' {
        c as int - '0' as int
    } else {
        c as int - 'a' as int + 10
    }
}

/// The character is a lowercase hexadecimal digit.
pub open spec fn is_nibble(c: char) -> bool {
    '0' <= c <= '9' || 'a' <= c <= 'f'
}

/// Hexadecimal text has two lowercase digits to a byte, the high one first, in byte order,
/// and reads back as the bytes.
pub proof fn law_hex_text(bytes: Seq<u8>)
    ensures
        crate::hex::hex_text(bytes).len() == 2 * bytes.len(),
        forall|i: int|
            0 <= i < crate::hex::hex_text(bytes).len() ==> is_nibble(
                #[trigger] crate::hex::hex_text(bytes)[i],
            ),
        forall|i: int|
            0 <= i < bytes.len() ==> #[trigger] bytes[i] == 16 * nibble(
                crate::hex::hex_text(bytes)[2 * i],
            ) + nibble(crate::hex::hex_text(bytes)[2 * i + 1]),
        crate::hex::hex_bytes(crate::hex::hex_text(bytes)) == Some(bytes),
{
    crate::hex::lemma_hex_round_trip(bytes);
    let text = crate::hex::hex_text(bytes);
    assert forall|i: int| 0 <= i < bytes.len() implies #[trigger] bytes[i] == 16 * nibble(
        text[2 * i],
    ) + nibble(text[2 * i + 1]) by {
        assert((2 * i) / 2 == i && (2 * i) % 2 == 0);
        assert((2 * i + 1) / 2 == i && (2 * i + 1) % 2 == 1);
        assert(text[2 * i] == crate::hex::hex_character(bytes[i] as int / 16));
        assert(text[2 * i + 1] == crate::hex::hex_character(bytes[i] as int % 16));
    }
}

/// Texts of different byte strings differ.
pub proof fn law_hex_text_tells_apart(one: Seq<u8>, other: Seq<u8>)
    requires
        crate::hex::hex_text(one) == crate::hex::hex_text(other),
    ensures
        one == other,
{
    crate::hex::lemma_hex_round_trip(one);
    crate::hex::lemma_hex_round_trip(other);
}

/// One more text stands behind the others, with a comma in between.
pub proof fn law_commas_separate(texts: Seq<Seq<char>>, text: Seq<char>)
    ensures
        crate::json::comma_separated(Seq::empty()) == Seq::<char>::empty(),
        crate::json::comma_separated(seq![text]) == text,
        texts.len() > 0 ==> crate::json::comma_separated(texts.push(text))
            == crate::json::comma_separated(texts) + seq![','] + text,
        crate::json::array_text(texts) == seq!['['] + crate::json::comma_separated(texts)
            + seq![']'],
{
    assert(texts.push(text).drop_last() =~= texts);
}

/// The texts of values are those of each, in order.
pub proof fn law_texts_follow_values(values: Seq<serde_json::Value>, value: serde_json::Value)
    ensures
        crate::json::texts_of(Seq::empty()) == Seq::<Seq<char>>::empty(),
        crate::json::texts_of(values.push(value)) == crate::json::texts_of(values).push(
            crate::json::json_text(value),
        ),
{
}

/// Digits, with no needless zero in front, a point and more digits are a decimal fraction,
/// as long as they are few.
pub proof fn law_fractions(front: Seq<char>, back: Seq<char>)
    requires
        front.len() > 0,
        back.len() > 0,
        front.len() + back.len() < 100,
        forall|i: int| 0 <= i < front.len() ==> '0' <= #[trigger] front[i] <= '9',
        forall|i: int| 0 <= i < back.len() ==> '0' <= #[trigger] back[i] <= '9',
        front[0] == '0' ==> front.len() == 1,
    ensures
        crate::json::is_fraction(front + seq!['.'] + back),
{
    let text = front + seq!['.'] + back;
    let point = front.len() as int;
    assert forall|i: int| 0 <= i < text.len() && i != point implies '0' <= #[trigger] text[i]
        <= '9' by {
        if i < point {
            assert(text[i] == front[i]);
        } else {
            assert(text[i] == back[i - point - 1]);
        }
    }
    assert(crate::json::fraction_at(text, point));
}

/// `a` and `b` agree before place `n`, and there `a` ends or has the smaller character.
pub open spec fn text_differs_at(a: Seq<char>, b: Seq<char>, n: int) -> bool {
    &&& 0 <= n <= a.len()
    &&& n < b.len()
    &&& forall|i: int| 0 <= i < n ==> a[i] == b[i]
    &&& n < a.len() ==> a[n] < b[n]
}

/// Texts are ordered by the first place where they differ, and a proper prefix stands
/// before what it is a prefix of.
pub proof fn law_text_order(a: Seq<char>, b: Seq<char>)
    ensures
        crate::json::text_before(a, b) <==> exists|n: int| #[trigger] text_differs_at(a, b, n),
    decreases a.len(),
{
    if a.len() > 0 && b.len() > 0 && a[0] == b[0] {
        law_text_order(a.drop_first(), b.drop_first());
        if crate::json::text_before(a, b) {
            let n = choose|n: int| #[trigger] text_differs_at(a.drop_first(), b.drop_first(), n);
            assert forall|i: int| 0 <= i < n + 1 implies a[i] == b[i] by {
                if i > 0 {
                    assert(a.drop_first()[i - 1] == b.drop_first()[i - 1]);
                }
            }
            assert(text_differs_at(a, b, n + 1));
        }
        if exists|n: int| #[trigger] text_differs_at(a, b, n) {
            let n = choose|n: int| #[trigger] text_differs_at(a, b, n);
            assert(n > 0);
            assert(text_differs_at(a.drop_first(), b.drop_first(), n - 1));
        }
    } else if b.len() > 0 {
        if a.len() == 0 || a[0] < b[0] {
            assert(text_differs_at(a, b, 0));
        } else if exists|n: int| #[trigger] text_differs_at(a, b, n) {
            let n = choose|n: int| #[trigger] text_differs_at(a, b, n);
            assert(n == 0 || a[0] == b[0]);
        }
    }
}

/// `keys` holds every key of the members and no other, in ascending order.
pub open spec fn in_text_order(keys: Seq<Seq<char>>, members: Map<Seq<char>, Seq<char>>) -> bool {
    &&& forall|i: int, j: int|
        #![trigger keys[i], keys[j]]
        0 <= i < j < keys.len() ==> exists|n: int| #[trigger] text_differs_at(keys[i], keys[j], n)
    &&& forall|i: int| 0 <= i < keys.len() ==> members.contains_key(#[trigger] keys[i])
    &&& forall|key: Seq<char>| #[trigger]
        members.contains_key(key) ==> exists|i: int|
            0 <= i < keys.len() && #[trigger] keys[i] == key
}

/// The text of an object has every member and no other, in ascending order of the keys,
/// each as its quoted key, a colon and its value.
pub proof fn law_object_text(keys: Seq<Seq<char>>, members: Map<Seq<char>, Seq<char>>)
    requires
        in_text_order(keys, members),
    ensures
        crate::json::object_text(members) == seq!['{'] + crate::json::comma_separated(
            Seq::new(
                keys.len(),
                |i: int| crate::json::json_quoted(keys[i]) + seq![':'] + members[keys[i]],
            ),
        ) + seq!['}'],
{
    assert forall|i: int, j: int| 0 <= i < j < keys.len() implies crate::json::text_before(
        #[trigger] keys[i],
        #[trigger] keys[j],
    ) by {
        law_text_order(keys[i], keys[j]);
    }
    assert forall|key: Seq<char>| #[trigger] keys.contains(key) <==> members.contains_key(key) by {
        if members.contains_key(key) {
            let i = choose|i: int| 0 <= i < keys.len() && #[trigger] keys[i] == key;
            assert(keys[i] == key);
        }
    }
    crate::json::lemma_member_order(keys, members);
}

proof fn lemma_varint_is_canonical(bytes: Seq<u8>, at: int)
    requires
        0 <= at,
    ensures
        crate::codec::varint_at(bytes, at) matches Some((value, end)) ==> {
            &&& at < end <= 5
            &&& end <= bytes.len()
            &&& 0 <= value
            &&& at > 0 ==> value > 0
            &&& bytes.subrange(at, end) == crate::codec::varint_bytes(value as nat)
        },
    decreases 5 - at,
{
    if at <= 4 {
        lemma_varint_is_canonical(bytes, at + 1);
        if let Some((value, end)) = crate::codec::varint_at(bytes, at) {
            if bytes[at] < 128 {
                assert(bytes.subrange(at, end) =~= seq![bytes[at]]);
            } else {
                let high = (crate::codec::varint_at(bytes, at + 1)->0).0;
                assert(value == bytes[at] - 128 + 128 * high);
                assert(value / 128 == high && value % 128 == bytes[at] - 128);
                assert((value % 128 + 128) as u8 == bytes[at]);
                assert(bytes.subrange(at, end) =~= seq![bytes[at]] + bytes.subrange(at + 1, end));
            }
        }
    }
}

/// A length prefix that is read is the encoding of the length, which is within the range;
/// and an encoded length within the range is read.
pub proof fn law_length_prefixes(bytes: Seq<u8>, max: usize, length: usize, rest: Seq<u8>)
    ensures
        crate::codec::length_prefix_of(bytes, max) matches Some((found, size)) ==> {
            &&& 1 <= found <= max
            &&& 1 <= size <= 5
            &&& size <= bytes.len()
            &&& bytes.take(size as int) == crate::codec::varint_bytes(found as nat)
        },
        1 <= length <= max && length <= u32::MAX ==> crate::codec::length_prefix_of(
            crate::codec::varint_bytes(length as nat) + rest,
            max,
        ) == Some((length, crate::codec::varint_bytes(length as nat).len() as usize)),
{
    lemma_varint_is_canonical(bytes, 0);
    if let Some((found, size)) = crate::codec::length_prefix_of(bytes, max) {
        assert(bytes.take(size as int) =~= bytes.subrange(0, size as int));
    }
    if 1 <= length <= max && length <= u32::MAX {
        crate::codec::lemma_length_round_trip(length, max, rest);
    }
}

/// The number that the bytes of a variable-length integer stand for: seven bits to a
/// byte, the least significant first.
pub open spec fn varint_number(bytes: Seq<u8>) -> int
    decreases bytes.len(),
{
    if bytes.len() == 0 {
        0
    } else {
        bytes[0] as int % 128 + 128 * varint_number(bytes.drop_first())
    }
}

/// The bytes of a variable-length integer stand for it; all but the last are marked, and
/// the last is zero for zero alone.
pub proof fn law_varints_stand_for_their_number(value: nat)
    ensures
        ({
            let bytes = crate::codec::varint_bytes(value);
            &&& bytes.len() >= 1
            &&& varint_number(bytes) == value
            &&& forall|i: int| 0 <= i < bytes.len() - 1 ==> #[trigger] bytes[i] >= 128
            &&& bytes.last() < 128
            &&& bytes.len() > 1 ==> bytes.last() > 0
            &&& value == 0 ==> bytes.len() == 1
            &&& value > 0 ==> bytes.last() > 0
        }),
    decreases value,
{
    let bytes = crate::codec::varint_bytes(value);
    if value < 128 {
        assert(bytes.drop_first() =~= Seq::<u8>::empty());
        assert(varint_number(bytes.drop_first()) == 0);
    } else {
        law_varints_stand_for_their_number(value / 128);
        let rest = crate::codec::varint_bytes(value / 128);
        assert(bytes.drop_first() =~= rest);
        assert forall|i: int| 0 <= i < bytes.len() - 1 implies #[trigger] bytes[i] >= 128 by {
            if i > 0 {
                assert(bytes[i] == rest[i - 1]);
            }
        }
        assert(bytes.last() == rest.last());
    }
}

} // verus!
