//! JSON documents.
use vstd::prelude::*;

verus! {

#[verifier::external_type_specification]
#[verifier::external_body]
pub struct ExJsonValue(serde_json::Value);

#[verifier::external_type_specification]
#[verifier::external_body]
#[verifier::reject_recursive_types(K)]
#[verifier::reject_recursive_types(V)]
pub struct ExJsonMap<K, V>(serde_json::Map<K, V>);

/// What a JSON value holds, as the compact text that `serde_json` writes of it.
pub uninterp spec fn json_text(value: serde_json::Value) -> Seq<char>;

/// What a JSON map holds: the compact text of the member under each key.
pub uninterp spec fn json_members(map: serde_json::Map<String, serde_json::Value>) -> Map<
    Seq<char>,
    Seq<char>,
>;

/// A text as a JSON string, as `serde_json` writes it.
pub uninterp spec fn json_quoted(text: Seq<char>) -> Seq<char>;

/// The JSON value that a text holds, as compact text, as `serde_json` reads and writes
/// it.
pub uninterp spec fn json_parsed_of(text: Seq<char>) -> Option<Seq<char>>;

/// The JSON value that a byte string holds, as compact text, as `serde_json` reads and
/// writes it.
pub uninterp spec fn json_document_of(bytes: Seq<u8>) -> Option<Seq<char>>;

/// The JSON text of a member of the JSON object that a text holds, as `serde_json`
/// reads the object and writes the member.
pub uninterp spec fn json_member_of(text: Seq<char>, key: Seq<char>) -> Option<Seq<char>>;

/// The string that a JSON text holds, as `serde_json` reads it.
pub uninterp spec fn json_string_of(text: Seq<char>) -> Option<Seq<char>>;

/// The unsigned integer that a JSON text holds, as `serde_json` reads it.
pub uninterp spec fn json_unsigned_of(text: Seq<char>) -> Option<u64>;

/// The texts, one after the other, with commas between them.
pub open spec fn comma_separated(texts: Seq<Seq<char>>) -> Seq<char>
    decreases texts.len(),
{
    if texts.len() == 0 {
        seq![]
    } else if texts.len() == 1 {
        texts[0]
    } else {
        comma_separated(texts.drop_last()) + seq![','] + texts.last()
    }
}

/// The compact text of an array of values with these texts.
pub open spec fn array_text(items: Seq<Seq<char>>) -> Seq<char> {
    seq!['['] + comma_separated(items) + seq![']']
}

/// The members of an empty object: none.
pub open spec fn no_members() -> Map<Seq<char>, Seq<char>> {
    Map::empty()
}

/// `a` stands before `b` in the lexicographic order of texts.
pub open spec fn text_before(a: Seq<char>, b: Seq<char>) -> bool
    decreases a.len(),
{
    if b.len() == 0 {
        false
    } else if a.len() == 0 {
        true
    } else if a[0] != b[0] {
        a[0] < b[0]
    } else {
        text_before(a.drop_first(), b.drop_first())
    }
}

/// `keys` lists the keys of the members, each once, in ascending order.
pub open spec fn lists_members(keys: Seq<Seq<char>>, members: Map<Seq<char>, Seq<char>>) -> bool {
    &&& forall|i: int, j: int|
        0 <= i < j < keys.len() ==> text_before(#[trigger] keys[i], #[trigger] keys[j])
    &&& forall|key: Seq<char>| #[trigger] keys.contains(key) <==> members.contains_key(key)
}

/// The keys of the members in ascending order.
pub open spec fn member_order(members: Map<Seq<char>, Seq<char>>) -> Seq<Seq<char>> {
    choose|keys: Seq<Seq<char>>| lists_members(keys, members)
}

/// No text stands before itself.
proof fn lemma_text_irreflexive(a: Seq<char>)
    ensures
        !text_before(a, a),
    decreases a.len(),
{
    if a.len() > 0 {
        lemma_text_irreflexive(a.drop_first());
    }
}

/// The order of texts is transitive.
proof fn lemma_text_transitive(a: Seq<char>, b: Seq<char>, c: Seq<char>)
    requires
        text_before(a, b),
        text_before(b, c),
    ensures
        text_before(a, c),
    decreases a.len(),
{
    if a.len() > 0 && a[0] == b[0] && b[0] == c[0] {
        lemma_text_transitive(a.drop_first(), b.drop_first(), c.drop_first());
    }
}

/// There is one listing of the members of an object.
proof fn lemma_one_listing(
    one: Seq<Seq<char>>,
    other: Seq<Seq<char>>,
    members: Map<Seq<char>, Seq<char>>,
)
    requires
        lists_members(one, members),
        lists_members(other, members),
    ensures
        one == other,
    decreases one.len(),
{
    if one.len() == 0 {
        if other.len() > 0 {
            assert(other.contains(other[0]));
            assert(one.contains(other[0]));
        }
        assert(one =~= other);
    } else {
        let last = one.last();
        assert(one.contains(last));
        assert(other.contains(last));
        assert(other.contains(other[other.len() - 1]));
        assert(one.contains(other.last()));
        let i = other.index_of(last);
        let j = one.index_of(other.last());
        if i < other.len() - 1 && j < one.len() - 1 {
            lemma_text_transitive(last, other.last(), last);
            lemma_text_irreflexive(last);
        }
        assert(last == other.last());
        lemma_text_irreflexive(last);
        let fewer = members.remove(last);
        assert forall|key: Seq<char>| #[trigger]
            one.drop_last().contains(key) <==> fewer.contains_key(key) by {
            if one.drop_last().contains(key) {
                let m = one.drop_last().index_of(key);
                assert(one[m] == key);
                assert(one.contains(key));
            }
            if fewer.contains_key(key) {
                assert(one.contains(key));
                let n = one.index_of(key);
                assert(n < one.len() - 1);
                assert(one.drop_last()[n] == key);
            }
        }
        assert forall|key: Seq<char>| #[trigger]
            other.drop_last().contains(key) <==> fewer.contains_key(key) by {
            if other.drop_last().contains(key) {
                let m = other.drop_last().index_of(key);
                assert(other[m] == key);
                assert(other.contains(key));
            }
            if fewer.contains_key(key) {
                assert(other.contains(key));
                let n = other.index_of(key);
                assert(n < other.len() - 1);
                assert(other.drop_last()[n] == key);
            }
        }
        lemma_one_listing(one.drop_last(), other.drop_last(), fewer);
        assert(one =~= one.drop_last().push(last));
        assert(other =~= other.drop_last().push(last));
    }
}

/// A listing of the members in ascending order is the order that their text has.
pub proof fn lemma_member_order(keys: Seq<Seq<char>>, members: Map<Seq<char>, Seq<char>>)
    requires
        lists_members(keys, members),
    ensures
        member_order(members) == keys,
{
    lemma_one_listing(member_order(members), keys, members);
}

/// The compact text of an object with these members, in ascending order of their keys.
pub open spec fn object_text(members: Map<Seq<char>, Seq<char>>) -> Seq<char> {
    let keys = member_order(members);
    seq!['{'] + comma_separated(
        Seq::new(keys.len(), |i: int| json_quoted(keys[i]) + seq![':'] + members[keys[i]]),
    ) + seq!['}']
}

/// The texts of the values.
pub open spec fn texts_of(values: Seq<serde_json::Value>) -> Seq<Seq<char>> {
    Seq::new(values.len(), |i: int| json_text(values[i]))
}

/// The text is that of a number: no other JSON value begins with a digit or a minus
/// sign.
pub open spec fn number_text(text: Seq<char>) -> bool {
    text.len() > 0 && (text[0] == '-' || '0' <= text[0] <= '9')
}

/// The text is a short decimal fraction, with its point at `point`: digits stand on both
/// sides, without a needless leading zero.
pub open spec fn fraction_at(text: Seq<char>, point: int) -> bool {
    &&& 0 < point < text.len() - 1
    &&& text.len() <= 100
    &&& text[point] == '.'
    &&& forall|i: int| 0 <= i < text.len() && i != point ==> '0' <= #[trigger] text[i] <= '9'
    &&& text[0] == '0' ==> point == 1
}

/// The text is a short decimal fraction.
pub open spec fn is_fraction(text: Seq<char>) -> bool {
    exists|point: int| #[trigger] fraction_at(text, point)
}

/// Makes a `serde_json::Value` of a string: its text is the string in quotes, with what
/// JSON does not allow in them escaped. Reading the text gives the string back.
#[verifier::external_body]
pub(crate) fn string_value(text: &str) -> (value: serde_json::Value)
    ensures
        json_text(value) == json_quoted(text@),
        json_string_of(json_text(value)) == Some(text@),
{
    serde_json::Value::String(text.to_owned())
}

/// Makes a `serde_json::Value` of an integer: its text is the decimal numeral.
#[verifier::external_body]
pub(crate) fn integer_value(number: u64) -> (value: serde_json::Value)
    ensures
        json_text(value) == crate::text::decimal(number as nat),
{
    serde_json::Value::from(number)
}

/// Makes a `serde_json::Value` of a truth value.
#[verifier::external_body]
pub(crate) fn bool_value(truth: bool) -> (value: serde_json::Value)
    ensures
        json_text(value) == (if truth {
            "true"@
        } else {
            "false"@
        }),
{
    serde_json::Value::Bool(truth)
}

/// Makes a `serde_json::Value` of an array: its text has the items in order.
#[verifier::external_body]
pub(crate) fn array_value(items: Vec<serde_json::Value>) -> (value: serde_json::Value)
    ensures
        json_text(value) == array_text(texts_of(items@)),
{
    serde_json::Value::Array(items)
}

/// Calls `serde_json::Map::new`, which makes a map without members.
#[verifier::external_body]
pub(crate) fn new_object() -> (map: serde_json::Map<String, serde_json::Value>)
    ensures
        json_members(map) == no_members(),
{
    serde_json::Map::new()
}

/// Calls `serde_json::Map::insert`, which puts the value under the key, in place of the
/// one that was there.
#[verifier::external_body]
pub(crate) fn insert_member(
    map: &mut serde_json::Map<String, serde_json::Value>,
    key: &str,
    value: serde_json::Value,
)
    ensures
        json_members(*final(map)) == json_members(*old(map)).insert(key@, json_text(value)),
{
    map.insert(key.to_owned(), value);
}

/// Makes a `serde_json::Value` of a map: its text has the members in ascending order of
/// their keys.
#[verifier::external_body]
pub(crate) fn object_value(map: serde_json::Map<String, serde_json::Value>) -> (value:
    serde_json::Value)
    ensures
        json_text(value) == object_text(json_members(map)),
{
    serde_json::Value::Object(map)
}

/// Calls `serde_json::Value::clone`, which gives an equal value.
#[verifier::external_body]
pub(crate) fn copy_value(value: &serde_json::Value) -> (copy: serde_json::Value)
    ensures
        json_text(copy) == json_text(*value),
{
    value.clone()
}

/// Calls `serde_json::Value::to_string`, which writes a value as compact text.
#[verifier::external_body]
pub(crate) fn value_text(value: &serde_json::Value) -> (text: String)
    ensures
        text@ == json_text(*value),
{
    value.to_string()
}

/// Calls `serde_json::from_str`, which reads the value that a text holds. There is none
/// where the text is no JSON. A short decimal fraction is a JSON number.
#[verifier::external_body]
pub(crate) fn parse_text(text: &str) -> (value: Option<serde_json::Value>)
    ensures
        value is Some == json_parsed_of(text@) is Some,
        value matches Some(value) ==> json_parsed_of(text@)->0 == json_text(value),
        is_fraction(text@) ==> value is Some && number_text(json_text(value->0)),
{
    serde_json::from_str(text).ok()
}

/// Calls `serde_json::from_slice`, which reads the value that a byte string holds. There
/// is none where the bytes are no JSON.
#[verifier::external_body]
pub(crate) fn parse_document(bytes: &[u8]) -> (value: Option<serde_json::Value>)
    ensures
        value is Some == json_document_of(bytes@) is Some,
        value matches Some(value) ==> json_document_of(bytes@)->0 == json_text(value),
{
    serde_json::from_slice(bytes).ok()
}

/// Calls `serde_json::Value::is_number`.
#[verifier::external_body]
pub(crate) fn is_number(value: &serde_json::Value) -> (number: bool)
    ensures
        number == number_text(json_text(*value)),
{
    value.is_number()
}

/// Calls `serde_json::Value::is_null`.
#[verifier::external_body]
pub(crate) fn is_null(value: &serde_json::Value) -> (null: bool)
    ensures
        null == (json_text(*value) == "null"@),
{
    value.is_null()
}

/// Calls `serde_json::Value::get`, and gives a copy of the member. There is none where
/// the value is no object, or an object without that member.
#[verifier::external_body]
pub(crate) fn member(value: &serde_json::Value, key: &str) -> (member: Option<serde_json::Value>)
    ensures
        member is Some == json_member_of(json_text(*value), key@) is Some,
        member matches Some(member) ==> json_member_of(json_text(*value), key@)->0 == json_text(
            member,
        ),
{
    value.get(key).cloned()
}

/// Calls `serde_json::Value::as_str`. There is none where the value is no string.
#[verifier::external_body]
pub(crate) fn string_in(value: &serde_json::Value) -> (string: Option<String>)
    ensures
        match string {
            Some(string) => json_string_of(json_text(*value)) == Some(string@),
            None => json_string_of(json_text(*value)) is None,
        },
{
    value.as_str().map(|string| string.to_owned())
}

/// Calls `serde_json::Value::as_u64`. There is none where the value is no number that is
/// an unsigned 64-bit integer.
#[verifier::external_body]
pub(crate) fn unsigned_in(value: &serde_json::Value) -> (number: Option<u64>)
    ensures
        number == json_unsigned_of(json_text(*value)),
{
    value.as_u64()
}

} // verus!
