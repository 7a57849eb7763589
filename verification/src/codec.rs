//! Fixed-size binary encoding of integers and digests.
use vstd::prelude::*;

use commonware_codec::{Read, ReadExt, Write};

use crate::hash::Digest;

verus! {

#[verifier::external_type_specification]
#[verifier::external_body]
pub struct ExCodecError(commonware_codec::Error);

/// The eight bytes of an integer, the most significant first.
pub open spec fn be_bytes(value: u64) -> Seq<u8> {
    seq![
        (value >> 56) as u8,
        ((value >> 48) & 0xff) as u8,
        ((value >> 40) & 0xff) as u8,
        ((value >> 32) & 0xff) as u8,
        ((value >> 24) & 0xff) as u8,
        ((value >> 16) & 0xff) as u8,
        ((value >> 8) & 0xff) as u8,
        (value & 0xff) as u8,
    ]
}

/// The integer that eight bytes encode, the most significant first.
pub open spec fn be_value(bytes: Seq<u8>) -> u64 {
    ((bytes[0] as u64) << 56) | ((bytes[1] as u64) << 48) | ((bytes[2] as u64) << 40) | ((
    bytes[3] as u64) << 32) | ((bytes[4] as u64) << 24) | ((bytes[5] as u64) << 16) | ((
    bytes[6] as u64) << 8) | (bytes[7] as u64)
}

/// The bytes of an integer encode that integer.
pub proof fn lemma_be_round_trip(value: u64)
    ensures
        be_value(be_bytes(value)) == value,
{
    assert((((value >> 56) as u8) as u64) << 56 | ((((value >> 48) & 0xff) as u8) as u64) << 48 | ((
    ((value >> 40) & 0xff) as u8) as u64) << 40 | ((((value >> 32) & 0xff) as u8) as u64) << 32 | ((
    ((value >> 24) & 0xff) as u8) as u64) << 24 | ((((value >> 16) & 0xff) as u8) as u64) << 16 | ((
    ((value >> 8) & 0xff) as u8) as u64) << 8 | (((value & 0xff) as u8) as u64) == value)
        by (bit_vector);
}

/// The variable-length integer that starts at `at`, and where it ends. Each byte holds
/// seven bits, the least significant first, and all but the last are marked by their
/// highest bit. There are at most five bytes, their value fits into 32 bits, and a last
/// byte of zero may not stand behind another.
pub open spec fn varint_at(bytes: Seq<u8>, at: int) -> Option<(int, int)>
    decreases 5 - at,
{
    if at < 0 || at > 4 || at >= bytes.len() {
        None
    } else if at > 0 && bytes[at] == 0 {
        None
    } else if at == 4 && bytes[at] > 15 {
        None
    } else if bytes[at] < 128 {
        Some((bytes[at] as int, at + 1))
    } else {
        match varint_at(bytes, at + 1) {
            Some((high, end)) => Some((bytes[at] - 128 + 128 * high, end)),
            None => None,
        }
    }
}

/// The length prefix at the front of a byte string, where it is one of the lengths
/// from one up to `max`, and the number of bytes that it takes.
pub open spec fn length_prefix_of(bytes: Seq<u8>, max: usize) -> Option<(usize, usize)> {
    match varint_at(bytes, 0) {
        Some((length, end)) => if 1 <= length <= max {
            Some((length as usize, end as usize))
        } else {
            None
        },
        None => None,
    }
}

/// The bytes of a number as a variable-length integer.
pub open spec fn varint_bytes(value: nat) -> Seq<u8>
    decreases value,
{
    if value < 128 {
        seq![value as u8]
    } else {
        seq![(value % 128 + 128) as u8] + varint_bytes(value / 128)
    }
}

/// A variable-length integer takes one to five bytes of the input.
pub proof fn lemma_varint_bounds(bytes: Seq<u8>, at: int)
    requires
        0 <= at,
    ensures
        varint_at(bytes, at) matches Some((value, end)) ==> {
            &&& at < end <= 5
            &&& end <= bytes.len()
            &&& 0 <= value
        },
    decreases 5 - at,
{
    if at <= 4 {
        lemma_varint_bounds(bytes, at + 1);
    }
}

/// The numbers that a variable-length integer can hold from its byte `at` on.
spec fn varint_limit(at: int) -> int {
    if at == 0 {
        0x1_0000_0000
    } else if at == 1 {
        0x200_0000
    } else if at == 2 {
        0x4_0000
    } else if at == 3 {
        0x800
    } else {
        0x10
    }
}

proof fn lemma_varint_reads_back(front: Seq<u8>, value: nat, rest: Seq<u8>)
    requires
        front.len() <= 4,
        value < varint_limit(front.len() as int),
        front.len() > 0 ==> value > 0,
    ensures
        1 <= varint_bytes(value).len() <= 5 - front.len(),
        varint_at(front + varint_bytes(value) + rest, front.len() as int) == Some(
            (value as int, (front.len() + varint_bytes(value).len()) as int),
        ),
    decreases value,
{
    let bytes = front + varint_bytes(value) + rest;
    let at = front.len() as int;
    assert(bytes[at] == varint_bytes(value)[0]);
    if value >= 128 {
        let low = (value % 128 + 128) as u8;
        lemma_varint_reads_back(front.push(low), value / 128, rest);
        assert(front.push(low) + varint_bytes(value / 128) + rest =~= bytes);
    }
}

/// An encoded length reads back: behind it the input goes on.
pub proof fn lemma_length_round_trip(length: usize, max: usize, rest: Seq<u8>)
    requires
        1 <= length <= max,
        length <= u32::MAX,
    ensures
        1 <= varint_bytes(length as nat).len() <= 5,
        length_prefix_of(varint_bytes(length as nat) + rest, max) == Some(
            (length, varint_bytes(length as nat).len() as usize),
        ),
{
    lemma_varint_reads_back(Seq::empty(), length as nat, rest);
    assert(Seq::<u8>::empty() + varint_bytes(length as nat) + rest =~= varint_bytes(length as nat)
        + rest);
}

/// Calls `Read::read_cfg` of `commonware_codec` for `usize` with the range from one
/// up to `max`, which takes a variable-length integer from the front, and fails where
/// there is none or where it is outside the range. Nothing is said of how much of the
/// input is taken where it fails.
#[verifier::external_body]
pub(crate) fn read_length(buffer: &mut &[u8], max: usize) -> (length: Option<usize>)
    requires
        max >= 1,
    ensures
        length is Some == length_prefix_of(old(buffer)@, max) is Some,
        length matches Some(length) ==> {
            &&& length == (length_prefix_of(old(buffer)@, max)->0).0
            &&& final(buffer)@ == old(buffer)@.skip((length_prefix_of(old(buffer)@, max)->0).1 as int)
        },
{
    usize::read_cfg(buffer, &commonware_codec::RangeCfg::new(1..=max)).ok()
}

/// Calls `Write::write` of `commonware_codec` for `u64`, which appends the eight
/// bytes of the integer, the most significant first.
#[verifier::external_body]
pub(crate) fn write_u64(buffer: &mut Vec<u8>, value: u64)
    ensures
        final(buffer)@ == old(buffer)@ + be_bytes(value),
{
    value.write(buffer);
}

/// Calls `ReadExt::read` of `commonware_codec` for `u64`, which takes eight bytes
/// from the front and fails, taking none, where fewer are left.
#[verifier::external_body]
pub(crate) fn read_u64(buffer: &mut &[u8]) -> (value: Result<u64, commonware_codec::Error>)
    ensures
        value is Ok <==> old(buffer)@.len() >= 8,
        value matches Ok(value) ==> {
            &&& value == be_value(old(buffer)@)
            &&& final(buffer)@ == old(buffer)@.skip(8)
        },
        value is Err ==> final(buffer)@ == old(buffer)@,
{
    u64::read(buffer)
}

/// Calls `Write::write` of `commonware_codec` for the digest type of
/// `commonware_cryptography`, which appends the digest's 32 bytes.
#[verifier::external_body]
pub(crate) fn write_digest(buffer: &mut Vec<u8>, digest: &Digest)
    ensures
        final(buffer)@ == old(buffer)@ + digest.0@,
{
    commonware_cryptography::sha256::Digest(digest.0).write(buffer);
}

/// Calls `ReadExt::read` of `commonware_codec` for the digest type of
/// `commonware_cryptography`, which takes 32 bytes from the front and fails,
/// taking none, where fewer are left.
#[verifier::external_body]
pub(crate) fn read_digest(buffer: &mut &[u8]) -> (digest: Result<Digest, commonware_codec::Error>)
    ensures
        digest is Ok <==> old(buffer)@.len() >= 32,
        digest matches Ok(digest) ==> {
            &&& digest.0@ == old(buffer)@.take(32)
            &&& final(buffer)@ == old(buffer)@.skip(32)
        },
        digest is Err ==> final(buffer)@ == old(buffer)@,
{
    commonware_cryptography::sha256::Digest::read(buffer).map(|digest| Digest(digest.0))
}

} // verus!
