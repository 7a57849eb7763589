//! Blobs: namespaces, share commitments and their text encoding.
use vstd::prelude::*;

use base64::Engine;

verus! {

/// A blob namespace: a version byte and a 28-byte identifier. Version 0 demands
/// that the identifier begins with 18 zero bytes, version 255 that it begins with
/// 27 bytes of ones; there is no other version.
pub open spec fn valid_namespace(raw: Seq<u8>) -> bool {
    &&& raw.len() == 29
    &&& {
        ||| raw[0] == 0 && forall|i: int| 1 <= i < 19 ==> #[trigger] raw[i] == 0
        ||| raw[0] == 255 && forall|i: int| 1 <= i < 28 ==> #[trigger] raw[i] == 255
    }
}

/// The share commitment of a blob in a valid namespace, as `celestia_types`
/// computes it, or the text of its error.
pub uninterp spec fn blob_commitment_of(namespace: Seq<u8>, data: Seq<u8>) -> Result<
    [u8; 32],
    Seq<char>,
>;

/// The standard Base64 text of a byte string, with padding.
pub uninterp spec fn base64_encoded(data: Seq<u8>) -> Seq<char>;

/// The bytes that a Base64 text stands for, or the text of the error.
pub uninterp spec fn base64_decoded(text: Seq<char>) -> Result<Seq<u8>, Seq<char>>;

/// Calls `celestia_types::nmt::Namespace::from_raw`, which accepts the namespaces
/// that [`valid_namespace`] describes.
#[verifier::external_body]
pub(crate) fn is_namespace(raw: &[u8]) -> (valid: bool)
    ensures
        valid == valid_namespace(raw@),
{
    celestia_types::nmt::Namespace::from_raw(raw).is_ok()
}

/// Calls `celestia_types::Blob::new` without a signer, and gives the hash of the
/// blob's commitment. It fails on data whose length does not fit into 32 bits, and
/// on no other.
#[verifier::external_body]
pub(crate) fn blob_commitment(raw: &[u8], data: &[u8]) -> (commitment: Result<[u8; 32], String>)
    requires
        valid_namespace(raw@),
    ensures
        commitment is Ok <==> data@.len() <= u32::MAX,
        commitment is Ok == blob_commitment_of(raw@, data@) is Ok,
        commitment matches Ok(hash) ==> blob_commitment_of(raw@, data@)->Ok_0 == hash,
        commitment matches Err(error) ==> blob_commitment_of(raw@, data@)->Err_0 == error@,
{
    let namespace = celestia_types::nmt::Namespace::from_raw(raw).expect("valid namespace");
    match celestia_types::Blob::new(namespace, data.to_vec(), None) {
        Ok(blob) => Ok(*blob.commitment.hash()),
        Err(error) => Err(error.to_string()),
    }
}

/// Calls `base64::Engine::encode` of the standard engine. Decoding the text gives
/// the bytes back.
#[verifier::external_body]
pub(crate) fn base64_encode(data: &[u8]) -> (text: String)
    ensures
        text@ == base64_encoded(data@),
        base64_decoded(text@) is Ok,
        base64_decoded(text@)->Ok_0 == data@,
{
    base64::engine::general_purpose::STANDARD.encode(data)
}

/// Calls `base64::Engine::decode` of the standard engine.
#[verifier::external_body]
pub(crate) fn base64_decode(text: &str) -> (data: Result<Vec<u8>, String>)
    ensures
        data is Ok == base64_decoded(text@) is Ok,
        data matches Ok(data) ==> base64_decoded(text@)->Ok_0 == data@,
        data matches Err(error) ==> base64_decoded(text@)->Err_0 == error@,
{
    base64::engine::general_purpose::STANDARD.decode(text).map_err(|error| error.to_string())
}

} // verus!
