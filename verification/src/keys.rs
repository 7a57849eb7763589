//! Ed25519 keys.
use vstd::prelude::*;

use commonware_codec::{Encode, ReadExt};
use commonware_cryptography::Signer;

use crate::chain::PublicKey;

verus! {

/// An Ed25519 private key in its 32-byte encoding.
pub struct PrivateKey(pub [u8; 32]);

/// The private key that `commonware_cryptography` derives from a seed.
pub uninterp spec fn seeded_key_of(seed: u64) -> [u8; 32];

/// The public key of the private key with that encoding, as
/// `commonware_cryptography` computes it.
pub uninterp spec fn public_key_of(private_key: Seq<u8>) -> [u8; 32];

/// Calls `Signer::from_seed` of `commonware_cryptography` for Ed25519, and gives the
/// encoding of the key. The key depends on the seed alone.
#[verifier::external_body]
pub(crate) fn seeded_private_key(seed: u64) -> (key: PrivateKey)
    ensures
        key.0 == seeded_key_of(seed),
{
    let key = commonware_cryptography::ed25519::PrivateKey::from_seed(seed);
    PrivateKey(key.encode().as_ref().try_into().expect("a private key has 32 bytes"))
}

/// Calls `ReadExt::read` of `commonware_codec` for the Ed25519 private key type of
/// `commonware_cryptography`, which takes the first 32 bytes as the key, whatever
/// they are, and fails where there are fewer.
#[verifier::external_body]
pub(crate) fn read_private_key(bytes: &[u8]) -> (key: Option<PrivateKey>)
    ensures
        key is Some <==> bytes@.len() >= 32,
        key matches Some(key) ==> key.0@ == bytes@.take(32),
{
    let mut front: &[u8] = bytes;
    let key = commonware_cryptography::ed25519::PrivateKey::read(&mut front).ok()?;
    Some(PrivateKey(key.encode().as_ref().try_into().expect("a private key has 32 bytes")))
}

/// Calls `Signer::public_key` of `commonware_cryptography` on the Ed25519 private
/// key with that encoding, and gives the encoding of the public key.
#[verifier::external_body]
pub(crate) fn public_key(key: &PrivateKey) -> (public: PublicKey)
    ensures
        public.0 == public_key_of(key.0@),
{
    let mut bytes: &[u8] = &key.0;
    let key = commonware_cryptography::ed25519::PrivateKey::read(&mut bytes).expect("32 bytes");
    PublicKey(key.public_key().encode().as_ref().try_into().expect("a public key has 32 bytes"))
}

impl PrivateKey {
    /// The key that belongs to a seed.
    pub fn from_seed(seed: u64) -> (key: PrivateKey)
        ensures
            key.0 == seeded_key_of(seed),
    {
        seeded_private_key(seed)
    }

    /// The public key.
    pub fn public_key(&self) -> (public: PublicKey)
        ensures
            public.0 == public_key_of(self.0@),
    {
        public_key(self)
    }
}

} // verus!
