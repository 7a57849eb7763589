//! SHA-256 digests.
use vstd::prelude::*;

use commonware_cryptography::Hasher;

use crate::bytes::same_array;
use crate::hex::digest_text;

verus! {

/// The SHA-256 hash of a byte string, as `commonware_cryptography` computes it.
pub uninterp spec fn sha256_of(data: Seq<u8>) -> [u8; 32];

/// Calls `Hasher::hash` of `commonware_cryptography` for its `Sha256`, which
/// hashes one message with a fresh hasher. The digest depends on the message
/// alone.
#[verifier::external_body]
pub(crate) fn sha256(data: &[u8]) -> (digest: Digest)
    ensures
        digest.0 == sha256_of(data@),
{
    Digest(commonware_cryptography::Sha256::hash(data).0)
}

/// A 32-byte SHA-256 digest.
#[derive(Clone, Copy, Debug, Eq)]
pub struct Digest(pub [u8; 32]);

/// The digest of a byte string.
pub open spec fn digest_of(data: Seq<u8>) -> Digest {
    Digest(sha256_of(data))
}

impl Digest {
    /// The digest as lowercase hexadecimal text.
    pub fn to_text(&self) -> (text: String)
        ensures
            text@ == crate::hex::hex_text(self.0@),
            text@.len() == 64,
            crate::hex::hex_bytes(text@) == Some(self.0@),
    {
        proof {
            crate::hex::lemma_hex_round_trip(self.0@);
        }
        digest_text(self)
    }
}

impl PartialEq for Digest {
    fn eq(&self, other: &Self) -> (same: bool) {
        same_array(&self.0, &other.0)
    }
}

impl vstd::std_specs::cmp::PartialEqSpecImpl for Digest {
    open spec fn obeys_eq_spec() -> bool {
        true
    }

    open spec fn eq_spec(&self, other: &Self) -> bool {
        *self == *other
    }
}

} // verus!
