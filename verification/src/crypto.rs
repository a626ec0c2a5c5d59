//! Hashing and key derivation. Both are computed by outside crates; the
//! library knows each result only by name.

use crate::primitives::B256;
use vstd::prelude::*;

verus! {

/// The Keccak-256 digest of a byte string.
pub uninterp spec fn keccak256_digest(data: Seq<u8>) -> Seq<u8>;

/// The SEC1 uncompressed encoding of the secp256k1 public key that belongs
/// to a private key, where the bytes are a private key at all.
pub uninterp spec fn secp256k1_public_key(private_key: Seq<u8>) -> Option<Seq<u8>>;

/// Calls `revm::primitives::keccak256`.
///
/// Trusted: the 32 bytes returned are the Keccak-256 digest of `data`.
#[verifier::external_body]
pub(crate) fn keccak256(data: &[u8]) -> (r: B256)
    ensures
        r@ == keccak256_digest(data@),
{
    B256 { bytes: revm::primitives::keccak256(data).0 }
}

/// Calls `k256::ecdsa::SigningKey::from_slice`, and on the key it gives
/// `verifying_key` and `to_encoded_point` without compression.
///
/// Trusted: the result is the encoded public key where the bytes are
/// accepted as a signing key, and nothing where they are not. The encoding
/// has 65 bytes: a format byte and two coordinates of 32 bytes.
#[verifier::external_body]
pub(crate) fn encoded_public_key(private_key: &[u8]) -> (r: Option<Vec<u8>>)
    ensures
        match r {
            Some(encoded) => secp256k1_public_key(private_key@) == Some(encoded@)
                && encoded@.len() == 65,
            None => secp256k1_public_key(private_key@) is None,
        },
{
    let key = k256::ecdsa::SigningKey::from_slice(private_key).ok()?;
    Some(key.verifying_key().to_encoded_point(false).as_bytes().to_vec())
}

} // verus!
