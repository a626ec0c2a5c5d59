//! Who sends the transaction: the address a template names, or the one
//! that belongs to its private key.

use crate::crypto::{encoded_public_key, keccak256, keccak256_digest, secp256k1_public_key};
use crate::error::{CheckError, CheckErrorView};
use crate::model::{TransactionTemplate, TransactionTemplateView};
use crate::primitives::{Address, B256};
use vstd::prelude::*;
use vstd::slice::slice_subrange;

verus! {

/// The length of an uncompressed public key: a format byte and two
/// coordinates of 32 bytes.
pub open spec fn encoded_key_len() -> nat {
    65
}

/// The address of a public key given in uncompressed encoding: the last 20
/// bytes of the digest of the encoding without its leading format byte.
pub open spec fn address_of_public_key(encoded: Seq<u8>) -> Seq<u8> {
    keccak256_digest(encoded.subrange(1, 65)).subrange(12, 32)
}

/// The address that belongs to a private key; none where the bytes are no
/// private key.
pub open spec fn spec_recover_address(private_key: Seq<u8>) -> Option<Seq<u8>> {
    match secp256k1_public_key(private_key) {
        Some(encoded) => Some(address_of_public_key(encoded)),
        None => None,
    }
}

/// The sender of a transaction: the explicit sender where there is one,
/// else the address of the private key.
pub open spec fn spec_resolve_sender(tx: TransactionTemplateView) -> Result<Seq<u8>, CheckErrorView> {
    match tx.sender {
        Some(address) => Ok(address),
        None => match tx.secret_key {
            Some(key) => match spec_recover_address(key) {
                Some(address) => Ok(address),
                None => Err(CheckErrorView::SenderResolution),
            },
            None => Err(CheckErrorView::SenderResolution),
        },
    }
}

/// The last 20 bytes of a digest, as an address.
pub fn address_from_digest(digest: &B256) -> (r: Address)
    ensures
        r@ == digest@.subrange(12, 32),
{
    let mut bytes = [0u8; 20];
    let mut i: usize = 0;
    while i < 20
        invariant
            i <= 20,
            forall|j: int| 0 <= j < i ==> bytes[j] == digest.bytes[j + 12],
        decreases 20 - i,
    {
        bytes[i] = digest.bytes[i + 12];
        i = i + 1;
    }
    let r = Address { bytes };
    assert(r@ =~= digest@.subrange(12, 32));
    r
}

/// The address of a public key in uncompressed encoding.
pub fn address_from_public_key(encoded: &[u8]) -> (r: Address)
    requires
        encoded@.len() == encoded_key_len(),
    ensures
        r@ == address_of_public_key(encoded@),
{
    let digest = keccak256(slice_subrange(encoded, 1, 65));
    address_from_digest(&digest)
}

/// Recovers the address that belongs to a private key.
pub fn recover_address(private_key: &[u8]) -> (r: Option<Address>)
    ensures
        match r {
            Some(address) => spec_recover_address(private_key@) == Some(address@),
            None => spec_recover_address(private_key@) is None,
        },
{
    match encoded_public_key(private_key) {
        Some(encoded) => Some(address_from_public_key(encoded.as_slice())),
        None => None,
    }
}

/// Resolves the sender of a transaction. An explicit sender is taken as it
/// is, whatever the private key; without one the private key decides.
pub fn resolve_sender(tx: &TransactionTemplate) -> (r: Result<Address, CheckError>)
    ensures
        match r {
            Ok(address) => spec_resolve_sender(tx@) == Ok::<Seq<u8>, CheckErrorView>(address@),
            Err(e) => spec_resolve_sender(tx@) == Err::<Seq<u8>, CheckErrorView>(e@),
        },
        tx.sender matches Some(address) ==> r == Ok::<Address, CheckError>(address),
        r matches Err(e) ==> e == CheckError::SenderResolution,
{
    match tx.sender {
        Some(address) => Ok(address),
        None => match tx.secret_key {
            Some(key) => match recover_address(key.bytes.as_slice()) {
                Some(address) => Ok(address),
                None => Err(CheckError::SenderResolution),
            },
            None => Err(CheckError::SenderResolution),
        },
    }
}

} // verus!
