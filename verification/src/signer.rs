//! Signing a message with a key pair and verifying a signature against a
//! public key.

use solana_sdk::signature::Keypair;
use solana_sdk::signer::Signer;
use vstd::prelude::*;
use crate::keypair::{keypair_accepted, KeyPair};
use crate::keys::{Address, Signature};

verus! {

/// The signature that a key pair gives to a message.
pub uninterp spec fn ed25519_signature(key_pair: Seq<u8>, message: Seq<u8>) -> Seq<u8>;

/// Whether a signature is the one that the holder of a public key gave to a
/// message.
pub uninterp spec fn ed25519_verifies(
    signature: Seq<u8>,
    public_key: Seq<u8>,
    message: Seq<u8>,
) -> bool;

/// Calls `Keypair::sign_message` on the pair that `Keypair::from_bytes`
/// makes of the 64 bytes. Trusted: the signature depends on the pair and the
/// message alone, and is the one that `ed25519_signature` names.
#[verifier::external_body]
pub(crate) fn keypair_sign(key_pair: &[u8; 64], message: &[u8]) -> (r: [u8; 64])
    requires
        keypair_accepted(key_pair@),
    ensures
        r@ == ed25519_signature(key_pair@, message@),
{
    Keypair::from_bytes(key_pair).unwrap().sign_message(message).into()
}

/// Calls `Signature::verify` of `solana_sdk`. Trusted: the answer depends on
/// the three byte strings alone, and is the one that `ed25519_verifies`
/// names; a public key that is no curve point gives `false`.
#[verifier::external_body]
pub(crate) fn signature_verify(signature: &[u8; 64], public_key: &[u8; 32], message: &[u8]) -> (r:
    bool)
    ensures
        r == ed25519_verifies(signature@, public_key@, message@),
{
    solana_sdk::signature::Signature::from(*signature).verify(public_key, message)
}

/// Signs a message.
pub fn sign(message: &[u8], key_pair: &KeyPair) -> (r: Signature)
    ensures
        r@ == ed25519_signature(key_pair@, message@),
{
    let bytes = key_pair.to_bytes();
    Signature { bytes: keypair_sign(&bytes, message) }
}

/// Whether `signature` is valid for `message` under `address`. A mismatch
/// of any kind is `false`, never a failure.
pub fn verify(message: &[u8], signature: &Signature, address: &Address) -> (r: bool)
    ensures
        r == ed25519_verifies(signature@, address@, message@),
{
    signature_verify(&signature.bytes, &address.bytes, message)
}

} // verus!
