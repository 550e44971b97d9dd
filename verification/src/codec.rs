//! Textual forms of key material: base-58 for addresses and secrets, base-64
//! for signatures and instruction payloads.

use base64::Engine;
use solana_sdk::pubkey::Pubkey;
use std::str::FromStr;
use vstd::prelude::*;
use vstd::utf8::encode_utf8;
use crate::error::{ApiError, ErrorView, Party, SecretDefect};
use crate::keypair::{keypair_accepted, KeyPair};
use crate::keys::{array_64, Address, Signature};

verus! {

/// The bytes that a text stands for in base-58, if it is base-58 at all.
pub uninterp spec fn base58_decoding(text: Seq<char>) -> Option<Seq<u8>>;

/// The base-58 text of a sequence of bytes.
pub uninterp spec fn base58_encoding(bytes: Seq<u8>) -> Seq<char>;

/// The bytes that a text stands for in base-64 (standard alphabet, padded),
/// if it is such a text at all.
pub uninterp spec fn base64_decoding(text: Seq<char>) -> Option<Seq<u8>>;

/// The base-64 text (standard alphabet, padded) of a sequence of bytes.
pub uninterp spec fn base64_encoding(bytes: Seq<u8>) -> Seq<char>;

/// Longest text, in bytes, that is read as an address.
pub const MAX_ADDRESS_TEXT_BYTES: usize = 44;

/// The address that a text stands for: base-58 of at most 44 bytes of text
/// that decodes to exactly 32 bytes.
pub open spec fn parsed_address(text: Seq<char>) -> Option<Seq<u8>> {
    if encode_utf8(text).len() > MAX_ADDRESS_TEXT_BYTES {
        None
    } else {
        match base58_decoding(text) {
            Some(bytes) => if bytes.len() == 32 {
                Some(bytes)
            } else {
                None
            },
            None => None,
        }
    }
}

/// The signature that a text stands for: base-64 that decodes to exactly 64
/// bytes.
pub open spec fn parsed_signature(text: Seq<char>) -> Option<Seq<u8>> {
    match base64_decoding(text) {
        Some(bytes) => if bytes.len() == 64 {
            Some(bytes)
        } else {
            None
        },
        None => None,
    }
}

/// The 64 bytes that a secret's text stands for: base-58 that decodes to
/// exactly 64 bytes.
pub open spec fn parsed_secret_bytes(text: Seq<char>) -> Option<Seq<u8>> {
    match base58_decoding(text) {
        Some(bytes) => if bytes.len() == 64 {
            Some(bytes)
        } else {
            None
        },
        None => None,
    }
}

/// The key pair that a secret's text stands for: 64 bytes in base-58 that
/// are a secret seed followed by its own public key.
pub open spec fn parsed_secret(text: Seq<char>) -> Option<Seq<u8>> {
    match parsed_secret_bytes(text) {
        Some(bytes) => if keypair_accepted(bytes) {
            Some(bytes)
        } else {
            None
        },
        None => None,
    }
}

/// Calls `bs58::decode(..).into_vec()`. Trusted: the result is the decoding
/// that `base58_decoding` names, and `None` exactly where the call fails.
#[verifier::external_body]
pub(crate) fn base58_decode(text: &str) -> (r: Option<Vec<u8>>)
    ensures
        r matches Some(v) ==> base58_decoding(text@) == Some(v@),
        r is None ==> base58_decoding(text@) is None,
{
    bs58::decode(text).into_vec().ok()
}

/// Calls `bs58::encode(..).into_string()`. Trusted: the result is the
/// encoding that `base58_encoding` names, and decoding it gives the bytes
/// back.
#[verifier::external_body]
pub(crate) fn base58_encode(bytes: &[u8]) -> (r: String)
    ensures
        r@ == base58_encoding(bytes@),
        base58_decoding(r@) == Some(bytes@),
{
    bs58::encode(bytes).into_string()
}

/// Calls `Engine::decode` of the `base64` crate on its `STANDARD` engine.
/// Trusted: the result is the decoding that `base64_decoding` names, and
/// `None` exactly where the call fails.
#[verifier::external_body]
pub(crate) fn base64_decode(text: &str) -> (r: Option<Vec<u8>>)
    ensures
        r matches Some(v) ==> base64_decoding(text@) == Some(v@),
        r is None ==> base64_decoding(text@) is None,
{
    base64::engine::general_purpose::STANDARD.decode(text).ok()
}

/// Calls `Engine::encode` of the `base64` crate on its `STANDARD` engine.
/// Trusted: the result is the encoding that `base64_encoding` names, and
/// decoding it gives the bytes back. The call aborts only on an input whose
/// encoded length does not fit in `usize`, which the bound leaves out.
#[verifier::external_body]
pub(crate) fn base64_encode(bytes: &[u8]) -> (r: String)
    requires
        bytes@.len() <= usize::MAX / 2,
    ensures
        r@ == base64_encoding(bytes@),
        base64_decoding(r@) == Some(bytes@),
{
    base64::engine::general_purpose::STANDARD.encode(bytes)
}

/// Calls `Pubkey::from_str`. Trusted: the call succeeds exactly on a text of
/// at most 44 bytes whose base-58 decoding has 32 bytes, and then gives those
/// bytes.
#[verifier::external_body]
pub(crate) fn pubkey_from_str(text: &str) -> (r: Option<Address>)
    ensures
        r matches Some(a) ==> parsed_address(text@) == Some(a@),
        r is None ==> parsed_address(text@) is None,
{
    match Pubkey::from_str(text) {
        Ok(key) => Some(Address { bytes: key.to_bytes() }),
        Err(_) => None,
    }
}

/// Calls `to_string` on a `Pubkey`. Trusted: the result is the base-58
/// encoding of the 32 bytes, and `Pubkey::from_str` reads it back.
#[verifier::external_body]
pub(crate) fn pubkey_to_string(address: &Address) -> (r: String)
    ensures
        r@ == base58_encoding(address@),
        parsed_address(r@) == Some(address@),
{
    Pubkey::new_from_array(address.bytes).to_string()
}

/// Reads an address from its base-58 text, for the given role in a request.
pub fn decode_address(text: &str, party: Party) -> (r: Result<Address, ApiError>)
    ensures
        match r {
            Ok(a) => parsed_address(text@) == Some(a@),
            Err(e) => parsed_address(text@) is None && e@ == ErrorView::InvalidAddress(party),
        },
{
    match pubkey_from_str(text) {
        Some(a) => Ok(a),
        None => Err(ApiError::InvalidAddress(party)),
    }
}

/// Writes an address as base-58 text.
pub fn encode_address(address: &Address) -> (r: String)
    ensures
        r@ == base58_encoding(address@),
        parsed_address(r@) == Some(address@),
{
    pubkey_to_string(address)
}

/// Reads a signature from its base-64 text.
pub fn decode_signature(text: &str) -> (r: Result<Signature, ApiError>)
    ensures
        match r {
            Ok(s) => parsed_signature(text@) == Some(s@),
            Err(e) => parsed_signature(text@) is None && e@ == ErrorView::InvalidSignatureFormat,
        },
{
    match base64_decode(text) {
        Some(v) => match array_64(v.as_slice()) {
            Some(bytes) => Ok(Signature { bytes }),
            None => Err(ApiError::InvalidSignatureFormat),
        },
        None => Err(ApiError::InvalidSignatureFormat),
    }
}

/// Writes a signature as base-64 text.
pub fn encode_signature(signature: &Signature) -> (r: String)
    ensures
        r@ == base64_encoding(signature@),
        parsed_signature(r@) == Some(signature@),
{
    base64_encode(signature.bytes.as_slice())
}

/// Reads a key pair from the base-58 text of its 64 bytes.
pub fn decode_secret(text: &str) -> (r: Result<KeyPair, ApiError>)
    ensures
        match r {
            Ok(pair) => parsed_secret(text@) == Some(pair@),
            Err(e) => parsed_secret(text@) is None && match parsed_secret_bytes(text@) {
                None => e@ == ErrorView::InvalidSecret(SecretDefect::Malformed),
                Some(bytes) => !keypair_accepted(bytes) && e@ == ErrorView::InvalidSecret(
                    SecretDefect::Inconsistent,
                ),
            },
        },
{
    let decoded = match base58_decode(text) {
        Some(v) => v,
        None => {
            return Err(ApiError::InvalidSecret(SecretDefect::Malformed));
        },
    };
    let bytes = match array_64(decoded.as_slice()) {
        Some(bytes) => bytes,
        None => {
            return Err(ApiError::InvalidSecret(SecretDefect::Malformed));
        },
    };
    match KeyPair::from_bytes(bytes) {
        Some(pair) => Ok(pair),
        None => Err(ApiError::InvalidSecret(SecretDefect::Inconsistent)),
    }
}

/// Writes a key pair as the base-58 text of its 64 bytes.
pub fn encode_secret(pair: &KeyPair) -> (r: String)
    ensures
        r@ == base58_encoding(pair@),
        parsed_secret(r@) == Some(pair@),
{
    let bytes = pair.to_bytes();
    base58_encode(bytes.as_slice())
}

/// Writes an instruction payload as base-64 text.
pub fn encode_payload(payload: &[u8]) -> (r: String)
    requires
        payload@.len() <= usize::MAX / 2,
    ensures
        r@ == base64_encoding(payload@),
        base64_decoding(r@) == Some(payload@),
{
    base64_encode(payload)
}

} // verus!
