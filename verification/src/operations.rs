//! The seven operations, each from a request to its response or to the
//! first reason, in a fixed order of checks, why there is none.

use vstd::prelude::*;
use vstd::utf8::encode_utf8;
use crate::builders::{
    initialize_mint_instruction, mint_to_instruction, native_transfer_instruction,
    native_transfer_outcome, outcome, token_transfer_instruction, token_transfer_outcome,
};
use crate::codec::{
    base58_encoding, base64_encoding, decode_address, decode_secret, decode_signature,
    encode_address, encode_secret, encode_signature, parsed_address, parsed_secret,
    parsed_secret_bytes, parsed_signature,
};
use crate::error::{ApiError, ErrorView, Party, SecretDefect};
use crate::instruction::{mint_initialization_layout, mint_to_layout};
use crate::keypair::{keypair_accepted, KeyPair};
use crate::response::{
    instruction_addresses_text, instruction_text, InstructionTextView, KeypairResponse,
    KeypairResponseView, SendSolResponse, SendSolResponseView, SendTokenResponse,
    SignMessageResponse, SignMessageResponseView, TokenCreateResponse, VerifyMessageResponse,
    VerifyMessageResponseView,
};
use crate::signer::{ed25519_signature, ed25519_verifies, sign, verify};
use crate::text::{blank, is_blank};

verus! {

/// What is asked for to initialize a mint.
#[derive(Clone, Debug, PartialEq, Eq)]
pub struct TokenCreateRequest {
    pub mint_authority: String,
    pub mint: String,
    pub decimals: u8,
}

/// What is asked for to mint tokens.
#[derive(Clone, Debug, PartialEq, Eq)]
pub struct MintTokenRequest {
    pub mint: String,
    pub destination: String,
    pub authority: String,
    pub amount: u64,
}

/// What is asked for to sign a message.
#[derive(Clone, Debug, PartialEq, Eq)]
pub struct SignMessageRequest {
    pub message: String,
    pub secret: String,
}

/// What is asked for to verify a signature.
#[derive(Clone, Debug, PartialEq, Eq)]
pub struct VerifyMessageRequest {
    pub message: String,
    pub signature: String,
    pub pubkey: String,
}

/// What is asked for to transfer the native asset.
#[derive(Clone, Debug, PartialEq, Eq)]
pub struct SendSolRequest {
    pub from: String,
    pub to: String,
    pub lamports: u64,
}

/// What is asked for to transfer a token between two wallets.
#[derive(Clone, Debug, PartialEq, Eq)]
pub struct SendTokenRequest {
    pub destination: String,
    pub mint: String,
    pub owner: String,
    pub amount: u64,
}

/// The response that shows the key pair of the given 64 bytes.
pub open spec fn keypair_text(pair: Seq<u8>) -> KeypairResponseView {
    KeypairResponseView {
        pubkey: base58_encoding(pair.subrange(32, 64)),
        secret: base58_encoding(pair),
    }
}

/// What initializing a mint answers.
pub open spec fn create_token_spec(
    mint_authority: Seq<char>,
    mint: Seq<char>,
    decimals: u8,
) -> Result<InstructionTextView, ErrorView> {
    if is_blank(mint) || is_blank(mint_authority) {
        Err(ErrorView::MissingField)
    } else {
        match parsed_address(mint) {
            None => Err(ErrorView::InvalidAddress(Party::Mint)),
            Some(m) => match parsed_address(mint_authority) {
                None => Err(ErrorView::InvalidAddress(Party::MintAuthority)),
                Some(a) => Ok(instruction_text(mint_initialization_layout(m, a, decimals))),
            },
        }
    }
}

/// What minting tokens answers.
pub open spec fn mint_token_spec(
    mint: Seq<char>,
    destination: Seq<char>,
    authority: Seq<char>,
    amount: u64,
) -> Result<InstructionTextView, ErrorView> {
    if is_blank(mint) || is_blank(destination) || is_blank(authority) {
        Err(ErrorView::MissingField)
    } else {
        match parsed_address(mint) {
            None => Err(ErrorView::InvalidAddress(Party::Mint)),
            Some(m) => match parsed_address(destination) {
                None => Err(ErrorView::InvalidAddress(Party::Destination)),
                Some(d) => match parsed_address(authority) {
                    None => Err(ErrorView::InvalidAddress(Party::Authority)),
                    Some(a) => Ok(instruction_text(mint_to_layout(m, d, a, amount))),
                },
            },
        }
    }
}

/// What signing a message answers. The message is signed as the bytes of
/// its UTF-8 form.
pub open spec fn sign_message_spec(message: Seq<char>, secret: Seq<char>) -> Result<
    SignMessageResponseView,
    ErrorView,
> {
    if is_blank(message) || is_blank(secret) {
        Err(ErrorView::MissingField)
    } else {
        match parsed_secret_bytes(secret) {
            None => Err(ErrorView::InvalidSecret(SecretDefect::Malformed)),
            Some(pair) => if !keypair_accepted(pair) {
                Err(ErrorView::InvalidSecret(SecretDefect::Inconsistent))
            } else {
                Ok(
                    SignMessageResponseView {
                        signature: base64_encoding(ed25519_signature(pair, encode_utf8(message))),
                        public_key: base58_encoding(pair.subrange(32, 64)),
                        message,
                    },
                )
            },
        }
    }
}

/// What verifying a signature answers. A signature that does not match is an
/// answer, not a failure.
pub open spec fn verify_message_spec(
    message: Seq<char>,
    signature: Seq<char>,
    pubkey: Seq<char>,
) -> Result<VerifyMessageResponseView, ErrorView> {
    if is_blank(message) || is_blank(signature) || is_blank(pubkey) {
        Err(ErrorView::MissingField)
    } else {
        match parsed_address(pubkey) {
            None => Err(ErrorView::InvalidAddress(Party::PublicKey)),
            Some(key) => match parsed_signature(signature) {
                None => Err(ErrorView::InvalidSignatureFormat),
                Some(sig) => Ok(
                    VerifyMessageResponseView {
                        valid: ed25519_verifies(sig, key, encode_utf8(message)),
                        message,
                        pubkey,
                    },
                ),
            },
        }
    }
}

/// What transferring the native asset answers.
pub open spec fn send_sol_spec(from: Seq<char>, to: Seq<char>, lamports: u64) -> Result<
    SendSolResponseView,
    ErrorView,
> {
    if is_blank(from) || is_blank(to) {
        Err(ErrorView::MissingField)
    } else {
        match parsed_address(from) {
            None => Err(ErrorView::InvalidAddress(Party::Sender)),
            Some(f) => match parsed_address(to) {
                None => Err(ErrorView::InvalidAddress(Party::Recipient)),
                Some(t) => match native_transfer_outcome(f, t, lamports) {
                    Err(e) => Err(e),
                    Ok(ix) => Ok(instruction_addresses_text(ix)),
                },
            },
        }
    }
}

/// What transferring a token answers.
pub open spec fn send_token_spec(
    destination: Seq<char>,
    mint: Seq<char>,
    owner: Seq<char>,
    amount: u64,
) -> Result<InstructionTextView, ErrorView> {
    if is_blank(destination) || is_blank(mint) || is_blank(owner) {
        Err(ErrorView::MissingField)
    } else {
        match parsed_address(mint) {
            None => Err(ErrorView::InvalidAddress(Party::Mint)),
            Some(m) => match parsed_address(owner) {
                None => Err(ErrorView::InvalidAddress(Party::Owner)),
                Some(o) => match parsed_address(destination) {
                    None => Err(ErrorView::InvalidAddress(Party::Destination)),
                    Some(d) => match token_transfer_outcome(d, m, o, amount) {
                        Err(e) => Err(e),
                        Ok(ix) => Ok(instruction_text(ix)),
                    },
                },
            },
        }
    }
}

/// Shows a key pair in text: the public key and the 64 bytes, both in
/// base-58.
pub fn keypair_response(pair: &KeyPair) -> (r: KeypairResponse)
    ensures
        r@ == keypair_text(pair@),
        parsed_secret(r.secret@) == Some(pair@),
        parsed_address(r.pubkey@) == Some(pair@.subrange(32, 64)),
{
    let public = pair.public_key();
    KeypairResponse { pubkey: encode_address(&public), secret: encode_secret(pair) }
}

/// Generates a key pair and shows it in text. Which pair it is depends on
/// the system's entropy source; whichever it is, the response shows it.
pub fn generate_keypair() -> (r: KeypairResponse)
    ensures
        exists|pair: Seq<u8>|
            pair.len() == 64 && #[trigger] keypair_text(pair) == r@ && parsed_secret(r.secret@)
                == Some(pair) && parsed_address(r.pubkey@) == Some(pair.subrange(32, 64)),
{
    let pair = KeyPair::generate();
    let r = keypair_response(&pair);
    assert(keypair_text(pair@) == r@);
    r
}

/// Builds the instruction that initializes a mint.
pub fn create_token(req: &TokenCreateRequest) -> (r: Result<TokenCreateResponse, ApiError>)
    ensures
        outcome(r) == create_token_spec(req.mint_authority@, req.mint@, req.decimals),
{
    if blank(req.mint.as_str()) || blank(req.mint_authority.as_str()) {
        return Err(ApiError::MissingField);
    }
    let mint = decode_address(req.mint.as_str(), Party::Mint)?;
    let authority = decode_address(req.mint_authority.as_str(), Party::MintAuthority)?;
    let ix = initialize_mint_instruction(&mint, &authority, req.decimals)?;
    Ok(TokenCreateResponse::from_instruction(&ix))
}

/// Builds the instruction that mints tokens.
pub fn mint_token(req: &MintTokenRequest) -> (r: Result<TokenCreateResponse, ApiError>)
    ensures
        outcome(r) == mint_token_spec(req.mint@, req.destination@, req.authority@, req.amount),
{
    if blank(req.mint.as_str()) || blank(req.destination.as_str()) || blank(
        req.authority.as_str(),
    ) {
        return Err(ApiError::MissingField);
    }
    let mint = decode_address(req.mint.as_str(), Party::Mint)?;
    let destination = decode_address(req.destination.as_str(), Party::Destination)?;
    let authority = decode_address(req.authority.as_str(), Party::Authority)?;
    let ix = mint_to_instruction(&mint, &destination, &authority, req.amount)?;
    Ok(TokenCreateResponse::from_instruction(&ix))
}

/// Signs a message with the key pair that a secret stands for.
pub fn sign_message(req: &SignMessageRequest) -> (r: Result<SignMessageResponse, ApiError>)
    ensures
        outcome(r) == sign_message_spec(req.message@, req.secret@),
{
    if blank(req.message.as_str()) || blank(req.secret.as_str()) {
        return Err(ApiError::MissingField);
    }
    let pair = decode_secret(req.secret.as_str())?;
    let signature = sign(req.message.as_str().as_bytes(), &pair);
    let public = pair.public_key();
    Ok(
        SignMessageResponse {
            signature: encode_signature(&signature),
            public_key: encode_address(&public),
            message: req.message.clone(),
        },
    )
}

/// Verifies a signature over a message against a public key.
pub fn verify_message(req: &VerifyMessageRequest) -> (r: Result<VerifyMessageResponse, ApiError>)
    ensures
        outcome(r) == verify_message_spec(req.message@, req.signature@, req.pubkey@),
{
    if blank(req.message.as_str()) || blank(req.signature.as_str()) || blank(
        req.pubkey.as_str(),
    ) {
        return Err(ApiError::MissingField);
    }
    let key = decode_address(req.pubkey.as_str(), Party::PublicKey)?;
    let signature = decode_signature(req.signature.as_str())?;
    let valid = verify(req.message.as_str().as_bytes(), &signature, &key);
    Ok(VerifyMessageResponse { valid, message: req.message.clone(), pubkey: req.pubkey.clone() })
}

/// Builds the instruction that transfers the native asset.
pub fn send_sol(req: &SendSolRequest) -> (r: Result<SendSolResponse, ApiError>)
    ensures
        outcome(r) == send_sol_spec(req.from@, req.to@, req.lamports),
{
    if blank(req.from.as_str()) || blank(req.to.as_str()) {
        return Err(ApiError::MissingField);
    }
    let from = decode_address(req.from.as_str(), Party::Sender)?;
    let to = decode_address(req.to.as_str(), Party::Recipient)?;
    let ix = native_transfer_instruction(&from, &to, req.lamports)?;
    Ok(SendSolResponse::from_instruction(&ix))
}

/// Builds the instruction that transfers a token between the token
/// accounts of two wallets.
pub fn send_token(req: &SendTokenRequest) -> (r: Result<SendTokenResponse, ApiError>)
    ensures
        outcome(r) == send_token_spec(req.destination@, req.mint@, req.owner@, req.amount),
{
    if blank(req.destination.as_str()) || blank(req.mint.as_str()) || blank(req.owner.as_str()) {
        return Err(ApiError::MissingField);
    }
    let mint = decode_address(req.mint.as_str(), Party::Mint)?;
    let owner = decode_address(req.owner.as_str(), Party::Owner)?;
    let destination = decode_address(req.destination.as_str(), Party::Destination)?;
    let ix = token_transfer_instruction(&destination, &mint, &owner, req.amount)?;
    Ok(SendTokenResponse::from_instruction(&ix))
}

} // verus!
