//! What holds of the operations whatever the request: the order in which
//! faults are reported, and that equal requests get equal answers.

use vstd::prelude::*;
use crate::builders::{native_transfer_outcome, outcome, token_transfer_outcome};
use crate::codec::{parsed_address, parsed_signature};
use crate::error::{ApiError, ErrorView, Party};
use crate::operations::{
    create_token_spec, mint_token_spec, send_sol_spec, send_token_spec, sign_message_spec,
    verify_message_spec,
};
use crate::response::{
    InstructionTextView, SendSolResponse, SendSolResponseView, SendTokenResponse,
    SignMessageResponseView, TokenCreateResponse, VerifyMessageResponseView,
};
use crate::text::is_blank;

verus! {

/// A transfer request that lacks a field and also asks for an amount of
/// zero is answered with the missing field, not with the amount.
pub proof fn lemma_missing_field_before_amount(
    from: Seq<char>,
    to: Seq<char>,
    destination: Seq<char>,
    mint: Seq<char>,
    owner: Seq<char>,
)
    ensures
        is_blank(from) || is_blank(to) ==> send_sol_spec(from, to, 0) == Err::<
            SendSolResponseView,
            ErrorView,
        >(ErrorView::MissingField),
        is_blank(destination) || is_blank(mint) || is_blank(owner) ==> send_token_spec(
            destination,
            mint,
            owner,
            0,
        ) == Err::<InstructionTextView, ErrorView>(ErrorView::MissingField),
{
}

/// A request to initialize a mint that lacks a field is answered with the
/// missing field, whatever else is wrong with it.
pub proof fn lemma_create_token_missing_field(
    mint_authority: Seq<char>,
    mint: Seq<char>,
    decimals: u8,
)
    requires
        is_blank(mint_authority) || is_blank(mint),
    ensures
        create_token_spec(mint_authority, mint, decimals) == Err::<InstructionTextView, ErrorView>(
            ErrorView::MissingField,
        ),
{
}

/// A request to mint tokens that lacks a field is answered with the missing
/// field, whatever else is wrong with it.
pub proof fn lemma_mint_token_missing_field(
    mint: Seq<char>,
    destination: Seq<char>,
    authority: Seq<char>,
    amount: u64,
)
    requires
        is_blank(mint) || is_blank(destination) || is_blank(authority),
    ensures
        mint_token_spec(mint, destination, authority, amount) == Err::<
            InstructionTextView,
            ErrorView,
        >(ErrorView::MissingField),
{
}

/// A request to sign that lacks a field is answered with the missing
/// field, whatever else is wrong with it. A message of white space only
/// counts as lacking.
pub proof fn lemma_sign_message_missing_field(message: Seq<char>, secret: Seq<char>)
    requires
        is_blank(message) || is_blank(secret),
    ensures
        sign_message_spec(message, secret) == Err::<SignMessageResponseView, ErrorView>(
            ErrorView::MissingField,
        ),
{
}

/// A request to verify that lacks a field is answered with the missing
/// field, whatever else is wrong with it.
pub proof fn lemma_verify_message_missing_field(
    message: Seq<char>,
    signature: Seq<char>,
    pubkey: Seq<char>,
)
    requires
        is_blank(message) || is_blank(signature) || is_blank(pubkey),
    ensures
        verify_message_spec(message, signature, pubkey) == Err::<
            VerifyMessageResponseView,
            ErrorView,
        >(ErrorView::MissingField),
{
}

/// A request to transfer the native asset that lacks a field is answered
/// with the missing field, whatever else is wrong with it.
pub proof fn lemma_send_sol_missing_field(from: Seq<char>, to: Seq<char>, lamports: u64)
    requires
        is_blank(from) || is_blank(to),
    ensures
        send_sol_spec(from, to, lamports) == Err::<SendSolResponseView, ErrorView>(
            ErrorView::MissingField,
        ),
{
}

/// A request to transfer a token that lacks a field is answered with the
/// missing field, whatever else is wrong with it.
pub proof fn lemma_send_token_missing_field(
    destination: Seq<char>,
    mint: Seq<char>,
    owner: Seq<char>,
    amount: u64,
)
    requires
        is_blank(destination) || is_blank(mint) || is_blank(owner),
    ensures
        send_token_spec(destination, mint, owner, amount) == Err::<
            InstructionTextView,
            ErrorView,
        >(ErrorView::MissingField),
{
}

/// A message that verifies is reported as valid and one that does not as
/// invalid; neither is a failure.
pub proof fn lemma_verify_message_never_fails_on_mismatch(
    message: Seq<char>,
    signature: Seq<char>,
    pubkey: Seq<char>,
)
    requires
        !is_blank(message),
        !is_blank(signature),
        !is_blank(pubkey),
        parsed_address(pubkey) is Some,
        parsed_signature(signature) is Some,
    ensures
        verify_message_spec(message, signature, pubkey) is Ok,
{
}

/// In a transfer whose fields are all present, an address that does not
/// parse is reported before an amount of zero, and an amount of zero before
/// two parties that are the same.
pub proof fn lemma_transfer_check_order(from: Seq<char>, to: Seq<char>, lamports: u64)
    requires
        !is_blank(from),
        !is_blank(to),
    ensures
        parsed_address(from) is None ==> send_sol_spec(from, to, lamports) == Err::<
            SendSolResponseView,
            ErrorView,
        >(ErrorView::InvalidAddress(Party::Sender)),
        parsed_address(from) is Some && parsed_address(to) is None ==> send_sol_spec(
            from,
            to,
            lamports,
        ) == Err::<SendSolResponseView, ErrorView>(ErrorView::InvalidAddress(Party::Recipient)),
        parsed_address(from) is Some && parsed_address(to) is Some && lamports == 0
            ==> send_sol_spec(from, to, lamports) == Err::<SendSolResponseView, ErrorView>(
            ErrorView::AmountMustBePositive,
        ),
{
}

/// Building a native transfer succeeds exactly when the amount is positive
/// and the two addresses differ.
pub proof fn lemma_native_transfer_succeeds_iff(from: Seq<u8>, to: Seq<u8>, lamports: u64)
    ensures
        native_transfer_outcome(from, to, lamports) is Ok <==> lamports > 0 && from != to,
{
}

/// Building a token transfer succeeds exactly when the amount is positive
/// and the two wallets differ.
pub proof fn lemma_token_transfer_succeeds_iff(
    destination: Seq<u8>,
    mint: Seq<u8>,
    owner: Seq<u8>,
    amount: u64,
)
    ensures
        token_transfer_outcome(destination, mint, owner, amount) is Ok <==> amount > 0 && owner
            != destination,
{
}

/// Two answers to one request to initialize a mint are the same: the same
/// program, the same accounts in the same order, the same payload text.
pub proof fn lemma_create_token_repeatable(
    mint_authority: Seq<char>,
    mint: Seq<char>,
    decimals: u8,
    first: Result<TokenCreateResponse, ApiError>,
    second: Result<TokenCreateResponse, ApiError>,
)
    requires
        outcome(first) == create_token_spec(mint_authority, mint, decimals),
        outcome(second) == create_token_spec(mint_authority, mint, decimals),
    ensures
        outcome(first) == outcome(second),
        first matches Ok(x) ==> second matches Ok(y) && x.program_id@ == y.program_id@
            && x@.accounts == y@.accounts && x.instruction_data@ == y.instruction_data@,
{
}

/// Two answers to one request to mint tokens are the same.
pub proof fn lemma_mint_token_repeatable(
    mint: Seq<char>,
    destination: Seq<char>,
    authority: Seq<char>,
    amount: u64,
    first: Result<TokenCreateResponse, ApiError>,
    second: Result<TokenCreateResponse, ApiError>,
)
    requires
        outcome(first) == mint_token_spec(mint, destination, authority, amount),
        outcome(second) == mint_token_spec(mint, destination, authority, amount),
    ensures
        outcome(first) == outcome(second),
        first matches Ok(x) ==> second matches Ok(y) && x.program_id@ == y.program_id@
            && x@.accounts == y@.accounts && x.instruction_data@ == y.instruction_data@,
{
}

/// Two answers to one request to transfer the native asset are the same.
pub proof fn lemma_send_sol_repeatable(
    from: Seq<char>,
    to: Seq<char>,
    lamports: u64,
    first: Result<SendSolResponse, ApiError>,
    second: Result<SendSolResponse, ApiError>,
)
    requires
        outcome(first) == send_sol_spec(from, to, lamports),
        outcome(second) == send_sol_spec(from, to, lamports),
    ensures
        outcome(first) == outcome(second),
        first matches Ok(x) ==> second matches Ok(y) && x.program_id@ == y.program_id@
            && x@.accounts == y@.accounts && x.instruction_data@ == y.instruction_data@,
{
}

/// Two answers to one request to transfer a token are the same.
pub proof fn lemma_send_token_repeatable(
    destination: Seq<char>,
    mint: Seq<char>,
    owner: Seq<char>,
    amount: u64,
    first: Result<SendTokenResponse, ApiError>,
    second: Result<SendTokenResponse, ApiError>,
)
    requires
        outcome(first) == send_token_spec(destination, mint, owner, amount),
        outcome(second) == send_token_spec(destination, mint, owner, amount),
    ensures
        outcome(first) == outcome(second),
        first matches Ok(x) ==> second matches Ok(y) && x.program_id@ == y.program_id@
            && x@.accounts == y@.accounts && x.instruction_data@ == y.instruction_data@,
{
}

} // verus!
