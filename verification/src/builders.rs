//! The four instruction builders, from typed inputs to an instruction or
//! the reason why none is built.

use vstd::prelude::*;
use crate::error::{ApiError, ErrorView, Family, Pairing};
use crate::instruction::{
    associated_token_address, derive_token_account, encode_initialize_mint, encode_mint_to,
    encode_native_transfer, encode_token_transfer, mint_initialization_layout, mint_to_layout,
    native_transfer_layout, token_program_id, token_transfer_layout, Instruction,
    InstructionView,
};
use crate::keys::Address;

verus! {

/// A result with both sides taken by their views.
pub open spec fn outcome<T: View>(r: Result<T, ApiError>) -> Result<T::V, ErrorView> {
    match r {
        Ok(value) => Ok(value@),
        Err(e) => Err(e@),
    }
}

/// What building a native transfer gives.
pub open spec fn native_transfer_outcome(from: Seq<u8>, to: Seq<u8>, lamports: u64) -> Result<
    InstructionView,
    ErrorView,
> {
    if lamports == 0 {
        Err(ErrorView::AmountMustBePositive)
    } else if from == to {
        Err(ErrorView::SameAddress(Pairing::SenderRecipient))
    } else {
        Ok(native_transfer_layout(from, to, lamports))
    }
}

/// What building a token transfer between two wallets gives.
pub open spec fn token_transfer_outcome(
    destination: Seq<u8>,
    mint: Seq<u8>,
    owner: Seq<u8>,
    amount: u64,
) -> Result<InstructionView, ErrorView> {
    if amount == 0 {
        Err(ErrorView::AmountMustBePositive)
    } else if owner == destination {
        Err(ErrorView::SameAddress(Pairing::OwnerDestination))
    } else {
        Ok(
            token_transfer_layout(
                associated_token_address(owner, mint),
                associated_token_address(destination, mint),
                owner,
                amount,
            ),
        )
    }
}

/// Turns what an encoder returned into the builder's result: the
/// instruction as it is, or a build failure that carries the encoder's
/// message.
pub fn build_outcome(built: Result<Instruction, String>, family: Family) -> (r: Result<
    Instruction,
    ApiError,
>)
    ensures
        match built {
            Ok(ix) => r == Ok::<Instruction, ApiError>(ix),
            Err(reason) => r matches Err(e) && e@ == ErrorView::InstructionBuildFailure(
                family,
                reason@,
            ),
        },
{
    match built {
        Ok(ix) => Ok(ix),
        Err(reason) => Err(ApiError::InstructionBuildFailure(family, reason)),
    }
}

/// Builds the instruction that initializes a mint, without a freeze
/// authority.
pub fn initialize_mint_instruction(mint: &Address, authority: &Address, decimals: u8) -> (r:
    Result<Instruction, ApiError>)
    ensures
        outcome(r) == Ok::<InstructionView, ErrorView>(
            mint_initialization_layout(mint@, authority@, decimals),
        ),
{
    let program = token_program_id();
    build_outcome(
        encode_initialize_mint(&program, mint, authority, decimals),
        Family::MintInitialization,
    )
}

/// Builds the instruction that mints `amount` to `destination`.
pub fn mint_to_instruction(
    mint: &Address,
    destination: &Address,
    authority: &Address,
    amount: u64,
) -> (r: Result<Instruction, ApiError>)
    ensures
        outcome(r) == Ok::<InstructionView, ErrorView>(
            mint_to_layout(mint@, destination@, authority@, amount),
        ),
{
    let program = token_program_id();
    build_outcome(encode_mint_to(&program, mint, destination, authority, amount), Family::MintTo)
}

/// Builds the instruction that moves `lamports` from `from` to `to`. The
/// amount has to be positive and the two addresses have to differ.
pub fn native_transfer_instruction(from: &Address, to: &Address, lamports: u64) -> (r: Result<
    Instruction,
    ApiError,
>)
    ensures
        outcome(r) == native_transfer_outcome(from@, to@, lamports),
{
    if lamports == 0 {
        return Err(ApiError::AmountMustBePositive);
    }
    if from.same_as(to) {
        return Err(ApiError::SameAddress(Pairing::SenderRecipient));
    }
    Ok(encode_native_transfer(from, to, lamports))
}

/// Builds the instruction that moves `amount` of `mint` from the token
/// account of `owner` to the token account of `destination`. The amount has
/// to be positive and the two wallets have to differ.
pub fn token_transfer_instruction(
    destination: &Address,
    mint: &Address,
    owner: &Address,
    amount: u64,
) -> (r: Result<Instruction, ApiError>)
    ensures
        outcome(r) == token_transfer_outcome(destination@, mint@, owner@, amount),
{
    if amount == 0 {
        return Err(ApiError::AmountMustBePositive);
    }
    if owner.same_as(destination) {
        return Err(ApiError::SameAddress(Pairing::OwnerDestination));
    }
    let source_account = derive_token_account(owner, mint);
    let destination_account = derive_token_account(destination, mint);
    let program = token_program_id();
    build_outcome(
        encode_token_transfer(&program, &source_account, &destination_account, owner, amount),
        Family::TokenTransfer,
    )
}

} // verus!
