use solana_sdk::pubkey::Pubkey;
use solkit::builders::{
    build_outcome, initialize_mint_instruction, mint_to_instruction,
    native_transfer_instruction, token_transfer_instruction,
};
use solkit::codec::{decode_address, encode_address};
use solkit::error::{ApiError, Family, Pairing, Party};
use solkit::instruction::{AccountReference, Instruction};
use solkit::keys::Address;

const A: &str = "4wBqpZM9xaSheZzJSMawUKKwhdpChKbZ5eu5ky4Vigw";
const B: &str = "3ELeRTTg5W5hAYaEFznzFV1jknNFkjHqS8ytwvQEQP1Z";
const C: &str = "7ppk9w8NHnH6ehajvJyU31VcMafwZ3ybRtJWumSyD2wd";
const TOKEN_PROGRAM: &str = "TokenkegQfeZyiNwAJbNbGKPFXCWuBvf9Ss623VQ5DA";
const SYSTEM_PROGRAM: &str = "11111111111111111111111111111111";
const RENT_SYSVAR: &str = "SysvarRent111111111111111111111111111111111";

fn address(text: &str) -> Address {
    decode_address(text, Party::Mint).unwrap()
}

fn account(text: &str, is_signer: bool, is_writable: bool) -> AccountReference {
    AccountReference { address: address(text), is_signer, is_writable }
}

#[test]
fn mint_initialization_layout() {
    let ix = initialize_mint_instruction(&address(B), &address(A), 6).unwrap();
    assert_eq!(encode_address(&ix.program_id), TOKEN_PROGRAM);
    assert_eq!(ix.accounts, vec![account(B, false, true), account(RENT_SYSVAR, false, false)]);
    let mut payload = vec![0u8, 6];
    payload.extend_from_slice(&address(A).to_bytes());
    payload.push(0);
    assert_eq!(ix.payload, payload);
    assert_eq!(ix.payload.len(), 35);
}

#[test]
fn mint_initialization_passes_decimals_through() {
    for decimals in [0u8, 1, 9, 255] {
        let ix = initialize_mint_instruction(&address(A), &address(B), decimals).unwrap();
        assert_eq!(ix.payload[0], 0);
        assert_eq!(ix.payload[1], decimals);
        assert_eq!(ix.payload[34], 0);
    }
}

#[test]
fn mint_to_layout() {
    let ix = mint_to_instruction(&address(A), &address(B), &address(C), 1_000_000).unwrap();
    assert_eq!(encode_address(&ix.program_id), TOKEN_PROGRAM);
    assert_eq!(
        ix.accounts,
        vec![account(A, false, true), account(B, false, true), account(C, true, false)]
    );
    assert_eq!(ix.payload, vec![7, 0x40, 0x42, 0x0f, 0, 0, 0, 0, 0]);
}

#[test]
fn mint_to_takes_any_amount() {
    let zero = mint_to_instruction(&address(A), &address(B), &address(C), 0).unwrap();
    assert_eq!(zero.payload, vec![7, 0, 0, 0, 0, 0, 0, 0, 0]);
    let most = mint_to_instruction(&address(A), &address(B), &address(C), u64::MAX).unwrap();
    assert_eq!(most.payload, vec![7, 255, 255, 255, 255, 255, 255, 255, 255]);
    let same = mint_to_instruction(&address(A), &address(A), &address(A), 1).unwrap();
    assert_eq!(same.accounts.len(), 3);
}

#[test]
fn native_transfer_layout() {
    let ix = native_transfer_instruction(&address(A), &address(B), 0x0102_0304_0506_0708).unwrap();
    assert_eq!(encode_address(&ix.program_id), SYSTEM_PROGRAM);
    assert_eq!(ix.program_id.to_bytes(), [0u8; 32]);
    assert_eq!(ix.accounts, vec![account(A, true, true), account(B, false, true)]);
    assert_eq!(ix.payload, vec![2, 0, 0, 0, 8, 7, 6, 5, 4, 3, 2, 1]);
}

#[test]
fn native_transfer_of_nothing_is_refused() {
    assert_eq!(
        native_transfer_instruction(&address(A), &address(B), 0),
        Err(ApiError::AmountMustBePositive)
    );
}

#[test]
fn native_transfer_to_oneself_is_refused() {
    assert_eq!(
        native_transfer_instruction(&address(A), &address(A), 5),
        Err(ApiError::SameAddress(Pairing::SenderRecipient))
    );
}

#[test]
fn native_transfer_reports_the_amount_before_the_parties() {
    assert_eq!(
        native_transfer_instruction(&address(A), &address(A), 0),
        Err(ApiError::AmountMustBePositive)
    );
}

#[test]
fn token_transfer_layout() {
    let ix = token_transfer_instruction(&address(B), &address(C), &address(A), 42).unwrap();
    assert_eq!(encode_address(&ix.program_id), TOKEN_PROGRAM);
    assert_eq!(
        ix.accounts,
        vec![
            account("EDMB72FZVrstDavxmG1vzNzLhmztYeLWKQPwwDENbSwg", false, true),
            account("E5G5mw4Pi9QEcFbpJavVQh7sfgQ6QjDL8iPDGnqE7yZi", false, true),
            account(A, true, false),
        ]
    );
    assert_eq!(ix.payload, vec![3, 42, 0, 0, 0, 0, 0, 0, 0]);
}

#[test]
fn token_accounts_agree_with_the_outside_derivation() {
    let ix = token_transfer_instruction(&address(A), &address(B), &address(C), 1).unwrap();
    let mint = Pubkey::from(address(B).to_bytes());
    let source = spl_associated_token_account::get_associated_token_address(
        &Pubkey::from(address(C).to_bytes()),
        &mint,
    );
    let destination = spl_associated_token_account::get_associated_token_address(
        &Pubkey::from(address(A).to_bytes()),
        &mint,
    );
    assert_eq!(ix.accounts[0].address.to_bytes(), source.to_bytes());
    assert_eq!(ix.accounts[1].address.to_bytes(), destination.to_bytes());
    assert_ne!(ix.accounts[0].address, address(C));
    assert_ne!(ix.accounts[1].address, address(A));
}

#[test]
fn token_transfer_of_nothing_is_refused() {
    assert_eq!(
        token_transfer_instruction(&address(B), &address(C), &address(A), 0),
        Err(ApiError::AmountMustBePositive)
    );
    assert_eq!(
        token_transfer_instruction(&address(A), &address(C), &address(A), 0),
        Err(ApiError::AmountMustBePositive)
    );
}

#[test]
fn token_transfer_to_oneself_is_refused() {
    assert_eq!(
        token_transfer_instruction(&address(A), &address(C), &address(A), 7),
        Err(ApiError::SameAddress(Pairing::OwnerDestination))
    );
}

#[test]
fn builders_give_the_same_instruction_twice() {
    let (a, b, c) = (address(A), address(B), address(C));
    assert_eq!(initialize_mint_instruction(&a, &b, 9), initialize_mint_instruction(&a, &b, 9));
    assert_eq!(mint_to_instruction(&a, &b, &c, 77), mint_to_instruction(&a, &b, &c, 77));
    assert_eq!(native_transfer_instruction(&a, &b, 77), native_transfer_instruction(&a, &b, 77));
    assert_eq!(
        token_transfer_instruction(&a, &b, &c, 77),
        token_transfer_instruction(&a, &b, &c, 77)
    );
}

#[test]
fn encoder_refusal_becomes_a_build_failure() {
    let refused = build_outcome(Err("no such program".to_string()), Family::MintTo);
    assert_eq!(
        refused,
        Err(ApiError::InstructionBuildFailure(Family::MintTo, "no such program".to_string()))
    );
    assert_eq!(
        refused.unwrap_err().message(),
        "Failed to build mint instruction: no such program"
    );
}

#[test]
fn encoder_result_is_kept_as_it_is() {
    let ix = Instruction {
        program_id: address(A),
        accounts: vec![account(B, true, false)],
        payload: vec![1, 2, 3],
    };
    assert_eq!(build_outcome(Ok(ix.clone()), Family::TokenTransfer), Ok(ix));
}

#[test]
fn program_identifiers_have_their_published_bytes() {
    let ix = initialize_mint_instruction(&address(A), &address(B), 0).unwrap();
    assert_eq!(
        ix.program_id.to_bytes(),
        [
            6, 221, 246, 225, 215, 101, 161, 147, 217, 203, 225, 70, 206, 235, 121, 172, 28,
            180, 133, 237, 95, 91, 55, 145, 58, 140, 245, 133, 126, 255, 0, 169,
        ]
    );
    assert_eq!(
        ix.accounts[1].address.to_bytes(),
        [
            6, 167, 213, 23, 25, 44, 92, 81, 33, 140, 201, 76, 61, 74, 241, 127, 88, 218, 238,
            8, 155, 161, 253, 68, 227, 219, 217, 138, 0, 0, 0, 0,
        ]
    );
    let transfer = token_transfer_instruction(&address(A), &address(B), &address(C), 1).unwrap();
    assert_eq!(transfer.program_id, ix.program_id);
    let minting = mint_to_instruction(&address(A), &address(B), &address(C), 1).unwrap();
    assert_eq!(minting.program_id, ix.program_id);
}
