//! Instructions: a program identifier, an ordered list of account
//! references and a payload of bytes, in the fixed layout of each family.

use solana_sdk::pubkey::Pubkey;
use vstd::prelude::*;
use crate::keys::Address;

verus! {

/// One account that an instruction names, with the rights it is given.
#[derive(Clone, Copy, Debug, PartialEq, Eq)]
pub struct AccountReference {
    pub address: Address,
    pub is_signer: bool,
    pub is_writable: bool,
}

/// An `AccountReference` with its address as a sequence of bytes.
pub struct AccountView {
    pub address: Seq<u8>,
    pub is_signer: bool,
    pub is_writable: bool,
}

impl View for AccountReference {
    type V = AccountView;

    open spec fn view(&self) -> AccountView {
        AccountView {
            address: self.address@,
            is_signer: self.is_signer,
            is_writable: self.is_writable,
        }
    }
}

impl AccountReference {
    /// The reference to the account at `bytes` with the given rights.
    pub fn new(bytes: [u8; 32], is_signer: bool, is_writable: bool) -> (r: AccountReference)
        ensures
            r@ == (AccountView { address: bytes@, is_signer, is_writable }),
    {
        AccountReference { address: Address { bytes }, is_signer, is_writable }
    }
}

/// A program invocation: which program, on which accounts, with what
/// payload.
#[derive(Clone, Debug, PartialEq, Eq)]
pub struct Instruction {
    pub program_id: Address,
    pub accounts: Vec<AccountReference>,
    pub payload: Vec<u8>,
}

/// An `Instruction` as sequences.
pub struct InstructionView {
    pub program_id: Seq<u8>,
    pub accounts: Seq<AccountView>,
    pub payload: Seq<u8>,
}

impl View for Instruction {
    type V = InstructionView;

    open spec fn view(&self) -> InstructionView {
        InstructionView {
            program_id: self.program_id@,
            accounts: self.accounts@.map_values(|a: AccountReference| a@),
            payload: self.payload@,
        }
    }
}

/// The identifier of the system program: 32 zero bytes.
pub open spec fn system_program() -> Seq<u8> {
    Seq::new(32, |i: int| 0u8)
}

/// The identifier of the token program.
pub open spec fn token_program() -> Seq<u8> {
    seq![
        6, 221, 246, 225, 215, 101, 161, 147, 217, 203, 225, 70, 206, 235, 121, 172,
        28, 180, 133, 237, 95, 91, 55, 145, 58, 140, 245, 133, 126, 255, 0, 169,
    ]
}

/// The address of the rent sysvar.
pub open spec fn rent_sysvar() -> Seq<u8> {
    seq![
        6, 167, 213, 23, 25, 44, 92, 81, 33, 140, 201, 76, 61, 74, 241, 127,
        88, 218, 238, 8, 155, 161, 253, 68, 227, 219, 217, 138, 0, 0, 0, 0,
    ]
}

/// Payload tag of a mint initialization.
pub const TAG_INITIALIZE_MINT: u8 = 0;

/// Payload tag of a token transfer.
pub const TAG_TOKEN_TRANSFER: u8 = 3;

/// Payload tag of a mint-to.
pub const TAG_MINT_TO: u8 = 7;

/// Payload tag of a native transfer; it is written as four bytes.
pub const TAG_NATIVE_TRANSFER: u8 = 2;

/// The eight bytes of a 64-bit amount, least significant first.
pub open spec fn le_bytes(x: u64) -> Seq<u8> {
    seq![
        (x % 0x100) as u8,
        ((x / 0x100) % 0x100) as u8,
        ((x / 0x1_0000) % 0x100) as u8,
        ((x / 0x100_0000) % 0x100) as u8,
        ((x / 0x1_0000_0000) % 0x100) as u8,
        ((x / 0x100_0000_0000) % 0x100) as u8,
        ((x / 0x1_0000_0000_0000) % 0x100) as u8,
        ((x / 0x100_0000_0000_0000) % 0x100) as u8,
    ]
}

/// A writable account that does not sign.
pub open spec fn writable(address: Seq<u8>) -> AccountView {
    AccountView { address, is_signer: false, is_writable: true }
}

/// A writable account that signs.
pub open spec fn writable_signer(address: Seq<u8>) -> AccountView {
    AccountView { address, is_signer: true, is_writable: true }
}

/// A read-only account that signs.
pub open spec fn readonly_signer(address: Seq<u8>) -> AccountView {
    AccountView { address, is_signer: true, is_writable: false }
}

/// A read-only account that does not sign.
pub open spec fn readonly(address: Seq<u8>) -> AccountView {
    AccountView { address, is_signer: false, is_writable: false }
}

/// The instruction that initializes `mint` with `authority` as the mint
/// authority, `decimals` digits of precision and no freeze authority.
pub open spec fn mint_initialization_layout(
    mint: Seq<u8>,
    authority: Seq<u8>,
    decimals: u8,
) -> InstructionView {
    InstructionView {
        program_id: token_program(),
        accounts: seq![writable(mint), readonly(rent_sysvar())],
        payload: seq![TAG_INITIALIZE_MINT, decimals] + authority + seq![0u8],
    }
}

/// The instruction that mints `amount` of `mint` to `destination`, signed
/// by `authority` alone.
pub open spec fn mint_to_layout(
    mint: Seq<u8>,
    destination: Seq<u8>,
    authority: Seq<u8>,
    amount: u64,
) -> InstructionView {
    InstructionView {
        program_id: token_program(),
        accounts: seq![writable(mint), writable(destination), readonly_signer(authority)],
        payload: seq![TAG_MINT_TO] + le_bytes(amount),
    }
}

/// The instruction that moves `lamports` of the native asset.
pub open spec fn native_transfer_layout(from: Seq<u8>, to: Seq<u8>, lamports: u64) -> InstructionView {
    InstructionView {
        program_id: system_program(),
        accounts: seq![writable_signer(from), writable(to)],
        payload: seq![TAG_NATIVE_TRANSFER, 0u8, 0u8, 0u8] + le_bytes(lamports),
    }
}

/// The instruction that moves `amount` of a token between two token
/// accounts, signed by `owner` alone.
pub open spec fn token_transfer_layout(
    source: Seq<u8>,
    destination: Seq<u8>,
    owner: Seq<u8>,
    amount: u64,
) -> InstructionView {
    InstructionView {
        program_id: token_program(),
        accounts: seq![writable(source), writable(destination), readonly_signer(owner)],
        payload: seq![TAG_TOKEN_TRANSFER] + le_bytes(amount),
    }
}

/// The token account that belongs to a wallet for a mint.
pub uninterp spec fn associated_token_address(wallet: Seq<u8>, mint: Seq<u8>) -> Seq<u8>;

/// Calls `spl_token::id`. Trusted: the identifier is the 32 bytes of
/// `token_program`.
#[verifier::external_body]
pub(crate) fn token_program_id() -> (r: Address)
    ensures
        r@ == token_program(),
{
    Address { bytes: spl_token::id().to_bytes() }
}

/// Calls `spl_token::instruction::initialize_mint` without a freeze
/// authority. Trusted: the call succeeds exactly when `program` is the token
/// program, and then gives `mint_initialization_layout`.
#[verifier::external_body]
pub(crate) fn encode_initialize_mint(
    program: &Address,
    mint: &Address,
    authority: &Address,
    decimals: u8,
) -> (r: Result<Instruction, String>)
    ensures
        r is Ok <==> program@ == token_program(),
        r matches Ok(ix) ==> ix@ == mint_initialization_layout(mint@, authority@, decimals),
{
    let built = spl_token::instruction::initialize_mint(&Pubkey::from(program.bytes),
        &Pubkey::from(mint.bytes), &Pubkey::from(authority.bytes), None, decimals);
    match built {
        Ok(ix) => Ok(Instruction {
            program_id: Address::new(ix.program_id.to_bytes()),
            accounts: ix.accounts.iter().map(|m|
                AccountReference::new(m.pubkey.to_bytes(), m.is_signer, m.is_writable)).collect(),
            payload: ix.data,
        }),
        Err(e) => Err(e.to_string()),
    }
}

/// Calls `spl_token::instruction::mint_to` with no further signers. Trusted:
/// the call succeeds exactly when `program` is the token program, and then
/// gives `mint_to_layout`.
#[verifier::external_body]
pub(crate) fn encode_mint_to(
    program: &Address,
    mint: &Address,
    destination: &Address,
    authority: &Address,
    amount: u64,
) -> (r: Result<Instruction, String>)
    ensures
        r is Ok <==> program@ == token_program(),
        r matches Ok(ix) ==> ix@ == mint_to_layout(mint@, destination@, authority@, amount),
{
    let built = spl_token::instruction::mint_to(&Pubkey::from(program.bytes),
        &Pubkey::from(mint.bytes), &Pubkey::from(destination.bytes),
        &Pubkey::from(authority.bytes), &[], amount);
    match built {
        Ok(ix) => Ok(Instruction {
            program_id: Address::new(ix.program_id.to_bytes()),
            accounts: ix.accounts.iter().map(|m|
                AccountReference::new(m.pubkey.to_bytes(), m.is_signer, m.is_writable)).collect(),
            payload: ix.data,
        }),
        Err(e) => Err(e.to_string()),
    }
}

/// Calls `spl_token::instruction::transfer` with no further signers.
/// Trusted: the call succeeds exactly when `program` is the token program,
/// and then gives `token_transfer_layout`.
#[verifier::external_body]
pub(crate) fn encode_token_transfer(
    program: &Address,
    source: &Address,
    destination: &Address,
    owner: &Address,
    amount: u64,
) -> (r: Result<Instruction, String>)
    ensures
        r is Ok <==> program@ == token_program(),
        r matches Ok(ix) ==> ix@ == token_transfer_layout(source@, destination@, owner@, amount),
{
    let built = spl_token::instruction::transfer(&Pubkey::from(program.bytes),
        &Pubkey::from(source.bytes), &Pubkey::from(destination.bytes),
        &Pubkey::from(owner.bytes), &[], amount);
    match built {
        Ok(ix) => Ok(Instruction {
            program_id: Address::new(ix.program_id.to_bytes()),
            accounts: ix.accounts.iter().map(|m|
                AccountReference::new(m.pubkey.to_bytes(), m.is_signer, m.is_writable)).collect(),
            payload: ix.data,
        }),
        Err(e) => Err(e.to_string()),
    }
}

/// Calls `solana_sdk::system_instruction::transfer`. Trusted: the result has
/// the value of `native_transfer_layout`.
#[verifier::external_body]
pub(crate) fn encode_native_transfer(from: &Address, to: &Address, lamports: u64) -> (r:
    Instruction)
    ensures
        r@ == native_transfer_layout(from@, to@, lamports),
{
    let ix = solana_sdk::system_instruction::transfer(&Pubkey::from(from.bytes),
        &Pubkey::from(to.bytes), lamports);
    Instruction {
        program_id: Address::new(ix.program_id.to_bytes()),
        accounts: ix.accounts.iter().map(|m|
            AccountReference::new(m.pubkey.to_bytes(), m.is_signer, m.is_writable)).collect(),
        payload: ix.data,
    }
}

/// Calls `spl_associated_token_account::get_associated_token_address`.
/// Trusted: the address depends on the wallet and the mint alone, and is
/// the one that `associated_token_address` names. The derivation tries 256
/// candidates and aborts if none is usable; no wallet and mint are known for
/// which that happens.
#[verifier::external_body]
pub(crate) fn derive_token_account(wallet: &Address, mint: &Address) -> (r: Address)
    ensures
        r@ == associated_token_address(wallet@, mint@),
{
    let key = spl_associated_token_account::get_associated_token_address(
        &Pubkey::from(wallet.bytes), &Pubkey::from(mint.bytes));
    Address { bytes: key.to_bytes() }
}

} // verus!
