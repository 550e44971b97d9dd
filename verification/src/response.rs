//! What each operation answers with: texts, flags and lists of them.

use vstd::prelude::*;
use crate::codec::{base58_encoding, base64_encoding, encode_address, encode_payload};
use crate::instruction::{AccountView, Instruction, InstructionView};

verus! {

/// A freshly generated key pair in text.
#[derive(Clone, Debug, PartialEq, Eq)]
pub struct KeypairResponse {
    pub pubkey: String,
    pub secret: String,
}

/// A `KeypairResponse` as sequences.
pub struct KeypairResponseView {
    pub pubkey: Seq<char>,
    pub secret: Seq<char>,
}

impl View for KeypairResponse {
    type V = KeypairResponseView;

    open spec fn view(&self) -> KeypairResponseView {
        KeypairResponseView { pubkey: self.pubkey@, secret: self.secret@ }
    }
}

/// One account of a token instruction in text.
#[derive(Clone, Debug, PartialEq, Eq)]
pub struct AccountMetaJson {
    pub pubkey: String,
    pub is_signer: bool,
    pub is_writable: bool,
}

/// An account in text, as sequences.
pub struct AccountTextView {
    pub pubkey: Seq<char>,
    pub is_signer: bool,
    pub is_writable: bool,
}

impl View for AccountMetaJson {
    type V = AccountTextView;

    open spec fn view(&self) -> AccountTextView {
        AccountTextView {
            pubkey: self.pubkey@,
            is_signer: self.is_signer,
            is_writable: self.is_writable,
        }
    }
}

/// A mint-initialization or mint-to instruction in text.
#[derive(Clone, Debug, PartialEq, Eq)]
pub struct TokenCreateResponse {
    pub program_id: String,
    pub accounts: Vec<AccountMetaJson>,
    pub instruction_data: String,
}

/// An instruction in text with the rights of each account, as sequences.
pub struct InstructionTextView {
    pub program_id: Seq<char>,
    pub accounts: Seq<AccountTextView>,
    pub instruction_data: Seq<char>,
}

impl View for TokenCreateResponse {
    type V = InstructionTextView;

    open spec fn view(&self) -> InstructionTextView {
        InstructionTextView {
            program_id: self.program_id@,
            accounts: self.accounts@.map_values(|a: AccountMetaJson| a@),
            instruction_data: self.instruction_data@,
        }
    }
}

/// A signature in text, with the signer's public key and the message.
#[derive(Clone, Debug, PartialEq, Eq)]
pub struct SignMessageResponse {
    pub signature: String,
    pub public_key: String,
    pub message: String,
}

/// A `SignMessageResponse` as sequences.
pub struct SignMessageResponseView {
    pub signature: Seq<char>,
    pub public_key: Seq<char>,
    pub message: Seq<char>,
}

impl View for SignMessageResponse {
    type V = SignMessageResponseView;

    open spec fn view(&self) -> SignMessageResponseView {
        SignMessageResponseView {
            signature: self.signature@,
            public_key: self.public_key@,
            message: self.message@,
        }
    }
}

/// Whether a signature was valid, with the message and the public key as
/// they were sent.
#[derive(Clone, Debug, PartialEq, Eq)]
pub struct VerifyMessageResponse {
    pub valid: bool,
    pub message: String,
    pub pubkey: String,
}

/// A `VerifyMessageResponse` as sequences.
pub struct VerifyMessageResponseView {
    pub valid: bool,
    pub message: Seq<char>,
    pub pubkey: Seq<char>,
}

impl View for VerifyMessageResponse {
    type V = VerifyMessageResponseView;

    open spec fn view(&self) -> VerifyMessageResponseView {
        VerifyMessageResponseView {
            valid: self.valid,
            message: self.message@,
            pubkey: self.pubkey@,
        }
    }
}

/// A native transfer instruction in text; its accounts are addresses only.
#[derive(Clone, Debug, PartialEq, Eq)]
pub struct SendSolResponse {
    pub program_id: String,
    pub accounts: Vec<String>,
    pub instruction_data: String,
}

/// A `SendSolResponse` as sequences.
pub struct SendSolResponseView {
    pub program_id: Seq<char>,
    pub accounts: Seq<Seq<char>>,
    pub instruction_data: Seq<char>,
}

impl View for SendSolResponse {
    type V = SendSolResponseView;

    open spec fn view(&self) -> SendSolResponseView {
        SendSolResponseView {
            program_id: self.program_id@,
            accounts: self.accounts@.map_values(|a: String| a@),
            instruction_data: self.instruction_data@,
        }
    }
}

/// One account of a token transfer in text.
#[derive(Clone, Debug, PartialEq, Eq)]
pub struct SendTokenAccount {
    pub pubkey: String,
    pub is_signer: bool,
    pub is_writable: bool,
}

impl View for SendTokenAccount {
    type V = AccountTextView;

    open spec fn view(&self) -> AccountTextView {
        AccountTextView {
            pubkey: self.pubkey@,
            is_signer: self.is_signer,
            is_writable: self.is_writable,
        }
    }
}

/// A token transfer instruction in text.
#[derive(Clone, Debug, PartialEq, Eq)]
pub struct SendTokenResponse {
    pub program_id: String,
    pub accounts: Vec<SendTokenAccount>,
    pub instruction_data: String,
}

impl View for SendTokenResponse {
    type V = InstructionTextView;

    open spec fn view(&self) -> InstructionTextView {
        InstructionTextView {
            program_id: self.program_id@,
            accounts: self.accounts@.map_values(|a: SendTokenAccount| a@),
            instruction_data: self.instruction_data@,
        }
    }
}

/// An account reference in text: its address in base-58, its rights as
/// they are.
pub open spec fn account_text(account: AccountView) -> AccountTextView {
    AccountTextView {
        pubkey: base58_encoding(account.address),
        is_signer: account.is_signer,
        is_writable: account.is_writable,
    }
}

/// An instruction in text: addresses in base-58, the payload in base-64,
/// the accounts in their order.
pub open spec fn instruction_text(ix: InstructionView) -> InstructionTextView {
    InstructionTextView {
        program_id: base58_encoding(ix.program_id),
        accounts: ix.accounts.map_values(|a: AccountView| account_text(a)),
        instruction_data: base64_encoding(ix.payload),
    }
}

/// An instruction in text with the addresses of its accounts only.
pub open spec fn instruction_addresses_text(ix: InstructionView) -> SendSolResponseView {
    SendSolResponseView {
        program_id: base58_encoding(ix.program_id),
        accounts: ix.accounts.map_values(|a: AccountView| base58_encoding(a.address)),
        instruction_data: base64_encoding(ix.payload),
    }
}

/// Longest payload that is written as text.
pub const MAX_PAYLOAD_BYTES: usize = 0x7fff_ffff;

impl TokenCreateResponse {
    /// Writes an instruction as text.
    pub fn from_instruction(ix: &Instruction) -> (r: TokenCreateResponse)
        requires
            ix.payload@.len() <= MAX_PAYLOAD_BYTES,
        ensures
            r@ == instruction_text(ix@),
    {
        let mut accounts: Vec<AccountMetaJson> = Vec::new();
        let mut i: usize = 0;
        while i < ix.accounts.len()
            invariant
                i <= ix.accounts@.len(),
                accounts@.len() == i,
                forall|j: int| 0 <= j < i ==> (#[trigger] accounts@[j])@ == account_text(ix.accounts@[j]@),
            decreases ix.accounts@.len() - i,
        {
            let account = &ix.accounts[i];
            accounts.push(
                AccountMetaJson {
                    pubkey: encode_address(&account.address),
                    is_signer: account.is_signer,
                    is_writable: account.is_writable,
                },
            );
            i = i + 1;
        }
        let r = TokenCreateResponse {
            program_id: encode_address(&ix.program_id),
            accounts,
            instruction_data: encode_payload(ix.payload.as_slice()),
        };
        assert(r@.accounts =~= instruction_text(ix@).accounts);
        r
    }
}

impl SendTokenResponse {
    /// Writes an instruction as text.
    pub fn from_instruction(ix: &Instruction) -> (r: SendTokenResponse)
        requires
            ix.payload@.len() <= MAX_PAYLOAD_BYTES,
        ensures
            r@ == instruction_text(ix@),
    {
        let mut accounts: Vec<SendTokenAccount> = Vec::new();
        let mut i: usize = 0;
        while i < ix.accounts.len()
            invariant
                i <= ix.accounts@.len(),
                accounts@.len() == i,
                forall|j: int| 0 <= j < i ==> (#[trigger] accounts@[j])@ == account_text(ix.accounts@[j]@),
            decreases ix.accounts@.len() - i,
        {
            let account = &ix.accounts[i];
            accounts.push(
                SendTokenAccount {
                    pubkey: encode_address(&account.address),
                    is_signer: account.is_signer,
                    is_writable: account.is_writable,
                },
            );
            i = i + 1;
        }
        let r = SendTokenResponse {
            program_id: encode_address(&ix.program_id),
            accounts,
            instruction_data: encode_payload(ix.payload.as_slice()),
        };
        assert(r@.accounts =~= instruction_text(ix@).accounts);
        r
    }
}

impl SendSolResponse {
    /// Writes an instruction as text, with the addresses of its accounts
    /// only.
    pub fn from_instruction(ix: &Instruction) -> (r: SendSolResponse)
        requires
            ix.payload@.len() <= MAX_PAYLOAD_BYTES,
        ensures
            r@ == instruction_addresses_text(ix@),
    {
        let mut accounts: Vec<String> = Vec::new();
        let mut i: usize = 0;
        while i < ix.accounts.len()
            invariant
                i <= ix.accounts@.len(),
                accounts@.len() == i,
                forall|j: int| 0 <= j < i ==> (#[trigger] accounts@[j])@ == base58_encoding(
                    ix.accounts@[j]@.address,
                ),
            decreases ix.accounts@.len() - i,
        {
            accounts.push(encode_address(&ix.accounts[i].address));
            i = i + 1;
        }
        let r = SendSolResponse {
            program_id: encode_address(&ix.program_id),
            accounts,
            instruction_data: encode_payload(ix.payload.as_slice()),
        };
        assert(r@.accounts =~= instruction_addresses_text(ix@).accounts);
        r
    }
}

} // verus!
