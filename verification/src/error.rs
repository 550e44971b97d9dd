//! The kinds of failure that an operation reports, and the text that each one
//! is flattened to in a response.

use vstd::prelude::*;
use vstd::string::StringExecFns;

verus! {

/// The role that an address plays in a request.
#[derive(Clone, Copy, Debug, PartialEq, Eq, Structural)]
pub enum Party {
    Mint,
    MintAuthority,
    Destination,
    Authority,
    PublicKey,
    Sender,
    Recipient,
    Owner,
}

/// What is wrong with a secret that was refused.
#[derive(Clone, Copy, Debug, PartialEq, Eq, Structural)]
pub enum SecretDefect {
    /// The text is not base-58, or does not decode to 64 bytes.
    Malformed,
    /// The 64 bytes are not a secret followed by its own public key.
    Inconsistent,
}

/// The two parties of a transfer that have to differ.
#[derive(Clone, Copy, Debug, PartialEq, Eq, Structural)]
pub enum Pairing {
    SenderRecipient,
    OwnerDestination,
}

/// The instruction families whose encoder can refuse to build.
#[derive(Clone, Copy, Debug, PartialEq, Eq, Structural)]
pub enum Family {
    MintInitialization,
    MintTo,
    TokenTransfer,
}

/// Why an operation did not produce its result.
#[derive(Clone, Debug, PartialEq, Eq)]
pub enum ApiError {
    MissingField,
    InvalidAddress(Party),
    InvalidSecret(SecretDefect),
    InvalidSignatureFormat,
    AmountMustBePositive,
    SameAddress(Pairing),
    InstructionBuildFailure(Family, String),
}

/// An `ApiError` with its text as a sequence of characters.
pub enum ErrorView {
    MissingField,
    InvalidAddress(Party),
    InvalidSecret(SecretDefect),
    InvalidSignatureFormat,
    AmountMustBePositive,
    SameAddress(Pairing),
    InstructionBuildFailure(Family, Seq<char>),
}

impl View for ApiError {
    type V = ErrorView;

    open spec fn view(&self) -> ErrorView {
        match *self {
            ApiError::MissingField => ErrorView::MissingField,
            ApiError::InvalidAddress(p) => ErrorView::InvalidAddress(p),
            ApiError::InvalidSecret(d) => ErrorView::InvalidSecret(d),
            ApiError::InvalidSignatureFormat => ErrorView::InvalidSignatureFormat,
            ApiError::AmountMustBePositive => ErrorView::AmountMustBePositive,
            ApiError::SameAddress(p) => ErrorView::SameAddress(p),
            ApiError::InstructionBuildFailure(f, reason) => ErrorView::InstructionBuildFailure(
                f,
                reason@,
            ),
        }
    }
}

/// The text for an address that does not parse.
pub open spec fn invalid_address_text(party: Party) -> Seq<char> {
    match party {
        Party::Mint => "Invalid mint pubkey"@,
        Party::MintAuthority => "Invalid mint_authority pubkey"@,
        Party::Destination => "Invalid destination pubkey"@,
        Party::Authority => "Invalid authority pubkey"@,
        Party::PublicKey => "Invalid public key"@,
        Party::Sender => "Invalid sender pubkey"@,
        Party::Recipient => "Invalid recipient pubkey"@,
        Party::Owner => "Invalid owner pubkey"@,
    }
}

/// The words that precede the encoder's own message.
pub open spec fn build_failure_prefix(family: Family) -> Seq<char> {
    match family {
        Family::MintInitialization => "Failed to build instruction: "@,
        Family::MintTo => "Failed to build mint instruction: "@,
        Family::TokenTransfer => "Failed to build transfer instruction: "@,
    }
}

impl ErrorView {
    /// The human-readable text of the error.
    pub open spec fn message(self) -> Seq<char> {
        match self {
            ErrorView::MissingField => "Missing required fields"@,
            ErrorView::InvalidAddress(party) => invalid_address_text(party),
            ErrorView::InvalidSecret(SecretDefect::Malformed) => "Invalid secret key"@,
            ErrorView::InvalidSecret(SecretDefect::Inconsistent) => "Failed to construct keypair"@,
            ErrorView::InvalidSignatureFormat => "Invalid signature format"@,
            ErrorView::AmountMustBePositive => "Amount must be greater than 0"@,
            ErrorView::SameAddress(Pairing::SenderRecipient) => "Sender and recipient cannot be the same"@,
            ErrorView::SameAddress(Pairing::OwnerDestination) => "Owner and destination cannot be the same"@,
            ErrorView::InstructionBuildFailure(family, reason) => build_failure_prefix(family)
                + reason,
        }
    }
}

/// The text for an address that does not parse.
pub fn invalid_address_message(party: Party) -> (r: &'static str)
    ensures
        r@ == invalid_address_text(party),
{
    match party {
        Party::Mint => "Invalid mint pubkey",
        Party::MintAuthority => "Invalid mint_authority pubkey",
        Party::Destination => "Invalid destination pubkey",
        Party::Authority => "Invalid authority pubkey",
        Party::PublicKey => "Invalid public key",
        Party::Sender => "Invalid sender pubkey",
        Party::Recipient => "Invalid recipient pubkey",
        Party::Owner => "Invalid owner pubkey",
    }
}

impl ApiError {
    /// The human-readable text of the error, as a response carries it.
    pub fn message(&self) -> (r: String)
        ensures
            r@ == self@.message(),
    {
        match self {
            ApiError::MissingField => String::from_str("Missing required fields"),
            ApiError::InvalidAddress(party) => String::from_str(invalid_address_message(*party)),
            ApiError::InvalidSecret(SecretDefect::Malformed) => String::from_str(
                "Invalid secret key",
            ),
            ApiError::InvalidSecret(SecretDefect::Inconsistent) => String::from_str(
                "Failed to construct keypair",
            ),
            ApiError::InvalidSignatureFormat => String::from_str("Invalid signature format"),
            ApiError::AmountMustBePositive => String::from_str("Amount must be greater than 0"),
            ApiError::SameAddress(Pairing::SenderRecipient) => String::from_str(
                "Sender and recipient cannot be the same",
            ),
            ApiError::SameAddress(Pairing::OwnerDestination) => String::from_str(
                "Owner and destination cannot be the same",
            ),
            ApiError::InstructionBuildFailure(family, reason) => {
                let prefix = match family {
                    Family::MintInitialization => "Failed to build instruction: ",
                    Family::MintTo => "Failed to build mint instruction: ",
                    Family::TokenTransfer => "Failed to build transfer instruction: ",
                };
                String::from_str(prefix).concat(reason.as_str())
            },
        }
    }
}

} // verus!
