//! Request validation, instruction construction and message signing for an
//! account-based ledger, as pure functions from request values to response
//! values.

pub mod builders;
pub mod codec;
pub mod envelope;
pub mod error;
pub mod instruction;
pub mod keypair;
pub mod keys;
pub mod laws;
pub mod operations;
pub mod response;
pub mod signer;
pub mod text;
