//! Key pairs: 64 bytes that hold a secret seed and the public key that
//! belongs to it.

use solana_sdk::signature::Keypair;
use vstd::prelude::*;
use crate::keys::Address;

verus! {

/// Whether 64 bytes are a secret seed followed by the public key derived
/// from that seed.
pub uninterp spec fn keypair_accepted(bytes: Seq<u8>) -> bool;

/// Calls `Keypair::from_bytes` and reports whether it succeeded. Trusted: the
/// outcome is the one that `keypair_accepted` names.
#[verifier::external_body]
pub(crate) fn keypair_check(bytes: &[u8; 64]) -> (r: bool)
    ensures
        r == keypair_accepted(bytes@),
{
    Keypair::from_bytes(bytes).is_ok()
}

/// Calls `Keypair::new` and `Keypair::to_bytes`. Trusted: whatever pair the
/// system's entropy source led to, its 64 bytes are a secret seed followed
/// by the seed's own public key, so `Keypair::from_bytes` accepts them. The
/// call aborts the process when the entropy source fails.
#[verifier::external_body]
pub(crate) fn keypair_fresh() -> (r: [u8; 64])
    ensures
        keypair_accepted(r@),
{
    Keypair::new().to_bytes()
}

/// A secret seed together with its public key.
#[derive(Debug)]
pub struct KeyPair {
    pub(crate) bytes: [u8; 64],
}

impl View for KeyPair {
    type V = Seq<u8>;

    closed spec fn view(&self) -> Seq<u8> {
        self.bytes@
    }
}

impl KeyPair {
    #[verifier::type_invariant]
    spec fn consistent(self) -> bool {
        keypair_accepted(self.bytes@)
    }

    /// The key pair made of the given bytes, if they are one.
    pub fn from_bytes(bytes: [u8; 64]) -> (r: Option<KeyPair>)
        ensures
            r is Some <==> keypair_accepted(bytes@),
            r matches Some(pair) ==> pair@ == bytes@,
    {
        if keypair_check(&bytes) {
            Some(KeyPair { bytes })
        } else {
            None
        }
    }

    /// A key pair that the system's entropy source decides.
    pub fn generate() -> (r: KeyPair)
        ensures
            keypair_accepted(r@),
            r@.len() == 64,
    {
        KeyPair { bytes: keypair_fresh() }
    }

    /// The 64 bytes of the pair: the secret seed, then the public key.
    pub fn to_bytes(&self) -> (r: [u8; 64])
        ensures
            r@ == self@,
            keypair_accepted(self@),
    {
        proof {
            use_type_invariant(self);
        }
        self.bytes
    }

    /// The public half of the pair.
    pub fn public_key(&self) -> (r: Address)
        ensures
            r@ == self@.subrange(32, 64),
    {
        let mut out: [u8; 32] = [0u8; 32];
        let mut i: usize = 0;
        while i < 32
            invariant
                i <= 32,
                forall|j: int| 0 <= j < i ==> out@[j] == self.bytes@[32 + j],
            decreases 32 - i,
        {
            out[i] = self.bytes[32 + i];
            i = i + 1;
        }
        assert(out@ =~= self.bytes@.subrange(32, 64));
        Address { bytes: out }
    }
}

} // verus!
