//! The records that the vault keeps.

use vstd::prelude::*;

verus! {

/// Compares two 32-byte values.
pub fn bytes32_eq(a: &[u8; 32], b: &[u8; 32]) -> (r: bool)
    ensures
        r == (a@ == b@),
{
    let mut i: usize = 0;
    while i < 32
        invariant
            i <= 32,
            a@.len() == 32,
            b@.len() == 32,
            forall|j: int| 0 <= j < i ==> a@[j] == b@[j],
        decreases 32 - i,
    {
        if a[i] != b[i] {
            return false;
        }
        i = i + 1;
    }
    assert(a@ == b@);
    true
}

/// An account identity: the 32 bytes of a public key.
#[derive(Clone, Copy, Debug, PartialEq, Eq)]
pub struct Identity {
    pub bytes: [u8; 32],
}

impl Identity {
    /// Compares two identities byte for byte.
    pub fn same_as(&self, other: &Identity) -> (r: bool)
        ensures
            r == (self.bytes@ == other.bytes@),
    {
        bytes32_eq(&self.bytes, &other.bytes)
    }
}

/// The singleton vault record.
#[derive(Clone, Copy, Debug, PartialEq, Eq)]
pub struct CasinoVault {
    /// The operator, the only identity that may commit batch roots.
    pub operational_authority: Identity,
    /// The Keccak-256 fingerprint of the house signer's public key.
    pub signing_authority: [u8; 32],
    /// How many batch roots have been committed.
    pub batch_id_counter: u64,
}

/// One user's ledger: balance and the last nonce consumed by a withdrawal.
#[derive(Clone, Copy, Debug, PartialEq, Eq)]
pub struct UserBalance {
    pub user: Identity,
    pub amount: u64,
    pub last_withdrawal_nonce: u64,
    /// The address-derivation bump that the storage layer chose for the record.
    pub bump: u8,
}

/// A committed batch root; immutable once written.
#[derive(Clone, Copy, Debug, PartialEq, Eq)]
pub struct BatchCommit {
    pub authority: Identity,
    pub batch_id: u64,
    pub merkle_root: [u8; 32],
}

/// Why an operation was refused. A refused operation changes nothing.
#[derive(Clone, Copy, Debug, PartialEq, Eq)]
pub enum MyError {
    /// The caller lacks the role, or acts on another user's ledger.
    Unauthorized,
    /// No key could be recovered, or it is not the house signer's.
    SignatureVerificationFailed,
    /// The vault's custody balance is below the amount.
    InsufficientVaultBalance,
    /// The user's ledger balance is below the amount.
    InsufficientUserBalance,
    /// The nonce is not exactly one past the last one consumed.
    InvalidNonce,
    /// The deposit would push a balance past `u64::MAX`.
    DepositOverflow,
    /// The record to be created exists already.
    AccountAlreadyInUse,
    /// The batch counter would pass `u64::MAX`.
    CounterOverflow,
}

} // verus!
