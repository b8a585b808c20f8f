//! A custodial vault whose withdrawals are authorised by an off-chain signer.
//!
//! Users deposit into a shared pool; a withdrawal needs a secp256k1 signature
//! from the house signer over `(user, amount, nonce)`, and an operator may
//! publish batch roots into an append-only registry.

pub mod message;
pub mod state;
pub mod crypto;
pub mod registry;
pub mod ops;
pub mod laws;

pub use ops::{commit_batch_root, deposit, initialize, withdraw, CommitBatch, Deposit, Initialize, Withdraw};
pub use state::{BatchCommit, CasinoVault, Identity, MyError, UserBalance};
