//! Keccak-256 and secp256k1 public-key recovery, and the authorisation check
//! built on them.

use vstd::prelude::*;
use solana_program::secp256k1_recover::Secp256k1RecoverError;
use crate::message::{build_withdrawal_message, withdrawal_message};
use crate::state::{bytes32_eq, Identity};

verus! {

/// The error of `solana_program::secp256k1_recover::secp256k1_recover`,
/// carried through opaquely: every variant is a failed recovery here.
#[verifier::external_type_specification]
#[verifier::external_body]
pub struct ExSecp256k1RecoverError(Secp256k1RecoverError);

/// The Keccak-256 digest of `data`.
pub uninterp spec fn keccak_of(data: Seq<u8>) -> Seq<u8>;

/// The 64-byte public key that secp256k1 ECDSA recovery derives from a
/// 32-byte message digest, a recovery id and a 64-byte signature, or `None`
/// where recovery fails.
pub uninterp spec fn secp256k1_recovered(digest: Seq<u8>, recovery_id: u8, signature: Seq<u8>) -> Option<Seq<u8>>;

/// Relies on `solana_program::keccak::hash`: the Keccak-256 digest of
/// `data`, which depends on its bytes alone.
#[verifier::external_body]
#[allow(deprecated)]
fn keccak_hash(data: &[u8]) -> (r: [u8; 32])
    ensures
        r@ == keccak_of(data@),
{
    solana_program::keccak::hash(data).to_bytes()
}

/// Relies on `solana_program::secp256k1_recover::secp256k1_recover`: the
/// recovered public key as its 64 bytes, or an error when recovery fails;
/// a recovery id outside `0..=3` is always an error.
#[verifier::external_body]
fn secp256k1_recover_key(digest: &[u8; 32], recovery_id: u8, signature: &[u8; 64]) -> (r: Result<[u8; 64], Secp256k1RecoverError>)
    ensures
        match secp256k1_recovered(digest@, recovery_id, signature@) {
            Some(k) => r is Ok && r->Ok_0@ == k,
            None => r is Err,
        },
        recovery_id > 3 ==> r is Err,
{
    solana_program::secp256k1_recover::secp256k1_recover(digest, recovery_id, signature).map(|k| k.0)
}

/// The fingerprint under which a signing key is stored: the Keccak-256
/// digest of its 64 public-key bytes.
pub fn authority_fingerprint(public_key: &[u8; 64]) -> (r: [u8; 32])
    ensures
        r@ == keccak_of(public_key@),
{
    keccak_hash(public_key)
}

/// The fingerprint of the key that signed `(user, amount, nonce)`, if a key
/// can be recovered from the signature at all.
pub open spec fn recovered_fingerprint(
    user: Seq<u8>,
    amount: u64,
    nonce: u64,
    signature: Seq<u8>,
    recovery_id: u8,
) -> Option<Seq<u8>> {
    match secp256k1_recovered(keccak_of(withdrawal_message(user, amount, nonce)), recovery_id, signature) {
        Some(k) => Some(keccak_of(k)),
        None => None,
    }
}

/// Whether a recovered fingerprint is that of the configured authority.
pub open spec fn fingerprint_accepted(recovered: Option<Seq<u8>>, authority: Seq<u8>) -> bool {
    match recovered {
        Some(f) => f == authority,
        None => false,
    }
}

/// Whether `signature` authorises the withdrawal of `amount` with `nonce`
/// by `user`, for the authority whose fingerprint is `authority`.
pub open spec fn signature_authorizes(
    authority: Seq<u8>,
    user: Seq<u8>,
    amount: u64,
    nonce: u64,
    signature: Seq<u8>,
    recovery_id: u8,
) -> bool {
    fingerprint_accepted(recovered_fingerprint(user, amount, nonce, signature, recovery_id), authority)
}

/// Recovers the signer of the withdrawal `(user, amount, nonce)` and returns
/// the fingerprint of its key; `None` where recovery fails.
pub fn recover_signer_fingerprint(
    user: &Identity,
    amount: u64,
    nonce: u64,
    signature: &[u8; 64],
    recovery_id: u8,
) -> (r: Option<[u8; 32]>)
    ensures
        match recovered_fingerprint(user.bytes@, amount, nonce, signature@, recovery_id) {
            Some(f) => r is Some && r->0@ == f,
            None => r is None,
        },
        recovery_id > 3 ==> r is None,
{
    let message = build_withdrawal_message(&user.bytes, amount, nonce);
    let digest = keccak_hash(message.as_slice());
    match secp256k1_recover_key(&digest, recovery_id, signature) {
        Ok(key) => Some(keccak_hash(&key)),
        Err(_) => None,
    }
}

/// Compares a recovered fingerprint with the configured one.
pub fn fingerprint_matches(recovered: &Option<[u8; 32]>, authority: &[u8; 32]) -> (r: bool)
    ensures
        r == fingerprint_accepted(
            match recovered {
                Some(f) => Some(f@),
                None => None,
            },
            authority@,
        ),
{
    match recovered {
        Some(f) => bytes32_eq(f, authority),
        None => false,
    }
}

/// Checks that `signature` over `(user, amount, nonce)` was made by the key
/// whose fingerprint is `authority`.
pub fn verify_withdrawal_signature(
    authority: &[u8; 32],
    user: &Identity,
    amount: u64,
    nonce: u64,
    signature: &[u8; 64],
    recovery_id: u8,
) -> (r: bool)
    ensures
        r == signature_authorizes(authority@, user.bytes@, amount, nonce, signature@, recovery_id),
        recovery_id > 3 ==> !r,
{
    let recovered = recover_signer_fingerprint(user, amount, nonce, signature, recovery_id);
    fingerprint_matches(&recovered, authority)
}

} // verus!
