use casino::crypto::{
    authority_fingerprint, fingerprint_matches, recover_signer_fingerprint, verify_withdrawal_signature,
};
use casino::message::{build_withdrawal_message, push_u64_le};
use casino::ops::{
    commit_batch_root, deposit, initialize, settle_withdrawal, withdraw, CommitBatch, Deposit, Initialize,
    Withdraw,
};
use casino::registry::BatchRegistry;
use casino::state::{bytes32_eq, BatchCommit, CasinoVault, Identity, MyError, UserBalance};

fn id(b: u8) -> Identity {
    Identity { bytes: [b; 32] }
}

fn secret(b: u8) -> libsecp256k1::SecretKey {
    libsecp256k1::SecretKey::parse(&[b; 32]).unwrap()
}

fn public_key(sk: &libsecp256k1::SecretKey) -> [u8; 64] {
    let full = libsecp256k1::PublicKey::from_secret_key(sk).serialize();
    let mut out = [0u8; 64];
    out.copy_from_slice(&full[1..65]);
    out
}

#[allow(deprecated)]
fn sign(sk: &libsecp256k1::SecretKey, user: &Identity, amount: u64, nonce: u64) -> ([u8; 64], u8) {
    let mut msg = Vec::new();
    msg.extend_from_slice(&user.bytes);
    msg.extend_from_slice(&amount.to_le_bytes());
    msg.extend_from_slice(&nonce.to_le_bytes());
    let digest = solana_program::keccak::hash(&msg).to_bytes();
    let (sig, rid) = libsecp256k1::sign(&libsecp256k1::Message::parse(&digest), sk);
    (sig.serialize(), rid.serialize())
}

fn vault_for(key: &libsecp256k1::SecretKey) -> CasinoVault {
    CasinoVault {
        operational_authority: id(9),
        signing_authority: authority_fingerprint(&public_key(key)),
        batch_id_counter: 0,
    }
}

fn withdraw_ctx(vault: CasinoVault, custody: u64, balance: u64, last_nonce: u64) -> Withdraw {
    Withdraw {
        casino_vault: vault,
        vault_lamports: custody,
        user_balance: UserBalance { user: id(1), amount: balance, last_withdrawal_nonce: last_nonce, bump: 254 },
        user: id(1),
    }
}

fn fresh_deposit() -> Deposit {
    Deposit { vault_lamports: 0, user_balance: None, user: id(1), user_balance_bump: 254 }
}

#[test]
fn message_layout_is_user_then_le_amount_then_le_nonce() {
    let m = build_withdrawal_message(&[7u8; 32], 0x0102030405060708, 1);
    assert_eq!(m.len(), 48);
    assert_eq!(&m[0..32], &[7u8; 32][..]);
    assert_eq!(&m[32..40], &[8, 7, 6, 5, 4, 3, 2, 1][..]);
    assert_eq!(&m[40..48], &[1, 0, 0, 0, 0, 0, 0, 0][..]);
}

#[test]
fn push_u64_le_appends_eight_bytes() {
    let mut v = vec![0xAAu8];
    push_u64_le(&mut v, u64::MAX - 1);
    assert_eq!(v, vec![0xAA, 0xFE, 0xFF, 0xFF, 0xFF, 0xFF, 0xFF, 0xFF, 0xFF]);
}

#[test]
fn bytes32_eq_compares_every_byte() {
    let a = [3u8; 32];
    let mut b = a;
    assert!(bytes32_eq(&a, &b));
    b[31] = 4;
    assert!(!bytes32_eq(&a, &b));
}

#[test]
#[allow(deprecated)]
fn fingerprint_is_keccak_of_public_key() {
    let pk = public_key(&secret(5));
    let f = authority_fingerprint(&pk);
    assert_eq!(f, solana_program::keccak::hash(&pk).to_bytes());
    assert_ne!(&f[..], &pk[0..32]);
}

#[test]
fn recovery_yields_the_signers_fingerprint() {
    let sk = secret(5);
    let (sig, rid) = sign(&sk, &id(1), 40, 1);
    let got = recover_signer_fingerprint(&id(1), 40, 1, &sig, rid);
    assert_eq!(got, Some(authority_fingerprint(&public_key(&sk))));
    assert!(fingerprint_matches(&got, &authority_fingerprint(&public_key(&sk))));
    assert!(!fingerprint_matches(&got, &authority_fingerprint(&public_key(&secret(6)))));
    assert!(!fingerprint_matches(&None, &[0u8; 32]));
}

#[test]
fn recovery_id_out_of_range_fails() {
    let sk = secret(5);
    let (sig, _) = sign(&sk, &id(1), 40, 1);
    assert_eq!(recover_signer_fingerprint(&id(1), 40, 1, &sig, 4), None);
    let f = authority_fingerprint(&public_key(&sk));
    assert!(!verify_withdrawal_signature(&f, &id(1), 40, 1, &sig, 4));
}

#[test]
fn initialize_sets_operator_and_fingerprint() {
    let mut ctx = Initialize { casino_vault: None, payer: id(9) };
    assert_eq!(initialize(&mut ctx, [4u8; 32]), Ok(()));
    assert_eq!(
        ctx.casino_vault,
        Some(CasinoVault { operational_authority: id(9), signing_authority: [4u8; 32], batch_id_counter: 0 })
    );
}

#[test]
fn initialize_twice_fails() {
    let mut ctx = Initialize { casino_vault: None, payer: id(9) };
    assert_eq!(initialize(&mut ctx, [4u8; 32]), Ok(()));
    ctx.payer = id(8);
    assert_eq!(initialize(&mut ctx, [5u8; 32]), Err(MyError::AccountAlreadyInUse));
    assert_eq!(ctx.casino_vault.unwrap().signing_authority, [4u8; 32]);
    assert_eq!(ctx.casino_vault.unwrap().operational_authority, id(9));
}

#[test]
fn deposits_sum_up() {
    let mut ctx = fresh_deposit();
    for a in [5u64, 0, 17, 1000] {
        assert_eq!(deposit(&mut ctx, a), Ok(()));
    }
    let ub = ctx.user_balance.unwrap();
    assert_eq!(ub.amount, 1022);
    assert_eq!(ub.last_withdrawal_nonce, 0);
    assert_eq!(ub.user, id(1));
    assert_eq!(ub.bump, 254);
    assert_eq!(ctx.vault_lamports, 1022);
}

#[test]
fn deposit_overflow_leaves_balance_unchanged() {
    let mut ctx = fresh_deposit();
    assert_eq!(deposit(&mut ctx, u64::MAX - 1), Ok(()));
    assert_eq!(deposit(&mut ctx, 2), Err(MyError::DepositOverflow));
    assert_eq!(ctx.user_balance.unwrap().amount, u64::MAX - 1);
    assert_eq!(ctx.vault_lamports, u64::MAX - 1);
    assert_eq!(deposit(&mut ctx, 1), Ok(()));
    assert_eq!(ctx.user_balance.unwrap().amount, u64::MAX);
}

#[test]
fn deposit_overflow_of_custody_fails() {
    let mut ctx = Deposit { vault_lamports: u64::MAX, user_balance: None, user: id(1), user_balance_bump: 1 };
    assert_eq!(deposit(&mut ctx, 1), Err(MyError::DepositOverflow));
    assert_eq!(ctx.user_balance, None);
    assert_eq!(ctx.vault_lamports, u64::MAX);
}

#[test]
fn deposit_on_another_users_ledger_fails() {
    let ub = UserBalance { user: id(2), amount: 10, last_withdrawal_nonce: 3, bump: 1 };
    let mut ctx = Deposit { vault_lamports: 10, user_balance: Some(ub), user: id(1), user_balance_bump: 1 };
    assert_eq!(deposit(&mut ctx, 5), Err(MyError::Unauthorized));
    assert_eq!(ctx.user_balance, Some(ub));
}

#[test]
fn deposit_keeps_existing_nonce() {
    let ub = UserBalance { user: id(1), amount: 0, last_withdrawal_nonce: 7, bump: 3 };
    let mut ctx = Deposit { vault_lamports: 0, user_balance: Some(ub), user: id(1), user_balance_bump: 200 };
    assert_eq!(deposit(&mut ctx, 5), Ok(()));
    assert_eq!(ctx.user_balance, Some(UserBalance { user: id(1), amount: 5, last_withdrawal_nonce: 7, bump: 3 }));
}

#[test]
fn wrong_nonce_fails_even_with_valid_signature() {
    let sk = secret(5);
    let vault = vault_for(&sk);
    for nonce in [0u64, 2, 5, u64::MAX] {
        let (sig, rid) = sign(&sk, &id(1), 10, nonce);
        let mut ctx = withdraw_ctx(vault, 100, 100, 0);
        assert_eq!(withdraw(&mut ctx, 10, nonce, sig, rid), Err(MyError::InvalidNonce));
        assert_eq!(ctx.user_balance.amount, 100);
        assert_eq!(ctx.user_balance.last_withdrawal_nonce, 0);
        assert_eq!(ctx.vault_lamports, 100);
    }
}

#[test]
fn nonce_after_max_is_invalid() {
    let mut ctx = withdraw_ctx(vault_for(&secret(5)), 100, 100, u64::MAX);
    assert_eq!(settle_withdrawal(&mut ctx, 1, 0, true), Err(MyError::InvalidNonce));
    assert_eq!(ctx.user_balance.last_withdrawal_nonce, u64::MAX);
}

#[test]
fn mutating_any_signed_field_breaks_the_signature() {
    let sk = secret(5);
    let vault = vault_for(&sk);
    let (sig, rid) = sign(&sk, &id(1), 40, 1);

    let mut ok = withdraw_ctx(vault, 100, 100, 0);
    assert_eq!(withdraw(&mut ok, 40, 1, sig, rid), Ok(()));

    let mut other_amount = withdraw_ctx(vault, 100, 100, 0);
    assert_eq!(withdraw(&mut other_amount, 41, 1, sig, rid), Err(MyError::SignatureVerificationFailed));
    assert_eq!(other_amount.user_balance.amount, 100);

    let mut other_nonce = withdraw_ctx(vault, 100, 100, 1);
    assert_eq!(withdraw(&mut other_nonce, 40, 2, sig, rid), Err(MyError::SignatureVerificationFailed));
    assert_eq!(other_nonce.user_balance.last_withdrawal_nonce, 1);

    let mut other_user = withdraw_ctx(vault, 100, 100, 0);
    other_user.user = id(2);
    other_user.user_balance.user = id(2);
    assert_eq!(withdraw(&mut other_user, 40, 1, sig, rid), Err(MyError::SignatureVerificationFailed));
    assert_eq!(other_user.vault_lamports, 100);
}

#[test]
fn replayed_withdrawal_fails_invalid_nonce() {
    let sk = secret(5);
    let (sig, rid) = sign(&sk, &id(1), 10, 1);
    let mut ctx = withdraw_ctx(vault_for(&sk), 100, 100, 0);
    assert_eq!(withdraw(&mut ctx, 10, 1, sig, rid), Ok(()));
    assert!(verify_withdrawal_signature(&ctx.casino_vault.signing_authority, &id(1), 10, 1, &sig, rid));
    assert_eq!(withdraw(&mut ctx, 10, 1, sig, rid), Err(MyError::InvalidNonce));
    assert_eq!(ctx.user_balance.amount, 90);
    assert_eq!(ctx.vault_lamports, 90);
}

#[test]
fn withdrawal_above_ledger_balance_fails() {
    let sk = secret(5);
    let (sig, rid) = sign(&sk, &id(1), 51, 1);
    let mut ctx = withdraw_ctx(vault_for(&sk), 1000, 50, 0);
    assert_eq!(withdraw(&mut ctx, 51, 1, sig, rid), Err(MyError::InsufficientUserBalance));
    assert_eq!(ctx.user_balance.amount, 50);
    assert_eq!(ctx.user_balance.last_withdrawal_nonce, 0);
}

#[test]
fn withdrawal_above_custody_fails() {
    let sk = secret(5);
    let (sig, rid) = sign(&sk, &id(1), 50, 1);
    let mut ctx = withdraw_ctx(vault_for(&sk), 49, 50, 0);
    assert_eq!(withdraw(&mut ctx, 50, 1, sig, rid), Err(MyError::InsufficientVaultBalance));
    assert_eq!(ctx.user_balance.amount, 50);
    assert_eq!(ctx.user_balance.last_withdrawal_nonce, 0);
    assert_eq!(ctx.vault_lamports, 49);
}

#[test]
fn withdrawal_on_another_users_ledger_fails() {
    let mut ctx = withdraw_ctx(vault_for(&secret(5)), 100, 100, 0);
    ctx.user = id(2);
    assert_eq!(settle_withdrawal(&mut ctx, 10, 1, true), Err(MyError::Unauthorized));
    assert_eq!(ctx.user_balance.amount, 100);
}

#[test]
fn settle_withdrawal_applies_exact_changes() {
    let mut ctx = withdraw_ctx(vault_for(&secret(5)), 70, 60, 4);
    assert_eq!(settle_withdrawal(&mut ctx, 60, 5, false), Err(MyError::SignatureVerificationFailed));
    assert_eq!(settle_withdrawal(&mut ctx, 60, 5, true), Ok(()));
    assert_eq!(ctx.user_balance.amount, 0);
    assert_eq!(ctx.user_balance.last_withdrawal_nonce, 5);
    assert_eq!(ctx.vault_lamports, 10);
}

fn commit_ctx() -> CommitBatch {
    CommitBatch {
        casino_vault: CasinoVault { operational_authority: id(9), signing_authority: [0u8; 32], batch_id_counter: 0 },
        batch_registry: BatchRegistry::new(),
        authority: id(9),
    }
}

#[test]
fn commit_records_root_and_counts() {
    let mut ctx = commit_ctx();
    assert_eq!(commit_batch_root(&mut ctx, 7, [1u8; 32]), Ok(()));
    assert_eq!(commit_batch_root(&mut ctx, 3, [2u8; 32]), Ok(()));
    assert_eq!(ctx.casino_vault.batch_id_counter, 2);
    assert_eq!(ctx.batch_registry.len(), 2);
    assert_eq!(
        ctx.batch_registry.find(7),
        Some(BatchCommit { authority: id(9), batch_id: 7, merkle_root: [1u8; 32] })
    );
    assert!(ctx.batch_registry.contains(3));
    assert!(!ctx.batch_registry.contains(4));
}

#[test]
fn same_batch_id_twice_fails() {
    let mut ctx = commit_ctx();
    assert_eq!(commit_batch_root(&mut ctx, 7, [1u8; 32]), Ok(()));
    assert_eq!(commit_batch_root(&mut ctx, 7, [2u8; 32]), Err(MyError::AccountAlreadyInUse));
    assert_eq!(ctx.casino_vault.batch_id_counter, 1);
    assert_eq!(ctx.batch_registry.find(7).unwrap().merkle_root, [1u8; 32]);
    assert_eq!(ctx.batch_registry.len(), 1);
}

#[test]
fn non_operator_commit_fails() {
    let mut ctx = commit_ctx();
    ctx.authority = id(3);
    assert_eq!(commit_batch_root(&mut ctx, 7, [1u8; 32]), Err(MyError::Unauthorized));
    assert_eq!(ctx.casino_vault.batch_id_counter, 0);
    assert_eq!(ctx.batch_registry.len(), 0);
}

#[test]
fn commit_at_max_counter_fails() {
    let mut ctx = commit_ctx();
    ctx.casino_vault.batch_id_counter = u64::MAX - 1;
    assert_eq!(commit_batch_root(&mut ctx, 1, [1u8; 32]), Ok(()));
    assert_eq!(ctx.casino_vault.batch_id_counter, u64::MAX);
    assert_eq!(commit_batch_root(&mut ctx, 2, [2u8; 32]), Err(MyError::CounterOverflow));
    assert_eq!(ctx.casino_vault.batch_id_counter, u64::MAX);
    assert_eq!(ctx.batch_registry.len(), 1);
    assert!(!ctx.batch_registry.contains(2));
}

#[test]
fn end_to_end() {
    let k = secret(11);
    let f = authority_fingerprint(&public_key(&k));
    let mut init = Initialize { casino_vault: None, payer: id(9) };
    assert_eq!(initialize(&mut init, f), Ok(()));
    let vault = init.casino_vault.unwrap();

    let u = id(1);
    let mut dep = Deposit { vault_lamports: 0, user_balance: None, user: u, user_balance_bump: 250 };
    assert_eq!(deposit(&mut dep, 100), Ok(()));
    let ub = dep.user_balance.unwrap();
    assert_eq!(ub.amount, 100);
    assert_eq!(ub.last_withdrawal_nonce, 0);

    let mut w = Withdraw { casino_vault: vault, vault_lamports: dep.vault_lamports, user_balance: ub, user: u };
    let (sig, rid) = sign(&k, &u, 40, 1);
    assert_eq!(withdraw(&mut w, 40, 1, sig, rid), Ok(()));
    assert_eq!(w.user_balance.amount, 60);
    assert_eq!(w.user_balance.last_withdrawal_nonce, 1);
    assert_eq!(w.vault_lamports, 60);

    assert_eq!(withdraw(&mut w, 10, 1, sig, rid), Err(MyError::InvalidNonce));

    let (sig2, rid2) = sign(&secret(12), &u, 10, 2);
    assert_eq!(withdraw(&mut w, 10, 2, sig2, rid2), Err(MyError::SignatureVerificationFailed));
    assert_eq!(w.user_balance.amount, 60);
    assert_eq!(w.user_balance.last_withdrawal_nonce, 1);
    assert_eq!(w.vault_lamports, 60);
}

#[test]
fn replay_after_later_activity_fails_invalid_nonce() {
    let sk = secret(5);
    let vault = vault_for(&sk);
    let (sig1, rid1) = sign(&sk, &id(1), 10, 1);
    let mut w = withdraw_ctx(vault, 100, 100, 0);
    assert_eq!(withdraw(&mut w, 10, 1, sig1, rid1), Ok(()));

    let mut d = Deposit { vault_lamports: w.vault_lamports, user_balance: Some(w.user_balance), user: id(1), user_balance_bump: 0 };
    assert_eq!(deposit(&mut d, 50), Ok(()));
    w.user_balance = d.user_balance.unwrap();
    w.vault_lamports = d.vault_lamports;

    let (sig2, rid2) = sign(&sk, &id(1), 5, 2);
    assert_eq!(withdraw(&mut w, 5, 2, sig2, rid2), Ok(()));
    assert_eq!(withdraw(&mut w, 10, 1, sig1, rid1), Err(MyError::InvalidNonce));
    assert_eq!(w.user_balance.amount, 135);
    assert_eq!(w.user_balance.last_withdrawal_nonce, 2);
    assert_eq!(w.vault_lamports, 135);
}
