//! The four operations: initialize, deposit, withdraw and commit a batch root.
//!
//! Each takes the records it touches, as the storage layer hands them over,
//! and either applies all of its changes and returns `Ok`, or changes nothing
//! and returns the first check that failed.

use vstd::prelude::*;
use crate::crypto::{signature_authorizes, verify_withdrawal_signature};
use crate::registry::BatchRegistry;
use crate::state::{BatchCommit, CasinoVault, Identity, MyError, UserBalance};

verus! {

/// What `initialize` touches: the slot of the singleton vault, and the payer,
/// who becomes the operator.
pub struct Initialize {
    pub casino_vault: Option<CasinoVault>,
    pub payer: Identity,
}

/// What `deposit` touches: the vault's custody balance, the depositor's
/// ledger (absent before the first deposit) and the depositor.
pub struct Deposit {
    pub vault_lamports: u64,
    pub user_balance: Option<UserBalance>,
    pub user: Identity,
    /// The bump to record in a ledger created by this deposit.
    pub user_balance_bump: u8,
}

/// What `withdraw` touches: the vault, its custody balance, the user's ledger
/// and the user.
pub struct Withdraw {
    pub casino_vault: CasinoVault,
    pub vault_lamports: u64,
    pub user_balance: UserBalance,
    pub user: Identity,
}

/// What `commit_batch_root` touches: the vault, the batch registry and the
/// caller.
pub struct CommitBatch {
    pub casino_vault: CasinoVault,
    pub batch_registry: BatchRegistry,
    pub authority: Identity,
}

/// The vault record that `initialize` creates.
pub open spec fn new_vault(operator: Identity, signing_authority: [u8; 32]) -> CasinoVault {
    CasinoVault { operational_authority: operator, signing_authority, batch_id_counter: 0 }
}

/// Creates the vault, with the payer as operator, the given signer
/// fingerprint and a zero batch counter. Fails if the vault exists already.
pub fn initialize(ctx: &mut Initialize, signing_authority: [u8; 32]) -> (r: Result<(), MyError>)
    ensures
        old(ctx).casino_vault is Some ==> r == Err::<(), MyError>(MyError::AccountAlreadyInUse)
            && final(ctx).casino_vault == old(ctx).casino_vault,
        old(ctx).casino_vault is None ==> r is Ok
            && final(ctx).casino_vault == Some(new_vault(old(ctx).payer, signing_authority)),
        final(ctx).payer == old(ctx).payer,
{
    if ctx.casino_vault.is_some() {
        return Err(MyError::AccountAlreadyInUse);
    }
    ctx.casino_vault = Some(CasinoVault {
        operational_authority: ctx.payer,
        signing_authority,
        batch_id_counter: 0,
    });
    Ok(())
}

/// The depositor's ledger as it stands before the deposit: a fresh one,
/// with zero balance and nonce, where none exists yet.
pub open spec fn ledger_before(c: Deposit) -> UserBalance {
    match c.user_balance {
        Some(ub) => ub,
        None => UserBalance { user: c.user, amount: 0, last_withdrawal_nonce: 0, bump: c.user_balance_bump },
    }
}

/// The result of depositing `amount`.
pub open spec fn deposit_outcome(c: Deposit, amount: u64) -> Result<(), MyError> {
    if ledger_before(c).user.bytes@ != c.user.bytes@ {
        Err(MyError::Unauthorized)
    } else if ledger_before(c).amount + amount > u64::MAX || c.vault_lamports + amount > u64::MAX {
        Err(MyError::DepositOverflow)
    } else {
        Ok(())
    }
}

/// The records after depositing `amount`: unchanged where it fails.
pub open spec fn deposit_next(c: Deposit, amount: u64) -> Deposit {
    if deposit_outcome(c, amount) is Ok {
        let ub = ledger_before(c);
        Deposit {
            vault_lamports: (c.vault_lamports + amount) as u64,
            user_balance: Some(UserBalance { amount: (ub.amount + amount) as u64, ..ub }),
            user: c.user,
            user_balance_bump: c.user_balance_bump,
        }
    } else {
        c
    }
}

/// Moves `amount` into custody and credits it to the depositor's ledger,
/// creating the ledger on the first deposit. Fails with `DepositOverflow`
/// where the balance, or the custody balance, would pass `u64::MAX`, and
/// with `Unauthorized` where the ledger is another user's.
pub fn deposit(ctx: &mut Deposit, amount: u64) -> (r: Result<(), MyError>)
    ensures
        r == deposit_outcome(*old(ctx), amount),
        *final(ctx) == deposit_next(*old(ctx), amount),
{
    let ledger = match ctx.user_balance {
        Some(ub) => ub,
        None => UserBalance {
            user: ctx.user,
            amount: 0,
            last_withdrawal_nonce: 0,
            bump: ctx.user_balance_bump,
        },
    };
    if !ledger.user.same_as(&ctx.user) {
        return Err(MyError::Unauthorized);
    }
    let new_amount = match ledger.amount.checked_add(amount) {
        Some(v) => v,
        None => return Err(MyError::DepositOverflow),
    };
    let new_custody = match ctx.vault_lamports.checked_add(amount) {
        Some(v) => v,
        None => return Err(MyError::DepositOverflow),
    };
    ctx.vault_lamports = new_custody;
    ctx.user_balance = Some(UserBalance {
        user: ledger.user,
        amount: new_amount,
        last_withdrawal_nonce: ledger.last_withdrawal_nonce,
        bump: ledger.bump,
    });
    Ok(())
}

/// The result of withdrawing `amount` with `nonce`, where `authorized` says
/// whether the signature checks out. The checks come in this order.
pub open spec fn withdraw_outcome(c: Withdraw, amount: u64, nonce: u64, authorized: bool) -> Result<(), MyError> {
    if c.user_balance.user.bytes@ != c.user.bytes@ {
        Err(MyError::Unauthorized)
    } else if nonce as int != c.user_balance.last_withdrawal_nonce as int + 1 {
        Err(MyError::InvalidNonce)
    } else if !authorized {
        Err(MyError::SignatureVerificationFailed)
    } else if c.user_balance.amount < amount {
        Err(MyError::InsufficientUserBalance)
    } else if c.vault_lamports < amount {
        Err(MyError::InsufficientVaultBalance)
    } else {
        Ok(())
    }
}

/// The records after the withdrawal: unchanged where it fails; else the
/// nonce is consumed and `amount` leaves both the ledger and custody.
pub open spec fn withdraw_next(c: Withdraw, amount: u64, nonce: u64, authorized: bool) -> Withdraw {
    if withdraw_outcome(c, amount, nonce, authorized) is Ok {
        Withdraw {
            vault_lamports: (c.vault_lamports - amount) as u64,
            user_balance: UserBalance {
                amount: (c.user_balance.amount - amount) as u64,
                last_withdrawal_nonce: nonce,
                ..c.user_balance
            },
            ..c
        }
    } else {
        c
    }
}

/// Applies a withdrawal whose signature check came out as `authorized`.
pub fn settle_withdrawal(ctx: &mut Withdraw, amount: u64, nonce: u64, authorized: bool) -> (r: Result<(), MyError>)
    ensures
        r == withdraw_outcome(*old(ctx), amount, nonce, authorized),
        *final(ctx) == withdraw_next(*old(ctx), amount, nonce, authorized),
{
    if !ctx.user_balance.user.same_as(&ctx.user) {
        return Err(MyError::Unauthorized);
    }
    if ctx.user_balance.last_withdrawal_nonce == u64::MAX || nonce != ctx.user_balance.last_withdrawal_nonce + 1 {
        return Err(MyError::InvalidNonce);
    }
    if !authorized {
        return Err(MyError::SignatureVerificationFailed);
    }
    if ctx.user_balance.amount < amount {
        return Err(MyError::InsufficientUserBalance);
    }
    if ctx.vault_lamports < amount {
        return Err(MyError::InsufficientVaultBalance);
    }
    ctx.user_balance.last_withdrawal_nonce = nonce;
    ctx.user_balance.amount = ctx.user_balance.amount - amount;
    ctx.vault_lamports = ctx.vault_lamports - amount;
    Ok(())
}

/// Whether `signature` authorises this withdrawal for the vault's signer.
pub open spec fn withdrawal_authorized(c: Withdraw, amount: u64, nonce: u64, signature: [u8; 64], recovery_id: u8) -> bool {
    signature_authorizes(c.casino_vault.signing_authority@, c.user.bytes@, amount, nonce, signature@, recovery_id)
}

/// Withdraws `amount` against the house signer's `signature` over
/// `(user, amount, nonce)`. The ledger must be the caller's, the nonce one
/// past the last one consumed, the signer's key fingerprint the vault's, and
/// both the ledger and custody must cover the amount; on success the nonce is
/// consumed and the amount leaves the ledger and custody.
pub fn withdraw(ctx: &mut Withdraw, amount: u64, nonce: u64, signature: [u8; 64], recovery_id: u8) -> (r: Result<(), MyError>)
    ensures
        r == withdraw_outcome(*old(ctx), amount, nonce, withdrawal_authorized(*old(ctx), amount, nonce, signature, recovery_id)),
        *final(ctx) == withdraw_next(*old(ctx), amount, nonce, withdrawal_authorized(*old(ctx), amount, nonce, signature, recovery_id)),
{
    if !ctx.user_balance.user.same_as(&ctx.user) {
        return Err(MyError::Unauthorized);
    }
    if ctx.user_balance.last_withdrawal_nonce == u64::MAX || nonce != ctx.user_balance.last_withdrawal_nonce + 1 {
        return Err(MyError::InvalidNonce);
    }
    let authorized = verify_withdrawal_signature(
        &ctx.casino_vault.signing_authority,
        &ctx.user,
        amount,
        nonce,
        &signature,
        recovery_id,
    );
    settle_withdrawal(ctx, amount, nonce, authorized)
}

/// The result of committing under `batch_id`.
pub open spec fn commit_outcome(c: CommitBatch, batch_id: u64) -> Result<(), MyError> {
    if c.authority.bytes@ != c.casino_vault.operational_authority.bytes@ {
        Err(MyError::Unauthorized)
    } else if c.batch_registry.holds(batch_id) {
        Err(MyError::AccountAlreadyInUse)
    } else if c.casino_vault.batch_id_counter == u64::MAX {
        Err(MyError::CounterOverflow)
    } else {
        Ok(())
    }
}

/// Records `merkle_root` under `batch_id`. Only the operator may commit, and
/// a batch id can be taken once; on success the vault's batch counter goes
/// up by one, and a commit that would carry it past `u64::MAX` fails with
/// `CounterOverflow`.
pub fn commit_batch_root(ctx: &mut CommitBatch, batch_id: u64, merkle_root: [u8; 32]) -> (r: Result<(), MyError>)
    requires
        old(ctx).batch_registry.wf(),
    ensures
        final(ctx).batch_registry.wf(),
        r == commit_outcome(*old(ctx), batch_id),
        r is Err ==> final(ctx).casino_vault == old(ctx).casino_vault
            && final(ctx).batch_registry.commits@ == old(ctx).batch_registry.commits@,
        r is Ok ==> final(ctx).casino_vault == (CasinoVault {
                batch_id_counter: (old(ctx).casino_vault.batch_id_counter + 1) as u64,
                ..old(ctx).casino_vault
            })
            && final(ctx).batch_registry.commits@ == old(ctx).batch_registry.commits@.push(
                BatchCommit { authority: old(ctx).authority, batch_id, merkle_root },
            ),
        final(ctx).authority == old(ctx).authority,
{
    if !ctx.authority.same_as(&ctx.casino_vault.operational_authority) {
        return Err(MyError::Unauthorized);
    }
    if ctx.batch_registry.contains(batch_id) {
        return Err(MyError::AccountAlreadyInUse);
    }
    let next = match ctx.casino_vault.batch_id_counter.checked_add(1) {
        Some(n) => n,
        None => return Err(MyError::CounterOverflow),
    };
    ctx.casino_vault.batch_id_counter = next;
    ctx.batch_registry.insert_new(BatchCommit { authority: ctx.authority, batch_id, merkle_root });
    Ok(())
}

} // verus!
