//! Properties that hold across calls of the operations.

use vstd::prelude::*;
use crate::ops::{
    commit_outcome, deposit_next, deposit_outcome, ledger_before, withdraw_next, withdraw_outcome,
    withdrawal_authorized, CommitBatch, Deposit, Withdraw,
};
use crate::state::{BatchCommit, MyError};

verus! {

/// The sum of `amounts`.
pub open spec fn total(amounts: Seq<u64>) -> int
    decreases amounts.len(),
{
    if amounts.len() == 0 {
        0
    } else {
        total(amounts.drop_last()) + amounts.last()
    }
}

/// The records after depositing each of `amounts` in turn.
pub open spec fn deposit_all(c: Deposit, amounts: Seq<u64>) -> Deposit
    decreases amounts.len(),
{
    if amounts.len() == 0 {
        c
    } else {
        deposit_next(deposit_all(c, amounts.drop_last()), amounts.last())
    }
}

/// Deposits add up: where no running total passes `u64::MAX`, a run of
/// deposits by the ledger's owner raises the balance and the custody balance
/// by the sum of the amounts, and leaves the nonce alone. On a fresh ledger
/// the balance is then exactly that sum.
pub proof fn lemma_deposits_accumulate(c: Deposit, amounts: Seq<u64>)
    requires
        ledger_before(c).user.bytes@ == c.user.bytes@,
        ledger_before(c).amount + total(amounts) <= u64::MAX,
        c.vault_lamports + total(amounts) <= u64::MAX,
    ensures
        ledger_before(deposit_all(c, amounts)).amount == ledger_before(c).amount + total(amounts),
        deposit_all(c, amounts).vault_lamports == c.vault_lamports + total(amounts),
        ledger_before(deposit_all(c, amounts)).user == ledger_before(c).user,
        ledger_before(deposit_all(c, amounts)).last_withdrawal_nonce == ledger_before(c).last_withdrawal_nonce,
        deposit_all(c, amounts).user == c.user,
        c.user_balance is None ==> ledger_before(deposit_all(c, amounts)).amount == total(amounts),
        amounts.len() > 0 ==> deposit_all(c, amounts).user_balance is Some,
    decreases amounts.len(),
{
    if amounts.len() > 0 {
        let prefix = amounts.drop_last();
        lemma_deposits_accumulate(c, prefix);
        let before = deposit_all(c, prefix);
        assert(deposit_outcome(before, amounts.last()) is Ok);
    }
}

/// A deposit that would push the balance past `u64::MAX` fails with
/// `DepositOverflow` and changes nothing.
pub proof fn lemma_deposit_overflow_rejected(c: Deposit, amount: u64)
    requires
        ledger_before(c).user.bytes@ == c.user.bytes@,
        ledger_before(c).amount + amount > u64::MAX,
    ensures
        deposit_outcome(c, amount) == Err::<(), MyError>(MyError::DepositOverflow),
        deposit_next(c, amount) == c,
{
}

/// On the caller's own ledger, a nonce other than the last one plus one
/// fails with `InvalidNonce` and changes nothing, whatever the signature.
pub proof fn lemma_wrong_nonce_rejected(c: Withdraw, amount: u64, nonce: u64, authorized: bool)
    requires
        c.user_balance.user.bytes@ == c.user.bytes@,
        nonce as int != c.user_balance.last_withdrawal_nonce as int + 1,
    ensures
        withdraw_outcome(c, amount, nonce, authorized) == Err::<(), MyError>(MyError::InvalidNonce),
        withdraw_next(c, amount, nonce, authorized) == c,
{
}

/// Once a withdrawal has succeeded, replaying the same amount, nonce and
/// signature fails with `InvalidNonce`, though the signature still checks out.
pub proof fn lemma_replay_rejected(c: Withdraw, amount: u64, nonce: u64, signature: [u8; 64], recovery_id: u8)
    requires
        withdraw_outcome(c, amount, nonce, withdrawal_authorized(c, amount, nonce, signature, recovery_id)) is Ok,
    ensures
        ({
            let after = withdraw_next(c, amount, nonce, withdrawal_authorized(c, amount, nonce, signature, recovery_id));
            &&& withdrawal_authorized(after, amount, nonce, signature, recovery_id)
            &&& withdraw_outcome(after, amount, nonce, withdrawal_authorized(after, amount, nonce, signature, recovery_id))
                == Err::<(), MyError>(MyError::InvalidNonce)
            &&& withdraw_next(after, amount, nonce, withdrawal_authorized(after, amount, nonce, signature, recovery_id))
                == after
        }),
{
}

/// With the right nonce and a valid signature, an amount above the ledger
/// balance fails with `InsufficientUserBalance`, and one within it but above
/// custody fails with `InsufficientVaultBalance`; neither changes anything.
pub proof fn lemma_solvency_guards(c: Withdraw, amount: u64, nonce: u64)
    requires
        c.user_balance.user.bytes@ == c.user.bytes@,
        nonce as int == c.user_balance.last_withdrawal_nonce as int + 1,
    ensures
        amount > c.user_balance.amount ==> withdraw_outcome(c, amount, nonce, true)
            == Err::<(), MyError>(MyError::InsufficientUserBalance),
        amount <= c.user_balance.amount && amount > c.vault_lamports ==> withdraw_outcome(c, amount, nonce, true)
            == Err::<(), MyError>(MyError::InsufficientVaultBalance),
        amount > c.user_balance.amount || amount > c.vault_lamports ==> withdraw_next(c, amount, nonce, true) == c,
{
}

/// A batch id can be committed once: after a commit under `batch_id` has
/// appended its record, any further commit under it fails.
pub proof fn lemma_second_commit_refused(c: CommitBatch, after: CommitBatch, batch_id: u64, merkle_root: [u8; 32])
    requires
        after.batch_registry.commits@ == c.batch_registry.commits@.push(
            BatchCommit { authority: c.authority, batch_id, merkle_root },
        ),
    ensures
        commit_outcome(after, batch_id) is Err,
{
    let n = c.batch_registry.commits@.len() as int;
    assert(after.batch_registry.commits@[n].batch_id == batch_id);
}

/// A caller other than the operator fails with `Unauthorized`, whatever the
/// batch id.
pub proof fn lemma_non_operator_refused(c: CommitBatch, batch_id: u64)
    requires
        c.authority.bytes@ != c.casino_vault.operational_authority.bytes@,
    ensures
        commit_outcome(c, batch_id) == Err::<(), MyError>(MyError::Unauthorized),
{
}

/// Deposits that each succeeded add up: the balance rises by their sum and
/// the nonce stays where it was. On a fresh ledger the balance is that sum.
pub proof fn lemma_successful_deposits_accumulate(c: Deposit, amounts: Seq<u64>)
    requires
        forall|i: int|
            0 <= i < amounts.len() ==> (#[trigger] deposit_outcome(deposit_all(c, amounts.take(i)), amounts[i])) is Ok,
    ensures
        ledger_before(deposit_all(c, amounts)).amount == ledger_before(c).amount + total(amounts),
        ledger_before(deposit_all(c, amounts)).last_withdrawal_nonce == ledger_before(c).last_withdrawal_nonce,
        c.user_balance is None ==> ledger_before(deposit_all(c, amounts)).amount == total(amounts),
    decreases amounts.len(),
{
    if amounts.len() > 0 {
        let n = amounts.len() - 1;
        let prefix = amounts.drop_last();
        assert forall|i: int| 0 <= i < prefix.len() implies (#[trigger] deposit_outcome(
            deposit_all(c, prefix.take(i)),
            prefix[i],
        )) is Ok by {
            assert(prefix.take(i) == amounts.take(i));
            assert(deposit_outcome(deposit_all(c, amounts.take(i)), amounts[i]) is Ok);
        }
        lemma_successful_deposits_accumulate(c, prefix);
        assert(amounts.take(n) == prefix);
        assert(deposit_outcome(deposit_all(c, amounts.take(n)), amounts[n]) is Ok);
    }
}

/// One step in the life of a user's ledger: a deposit of an amount, or a
/// withdrawal of an amount with a nonce, whose signature check came out as
/// the flag.
pub enum LedgerEvent {
    Deposit(u64),
    Withdraw(u64, u64, bool),
}

/// The records of a withdrawal as a deposit sees them.
pub open spec fn as_deposit(w: Withdraw) -> Deposit {
    Deposit {
        vault_lamports: w.vault_lamports,
        user_balance: Some(w.user_balance),
        user: w.user,
        user_balance_bump: w.user_balance.bump,
    }
}

/// The records after one event.
pub open spec fn apply_event(w: Withdraw, e: LedgerEvent) -> Withdraw {
    match e {
        LedgerEvent::Deposit(a) => {
            let d = deposit_next(as_deposit(w), a);
            Withdraw { vault_lamports: d.vault_lamports, user_balance: ledger_before(d), ..w }
        },
        LedgerEvent::Withdraw(a, n, ok) => withdraw_next(w, a, n, ok),
    }
}

/// The records after each of `events` in turn.
pub open spec fn apply_events(w: Withdraw, events: Seq<LedgerEvent>) -> Withdraw
    decreases events.len(),
{
    if events.len() == 0 {
        w
    } else {
        apply_event(apply_events(w, events.drop_last()), events.last())
    }
}

/// No deposit or withdrawal lowers the last consumed nonce, changes whose
/// ledger it is, or touches the vault record.
pub proof fn lemma_nonce_never_decreases(w: Withdraw, events: Seq<LedgerEvent>)
    ensures
        apply_events(w, events).user_balance.last_withdrawal_nonce >= w.user_balance.last_withdrawal_nonce,
        apply_events(w, events).user_balance.user == w.user_balance.user,
        apply_events(w, events).user == w.user,
        apply_events(w, events).casino_vault == w.casino_vault,
    decreases events.len(),
{
    if events.len() > 0 {
        lemma_nonce_never_decreases(w, events.drop_last());
    }
}

/// On the caller's own ledger, a nonce at or below the last one consumed is
/// refused with `InvalidNonce` and changes nothing, whatever the signature.
pub proof fn lemma_consumed_nonce_rejected(c: Withdraw, amount: u64, nonce: u64, authorized: bool)
    requires
        c.user_balance.user.bytes@ == c.user.bytes@,
        nonce <= c.user_balance.last_withdrawal_nonce,
    ensures
        withdraw_outcome(c, amount, nonce, authorized) == Err::<(), MyError>(MyError::InvalidNonce),
        withdraw_next(c, amount, nonce, authorized) == c,
{
}

/// Once a withdrawal has succeeded, replaying its amount, nonce and
/// signature fails with `InvalidNonce` and changes nothing, after any later
/// deposits and withdrawals on the same ledger; the signature still checks out.
pub proof fn lemma_replay_rejected_after_history(
    c: Withdraw,
    amount: u64,
    nonce: u64,
    signature: [u8; 64],
    recovery_id: u8,
    history: Seq<LedgerEvent>,
)
    requires
        withdraw_outcome(c, amount, nonce, withdrawal_authorized(c, amount, nonce, signature, recovery_id)) is Ok,
    ensures
        ({
            let first = withdraw_next(c, amount, nonce, withdrawal_authorized(c, amount, nonce, signature, recovery_id));
            let later = apply_events(first, history);
            let ok = withdrawal_authorized(later, amount, nonce, signature, recovery_id);
            &&& ok
            &&& withdraw_outcome(later, amount, nonce, ok) == Err::<(), MyError>(MyError::InvalidNonce)
            &&& withdraw_next(later, amount, nonce, ok) == later
        }),
{
    let first = withdraw_next(c, amount, nonce, withdrawal_authorized(c, amount, nonce, signature, recovery_id));
    lemma_nonce_never_decreases(first, history);
    let later = apply_events(first, history);
    lemma_consumed_nonce_rejected(later, amount, nonce, withdrawal_authorized(later, amount, nonce, signature, recovery_id));
}

} // verus!
