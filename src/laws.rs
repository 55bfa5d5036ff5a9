//! Properties of deposits, proved over the contracts of `handler` and
//! `record_deposit`.
use crate::address::{canonical_pda, vault_seeds};
use crate::stake::{account_error, result_of, state_after, Stake};
use crate::state::{credit_outcome, DepositError, PoolState, StakeEntry, TransferError};
use vstd::prelude::*;

verus! {

/// Sum of the balances of `entries`.
pub open spec fn total_balance(entries: Seq<StakeEntry>) -> int
    decreases entries.len(),
{
    if entries.len() == 0 {
        0
    } else {
        total_balance(entries.drop_last()) + entries.last().balance
    }
}

/// The pool's total equals the sum of its entries' balances and the amount
/// that its vault holds.
pub open spec fn conserved(pool: PoolState, entries: Seq<StakeEntry>, vault: int) -> bool {
    &&& pool.amount == total_balance(entries)
    &&& vault == pool.amount
}

/// The pool, its entries and its vault after the deposits `deposits`, each
/// an entry index, an amount and a clock reading, applied in order; `None`
/// when one of them fails. A deposit that succeeds credits its amount to the
/// pool and the entry as `credit_outcome` says, and its transfer has moved
/// the same amount into the vault.
pub open spec fn replay(
    pool: PoolState,
    entries: Seq<StakeEntry>,
    vault: int,
    deposits: Seq<(int, u64, i64)>,
) -> Option<(PoolState, Seq<StakeEntry>, int)>
    decreases deposits.len(),
{
    if deposits.len() == 0 {
        Some((pool, entries, vault))
    } else {
        match replay(pool, entries, vault, deposits.drop_last()) {
            None => None,
            Some((p, es, v)) => {
                let (i, a, t) = deposits.last();
                if 0 <= i < es.len() {
                    match credit_outcome(p, es[i], a, Some(t)) {
                        Ok((p2, e2)) => Some((p2, es.update(i, e2), v + a)),
                        Err(_) => None,
                    }
                } else {
                    None
                }
            }
        }
    }
}

/// Replacing entry `i` changes the total by the difference of the balances.
pub proof fn lemma_total_balance_update(entries: Seq<StakeEntry>, i: int, e: StakeEntry)
    requires
        0 <= i < entries.len(),
    ensures
        total_balance(entries.update(i, e)) == total_balance(entries) - entries[i].balance + e.balance,
    decreases entries.len(),
{
    let u = entries.update(i, e);
    if i == entries.len() - 1 {
        assert(u.drop_last() =~= entries.drop_last());
    } else {
        lemma_total_balance_update(entries.drop_last(), i, e);
        assert(u.drop_last() =~= entries.drop_last().update(i, e));
    }
}

/// Conservation: from a pool whose total equals the sum of its entries'
/// balances and its vault's holding, every sequence of successful deposits
/// leads to a pool for which the same holds.
pub proof fn lemma_deposits_conserve(
    pool: PoolState,
    entries: Seq<StakeEntry>,
    vault: int,
    deposits: Seq<(int, u64, i64)>,
)
    requires
        conserved(pool, entries, vault),
        replay(pool, entries, vault, deposits) is Some,
    ensures
        conserved(
            replay(pool, entries, vault, deposits).unwrap().0,
            replay(pool, entries, vault, deposits).unwrap().1,
            replay(pool, entries, vault, deposits).unwrap().2,
        ),
    decreases deposits.len(),
{
    if deposits.len() > 0 {
        lemma_deposits_conserve(pool, entries, vault, deposits.drop_last());
        let (p, es, v) = replay(pool, entries, vault, deposits.drop_last()).unwrap();
        let (i, a, t) = deposits.last();
        let (p2, e2) = credit_outcome(p, es[i], a, Some(t)).unwrap();
        lemma_total_balance_update(es, i, e2);
    }
}

/// A deposit whose amount would carry the pool total or the entry balance
/// past `u64::MAX` fails with `ArithmeticOverflow` and changes nothing.
pub proof fn lemma_overflow_rejected(
    s: Stake,
    program_id: Seq<u8>,
    token_program: Seq<u8>,
    amount: u64,
    clock: Option<i64>,
)
    requires
        account_error(s, program_id, token_program) is None,
        s.pool_state.data.amount + amount > u64::MAX || s.user_stake_entry.data.balance + amount
            > u64::MAX,
    ensures
        result_of(s, program_id, token_program, amount, Ok(()), clock) == Err::<(), DepositError>(
            DepositError::ArithmeticOverflow,
        ),
        state_after(s, program_id, token_program, amount, Ok(()), clock) == s,
{
}

/// A deposit signed by anyone but the entry's owner fails with `InvalidUser`
/// and changes nothing, whatever the transfer's outcome.
pub proof fn lemma_wrong_signer_rejected(
    s: Stake,
    program_id: Seq<u8>,
    token_program: Seq<u8>,
    amount: u64,
    transfer: Result<(), TransferError>,
    clock: Option<i64>,
)
    requires
        s.token_program@ == token_program,
        s.user@ != s.user_stake_entry.data.user@,
    ensures
        result_of(s, program_id, token_program, amount, transfer, clock) == Err::<(), DepositError>(
            DepositError::InvalidUser,
        ),
        state_after(s, program_id, token_program, amount, transfer, clock) == s,
{
}

/// A deposit whose vault is not the canonical derivation from the mint and
/// the vault authority fails with `AddressMismatch` and changes nothing.
pub proof fn lemma_vault_address_bound(
    s: Stake,
    program_id: Seq<u8>,
    token_program: Seq<u8>,
    amount: u64,
    transfer: Result<(), TransferError>,
    clock: Option<i64>,
)
    requires
        s.token_program@ == token_program,
        s.user@ == s.user_stake_entry.data.user@,
        s.user_token_account.mint@ == s.pool_state.data.token_mint@,
        !(canonical_pda(vault_seeds(s.token_mint@, s.pool_authority@), program_id) is Some
            && canonical_pda(vault_seeds(s.token_mint@, s.pool_authority@), program_id).unwrap().0
            == s.token_vault@),
    ensures
        result_of(s, program_id, token_program, amount, transfer, clock) == Err::<(), DepositError>(
            DepositError::AddressMismatch,
        ),
        state_after(s, program_id, token_program, amount, transfer, clock) == s,
{
}

/// A deposit of zero succeeds, stamps the entry with the clock reading and
/// leaves both balances as they were.
pub proof fn lemma_zero_deposit(s: Stake, program_id: Seq<u8>, token_program: Seq<u8>, now: i64)
    requires
        account_error(s, program_id, token_program) is None,
    ensures
        result_of(s, program_id, token_program, 0, Ok(()), Some(now)) is Ok,
        state_after(s, program_id, token_program, 0, Ok(()), Some(now)).user_stake_entry.data.last_staked
            == now,
        state_after(s, program_id, token_program, 0, Ok(()), Some(now)).user_stake_entry.data.balance
            == s.user_stake_entry.data.balance,
        state_after(s, program_id, token_program, 0, Ok(()), Some(now)).pool_state.data.amount
            == s.pool_state.data.amount,
{
}

/// A failed transfer changes neither record, and where the accounts pass
/// their checks its error is reported.
pub proof fn lemma_transfer_failure_atomic(
    s: Stake,
    program_id: Seq<u8>,
    token_program: Seq<u8>,
    amount: u64,
    t: TransferError,
    clock: Option<i64>,
)
    ensures
        state_after(s, program_id, token_program, amount, Err(t), clock) == s,
        result_of(s, program_id, token_program, amount, Err(t), clock) is Err,
        account_error(s, program_id, token_program) is None ==> result_of(
            s,
            program_id,
            token_program,
            amount,
            Err(t),
            clock,
        ) == Err::<(), DepositError>(DepositError::TransferFailed(t)),
{
}

} // verus!
