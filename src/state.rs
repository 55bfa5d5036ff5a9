//! The pool and stake entry records, and the errors of a deposit.
use crate::address::Address;
use vstd::prelude::*;

verus! {

/// One staking pool for one mint.
#[derive(Clone, Copy, Debug)]
pub struct PoolState {
    /// Bump of the pool state address.
    pub bump: u8,
    /// Bump of the vault address.
    pub vault_bump: u8,
    /// The mint whose tokens the pool holds.
    pub token_mint: Address,
    /// Total of all deposits in custody.
    pub amount: u64,
}

/// One user's claim within one pool.
#[derive(Clone, Copy, Debug)]
pub struct StakeEntry {
    /// Bump of the entry's address.
    pub bump: u8,
    /// The owner of the entry.
    pub user: Address,
    /// The user's deposited amount.
    pub balance: u64,
    /// Unix time of the latest deposit.
    pub last_staked: i64,
}

/// Why the token transfer into the vault failed.
#[derive(Clone, Copy, Debug, PartialEq, Eq, Structural)]
pub enum TransferError {
    InsufficientFunds,
    AccountFrozen,
    DecimalMismatch,
    Unauthorized,
}

/// Why a deposit was rejected.
#[derive(Clone, Copy, Debug, PartialEq, Eq, Structural)]
pub enum DepositError {
    /// The token program is not the one the pool works with.
    InvalidTokenProgram,
    /// The signer is not the owner of the stake entry.
    InvalidUser,
    /// The source token account holds another mint than the pool's.
    InvalidMint,
    /// A presented account is not at its canonical derived address.
    AddressMismatch,
    /// A balance would leave the range of `u64`.
    ArithmeticOverflow,
    /// The token transfer into the vault failed.
    TransferFailed(TransferError),
    /// The time source gave no reading.
    ClockUnavailable,
}

/// The balances and timestamp after crediting `amount` at time `clock`, or
/// the error that prevents it: overflow is detected before the clock is read.
pub open spec fn credit_outcome(pool: PoolState, entry: StakeEntry, amount: u64, clock: Option<i64>) -> Result<(PoolState, StakeEntry), DepositError> {
    if pool.amount + amount > u64::MAX || entry.balance + amount > u64::MAX {
        Err(DepositError::ArithmeticOverflow)
    } else {
        match clock {
            None => Err(DepositError::ClockUnavailable),
            Some(now) => Ok((
                PoolState { amount: (pool.amount + amount) as u64, ..pool },
                StakeEntry { balance: (entry.balance + amount) as u64, last_staked: now, ..entry },
            )),
        }
    }
}

/// Credits `amount` to the pool and to the entry and stamps the entry with
/// the clock reading; on error neither record changes.
pub fn record_deposit(pool: &mut PoolState, entry: &mut StakeEntry, amount: u64, clock: Option<i64>) -> (r: Result<(), DepositError>)
    ensures
        match credit_outcome(*old(pool), *old(entry), amount, clock) {
            Ok((p, e)) => r is Ok && *final(pool) == p && *final(entry) == e,
            Err(err) => r == Err::<(), DepositError>(err) && *final(pool) == *old(pool) && *final(entry) == *old(entry),
        },
{
    let total = match pool.amount.checked_add(amount) {
        Some(t) => t,
        None => return Err(DepositError::ArithmeticOverflow),
    };
    let balance = match entry.balance.checked_add(amount) {
        Some(b) => b,
        None => return Err(DepositError::ArithmeticOverflow),
    };
    let now = match clock {
        Some(t) => t,
        None => return Err(DepositError::ClockUnavailable),
    };
    pool.amount = total;
    entry.balance = balance;
    entry.last_staked = now;
    Ok(())
}

} // verus!
