//! The deposit instruction: the accounts it is given, the checks on them,
//! and the update of the ledger.
use crate::address::{
    canonical_pda, pool_state_address, pool_state_seeds, stake_entry_address, stake_entry_seeds,
    vault_address, vault_authority_address, vault_authority_seeds, vault_seeds, Address,
};
use crate::state::{credit_outcome, record_deposit, DepositError, PoolState, StakeEntry, TransferError};
use vstd::prelude::*;

verus! {

/// Decimals of the staked mint, handed to the checked transfer.
pub const TOKEN_DECIMALS: u8 = 6;

/// A program-owned account: its address and its decoded data.
#[derive(Clone, Copy, Debug)]
pub struct Account<T> {
    pub key: Address,
    pub data: T,
}

/// A token account: its address and the mint of the tokens it holds.
#[derive(Clone, Copy, Debug)]
pub struct TokenAccount {
    pub key: Address,
    pub mint: Address,
}

/// The accounts presented to a deposit.
#[derive(Clone, Copy, Debug)]
pub struct Stake {
    pub pool_state: Account<PoolState>,
    pub token_mint: Address,
    pub pool_authority: Address,
    pub token_vault: Address,
    /// The signer of the deposit.
    pub user: Address,
    pub user_token_account: TokenAccount,
    pub user_stake_entry: Account<StakeEntry>,
    pub token_program: Address,
}

/// The accounts of the checked transfer from the user into the vault.
#[derive(Clone, Copy, Debug)]
pub struct TransferChecked {
    pub program: Address,
    pub from: Address,
    pub to: Address,
    pub authority: Address,
    pub mint: Address,
}

/// Every presented account sits at the canonical address derived from its
/// seeds under `program_id`, with the bump its record holds.
pub open spec fn addresses_bound(s: Stake, program_id: Seq<u8>) -> bool {
    &&& canonical_pda(pool_state_seeds(s.token_mint@), program_id) == Some(
        (s.pool_state.key@, s.pool_state.data.bump),
    )
    &&& canonical_pda(vault_authority_seeds(), program_id) is Some
    &&& canonical_pda(vault_authority_seeds(), program_id).unwrap().0 == s.pool_authority@
    &&& canonical_pda(vault_seeds(s.token_mint@, s.pool_authority@), program_id) == Some(
        (s.token_vault@, s.pool_state.data.vault_bump),
    )
    &&& canonical_pda(stake_entry_seeds(s.user@, s.pool_state.data.token_mint@), program_id)
        == Some((s.user_stake_entry.key@, s.user_stake_entry.data.bump))
}

/// The first check that the accounts fail, in the order they are made.
pub open spec fn account_error(s: Stake, program_id: Seq<u8>, token_program: Seq<u8>) -> Option<DepositError> {
    if s.token_program@ != token_program {
        Some(DepositError::InvalidTokenProgram)
    } else if s.user@ != s.user_stake_entry.data.user@ {
        Some(DepositError::InvalidUser)
    } else if s.user_token_account.mint@ != s.pool_state.data.token_mint@ {
        Some(DepositError::InvalidMint)
    } else if !addresses_bound(s, program_id) {
        Some(DepositError::AddressMismatch)
    } else {
        None
    }
}

/// What a deposit of `amount` does to the accounts `s`, given the outcome of
/// the transfer into the vault and the clock reading.
pub open spec fn deposit_outcome(
    s: Stake,
    program_id: Seq<u8>,
    token_program: Seq<u8>,
    amount: u64,
    transfer: Result<(), TransferError>,
    clock: Option<i64>,
) -> Result<Stake, DepositError> {
    match account_error(s, program_id, token_program) {
        Some(e) => Err(e),
        None => match transfer {
            Err(t) => Err(DepositError::TransferFailed(t)),
            Ok(_) => match credit_outcome(s.pool_state.data, s.user_stake_entry.data, amount, clock) {
                Err(e) => Err(e),
                Ok((p, e)) => Ok(
                    Stake {
                        pool_state: Account { key: s.pool_state.key, data: p },
                        user_stake_entry: Account { key: s.user_stake_entry.key, data: e },
                        ..s
                    },
                ),
            },
        },
    }
}

/// The accounts after the deposit: unchanged when it fails.
pub open spec fn state_after(
    s: Stake,
    program_id: Seq<u8>,
    token_program: Seq<u8>,
    amount: u64,
    transfer: Result<(), TransferError>,
    clock: Option<i64>,
) -> Stake {
    match deposit_outcome(s, program_id, token_program, amount, transfer, clock) {
        Ok(n) => n,
        Err(_) => s,
    }
}

/// The result that the deposit reports.
pub open spec fn result_of(
    s: Stake,
    program_id: Seq<u8>,
    token_program: Seq<u8>,
    amount: u64,
    transfer: Result<(), TransferError>,
    clock: Option<i64>,
) -> Result<(), DepositError> {
    match deposit_outcome(s, program_id, token_program, amount, transfer, clock) {
        Ok(_) => Ok(()),
        Err(e) => Err(e),
    }
}

/// `key` is the canonical derivation `derived` with bump `bump`.
fn bound_to(derived: Option<(Address, u8)>, key: &Address, bump: u8) -> (r: bool)
    ensures
        r == match derived {
            Some((a, b)) => a@ == key@ && b == bump,
            None => false,
        },
{
    match derived {
        Some((a, b)) => a.same(key) && b == bump,
        None => false,
    }
}

impl Stake {
    /// Checks that the token program is `token_program_id`, that the signer
    /// owns the stake entry, that the source account holds the pool's mint,
    /// and that every account is at its derived address; the first failed
    /// check gives the error.
    pub fn authorize(&self, program_id: &Address, token_program_id: &Address) -> (r: Result<(), DepositError>)
        ensures
            r == match account_error(*self, program_id@, token_program_id@) {
                Some(e) => Err::<(), DepositError>(e),
                None => Ok(()),
            },
    {
        if !self.token_program.same(token_program_id) {
            return Err(DepositError::InvalidTokenProgram);
        }
        if !self.user.same(&self.user_stake_entry.data.user) {
            return Err(DepositError::InvalidUser);
        }
        if !self.user_token_account.mint.same(&self.pool_state.data.token_mint) {
            return Err(DepositError::InvalidMint);
        }
        let pool = pool_state_address(&self.token_mint, program_id);
        if !bound_to(pool, &self.pool_state.key, self.pool_state.data.bump) {
            return Err(DepositError::AddressMismatch);
        }
        let authority_bound = match vault_authority_address(program_id) {
            Some((a, _)) => a.same(&self.pool_authority),
            None => false,
        };
        if !authority_bound {
            return Err(DepositError::AddressMismatch);
        }
        let vault = vault_address(&self.token_mint, &self.pool_authority, program_id);
        if !bound_to(vault, &self.token_vault, self.pool_state.data.vault_bump) {
            return Err(DepositError::AddressMismatch);
        }
        let entry = stake_entry_address(&self.user, &self.pool_state.data.token_mint, program_id);
        if !bound_to(entry, &self.user_stake_entry.key, self.user_stake_entry.data.bump) {
            return Err(DepositError::AddressMismatch);
        }
        Ok(())
    }

    /// The accounts of the transfer from the user's token account into the
    /// vault, signed by the user.
    pub fn transfer_checked_ctx(&self) -> (r: TransferChecked)
        ensures
            r.program == self.token_program,
            r.from == self.user_token_account.key,
            r.to == self.token_vault,
            r.authority == self.user,
            r.mint == self.token_mint,
    {
        TransferChecked {
            program: self.token_program,
            from: self.user_token_account.key,
            to: self.token_vault,
            authority: self.user,
            mint: self.token_mint,
        }
    }
}

/// Deposits `stake_amount` into the pool: checks the accounts, then takes the
/// outcome of the transfer of `stake_amount` into the vault (made with
/// `transfer_checked_ctx` and `TOKEN_DECIMALS` once `authorize` passed), then
/// credits the pool and the entry and stamps the entry with the clock
/// reading. A failed deposit changes nothing.
pub fn handler(
    ctx: &mut Stake,
    program_id: &Address,
    token_program_id: &Address,
    stake_amount: u64,
    transfer: Result<(), TransferError>,
    clock: Option<i64>,
) -> (r: Result<(), DepositError>)
    ensures
        *final(ctx) == state_after(*old(ctx), program_id@, token_program_id@, stake_amount, transfer, clock),
        r == result_of(*old(ctx), program_id@, token_program_id@, stake_amount, transfer, clock),
{
    match ctx.authorize(program_id, token_program_id) {
        Err(e) => return Err(e),
        Ok(()) => {},
    }
    match transfer {
        Err(t) => return Err(DepositError::TransferFailed(t)),
        Ok(()) => {},
    }
    let r = record_deposit(&mut ctx.pool_state.data, &mut ctx.user_stake_entry.data, stake_amount, clock);
    match r {
        Ok(()) => Ok(()),
        Err(e) => Err(e),
    }
}

} // verus!
