use token22_staking::address::{
    pool_state_address, stake_entry_address, vault_address, vault_authority_address, Address,
};
use token22_staking::stake::{handler, Account, Stake, TokenAccount, TOKEN_DECIMALS};
use token22_staking::state::{record_deposit, DepositError, PoolState, StakeEntry, TransferError};

fn addr(fill: u8) -> Address {
    Address::new([fill; 32])
}

fn program_id() -> Address {
    addr(7)
}

fn token_program() -> Address {
    addr(9)
}

/// Accounts of a deposit by `user` into the pool of `mint`, all at their
/// canonical addresses.
fn valid_stake(mint: Address, user: Address, pool_amount: u64, balance: u64) -> Stake {
    let pid = program_id();
    let (pool_key, pool_bump) = pool_state_address(&mint, &pid).unwrap();
    let (authority, _) = vault_authority_address(&pid).unwrap();
    let (vault, vault_bump) = vault_address(&mint, &authority, &pid).unwrap();
    let (entry_key, entry_bump) = stake_entry_address(&user, &mint, &pid).unwrap();
    Stake {
        pool_state: Account {
            key: pool_key,
            data: PoolState { bump: pool_bump, vault_bump, token_mint: mint, amount: pool_amount },
        },
        token_mint: mint,
        pool_authority: authority,
        token_vault: vault,
        user,
        user_token_account: TokenAccount { key: addr(40), mint },
        user_stake_entry: Account {
            key: entry_key,
            data: StakeEntry { bump: entry_bump, user, balance, last_staked: 0 },
        },
        token_program: token_program(),
    }
}

fn deposit(s: &mut Stake, amount: u64, transfer: Result<(), TransferError>, now: i64) -> Result<(), DepositError> {
    handler(s, &program_id(), &token_program(), amount, transfer, Some(now))
}

fn balances(s: &Stake) -> (u64, u64, i64) {
    (s.pool_state.data.amount, s.user_stake_entry.data.balance, s.user_stake_entry.data.last_staked)
}

#[test]
fn end_to_end_deposit_then_wrong_signer() {
    let mut s = valid_stake(addr(1), addr(2), 1000, 200);
    assert_eq!(deposit(&mut s, 50, Ok(()), 1_700_000_000), Ok(()));
    assert_eq!(balances(&s), (1050, 250, 1_700_000_000));
    let mut other = s;
    other.user = addr(3);
    assert_eq!(deposit(&mut other, 50, Ok(()), 1_700_000_100), Err(DepositError::InvalidUser));
    assert_eq!(balances(&other), (1050, 250, 1_700_000_000));
}

#[test]
fn sequence_of_deposits_keeps_totals_equal() {
    let mint = addr(1);
    let mut a = valid_stake(mint, addr(2), 0, 0);
    let mut vault: u64 = 0;
    for (i, amount) in [10u64, 0, 35, 1].iter().enumerate() {
        assert_eq!(deposit(&mut a, *amount, Ok(()), i as i64), Ok(()));
        vault += *amount;
    }
    let mut b = valid_stake(mint, addr(5), a.pool_state.data.amount, 0);
    assert_eq!(deposit(&mut b, 4, Ok(()), 9), Ok(()));
    vault += 4;
    assert_eq!(b.pool_state.data.amount, a.user_stake_entry.data.balance + b.user_stake_entry.data.balance);
    assert_eq!(b.pool_state.data.amount, vault);
    assert_eq!(b.pool_state.data.amount, 50);
}

#[test]
fn overflow_of_pool_total_is_rejected() {
    let mut s = valid_stake(addr(1), addr(2), u64::MAX - 10, 0);
    assert_eq!(deposit(&mut s, 11, Ok(()), 5), Err(DepositError::ArithmeticOverflow));
    assert_eq!(balances(&s), (u64::MAX - 10, 0, 0));
}

#[test]
fn overflow_of_entry_balance_is_rejected() {
    let mut s = valid_stake(addr(1), addr(2), 100, u64::MAX);
    assert_eq!(deposit(&mut s, 1, Ok(()), 5), Err(DepositError::ArithmeticOverflow));
    assert_eq!(balances(&s), (100, u64::MAX, 0));
}

#[test]
fn largest_deposit_that_fits() {
    let mut s = valid_stake(addr(1), addr(2), 1, 1);
    assert_eq!(deposit(&mut s, u64::MAX - 1, Ok(()), 5), Ok(()));
    assert_eq!(balances(&s), (u64::MAX, u64::MAX, 5));
}

#[test]
fn wrong_signer_is_rejected_even_when_transfer_fails() {
    let mut s = valid_stake(addr(1), addr(2), 1000, 200);
    s.user = addr(3);
    assert_eq!(
        deposit(&mut s, 50, Err(TransferError::InsufficientFunds), 5),
        Err(DepositError::InvalidUser)
    );
    assert_eq!(balances(&s), (1000, 200, 0));
}

#[test]
fn wrong_token_program_is_rejected_first() {
    let mut s = valid_stake(addr(1), addr(2), 1000, 200);
    s.token_program = addr(10);
    s.user = addr(3);
    assert_eq!(deposit(&mut s, 50, Ok(()), 5), Err(DepositError::InvalidTokenProgram));
    assert_eq!(balances(&s), (1000, 200, 0));
}

#[test]
fn wrong_mint_is_rejected() {
    let mut s = valid_stake(addr(1), addr(2), 1000, 200);
    s.user_token_account.mint = addr(11);
    assert_eq!(deposit(&mut s, 50, Ok(()), 5), Err(DepositError::InvalidMint));
    assert_eq!(balances(&s), (1000, 200, 0));
}

#[test]
fn non_canonical_vault_is_rejected() {
    let mut s = valid_stake(addr(1), addr(2), 1000, 200);
    s.token_vault = addr(12);
    assert_eq!(deposit(&mut s, 50, Ok(()), 5), Err(DepositError::AddressMismatch));
    assert_eq!(balances(&s), (1000, 200, 0));
}

#[test]
fn vault_of_another_mint_is_rejected() {
    let mut s = valid_stake(addr(1), addr(2), 1000, 200);
    let (other_vault, _) = vault_address(&addr(13), &s.pool_authority, &program_id()).unwrap();
    s.token_vault = other_vault;
    assert_eq!(deposit(&mut s, 50, Ok(()), 5), Err(DepositError::AddressMismatch));
}

#[test]
fn wrong_bump_is_rejected() {
    let mut s = valid_stake(addr(1), addr(2), 1000, 200);
    s.user_stake_entry.data.bump = s.user_stake_entry.data.bump.wrapping_sub(1);
    assert_eq!(deposit(&mut s, 50, Ok(()), 5), Err(DepositError::AddressMismatch));
}

#[test]
fn wrong_pool_state_and_authority_are_rejected() {
    let mut s = valid_stake(addr(1), addr(2), 1000, 200);
    s.pool_state.key = addr(14);
    assert_eq!(deposit(&mut s, 50, Ok(()), 5), Err(DepositError::AddressMismatch));
    let mut t = valid_stake(addr(1), addr(2), 1000, 200);
    t.pool_authority = addr(15);
    assert_eq!(deposit(&mut t, 50, Ok(()), 5), Err(DepositError::AddressMismatch));
}

#[test]
fn entry_of_another_user_is_rejected() {
    let mut s = valid_stake(addr(1), addr(2), 1000, 200);
    let (other_entry, bump) = stake_entry_address(&addr(3), &addr(1), &program_id()).unwrap();
    s.user_stake_entry.key = other_entry;
    s.user_stake_entry.data.bump = bump;
    assert_eq!(deposit(&mut s, 50, Ok(()), 5), Err(DepositError::AddressMismatch));
}

#[test]
fn zero_deposit_only_stamps_time() {
    let mut s = valid_stake(addr(1), addr(2), 1000, 200);
    assert_eq!(deposit(&mut s, 0, Ok(()), 42), Ok(()));
    assert_eq!(balances(&s), (1000, 200, 42));
}

#[test]
fn failed_transfer_changes_nothing() {
    for e in [
        TransferError::InsufficientFunds,
        TransferError::AccountFrozen,
        TransferError::DecimalMismatch,
        TransferError::Unauthorized,
    ] {
        let mut s = valid_stake(addr(1), addr(2), 1000, 200);
        assert_eq!(deposit(&mut s, 50, Err(e), 5), Err(DepositError::TransferFailed(e)));
        assert_eq!(balances(&s), (1000, 200, 0));
    }
}

#[test]
fn missing_clock_is_rejected() {
    let mut s = valid_stake(addr(1), addr(2), 1000, 200);
    assert_eq!(
        handler(&mut s, &program_id(), &token_program(), 50, Ok(()), None),
        Err(DepositError::ClockUnavailable)
    );
    assert_eq!(balances(&s), (1000, 200, 0));
}

#[test]
fn record_deposit_credits_both_records() {
    let mut pool = PoolState { bump: 1, vault_bump: 2, token_mint: addr(1), amount: 7 };
    let mut entry = StakeEntry { bump: 3, user: addr(2), balance: 3, last_staked: 1 };
    assert_eq!(record_deposit(&mut pool, &mut entry, 5, Some(9)), Ok(()));
    assert_eq!((pool.amount, entry.balance, entry.last_staked), (12, 8, 9));
}

#[test]
fn derivations_are_deterministic_and_distinct() {
    let pid = program_id();
    let a = pool_state_address(&addr(1), &pid).unwrap();
    let b = pool_state_address(&addr(1), &pid).unwrap();
    assert_eq!(a, b);
    assert_ne!(a.0, addr(1));
    assert_ne!(a.0, pid);
    let c = pool_state_address(&addr(2), &pid).unwrap();
    assert_ne!(a.0, c.0);
    let e = stake_entry_address(&addr(2), &addr(1), &pid).unwrap();
    assert_ne!(e.0, a.0);
    let other_program = pool_state_address(&addr(1), &addr(8)).unwrap();
    assert_ne!(other_program.0, a.0);
}

#[test]
fn transfer_accounts_and_decimals() {
    let s = valid_stake(addr(1), addr(2), 0, 0);
    let t = s.transfer_checked_ctx();
    assert_eq!(t.program, token_program());
    assert_eq!(t.from, addr(40));
    assert_eq!(t.to, s.token_vault);
    assert_eq!(t.authority, addr(2));
    assert_eq!(t.mint, addr(1));
    assert_eq!(TOKEN_DECIMALS, 6);
}

#[test]
fn address_equality_is_bytewise() {
    let mut b = [3u8; 32];
    assert!(addr(3).same(&Address::new(b)));
    b[31] = 4;
    assert!(!addr(3).same(&Address::new(b)));
    assert_eq!(Address::new([3u8; 32]).to_seed(), vec![3u8; 32]);
}

#[test]
fn authorize_checks_without_changing_records() {
    let s = valid_stake(addr(1), addr(2), 1000, 200);
    assert_eq!(s.authorize(&program_id(), &token_program()), Ok(()));
    assert_eq!(s.authorize(&addr(8), &token_program()), Err(DepositError::AddressMismatch));
    assert_eq!(s.authorize(&program_id(), &addr(8)), Err(DepositError::InvalidTokenProgram));
    assert_eq!(balances(&s), (1000, 200, 0));
}
