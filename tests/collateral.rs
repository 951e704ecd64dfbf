use flexfi::address::Address;
use flexfi::error::{FlexfiError, ProgramError};
use flexfi::staking::{StakingAccount, StakingManager, StakingStatus};

const DAY: i64 = 86400;
const NOW: i64 = 1_700_000_000;

fn owner() -> Address {
    Address::new([7u8; 32])
}

fn mint() -> Address {
    Address::new([9u8; 32])
}

fn position(amount: u64, status: StakingStatus, lock_end: i64) -> StakingAccount {
    StakingAccount::new(owner(), mint(), amount, status, lock_end, NOW - 100 * DAY, 254)
}

#[test]
fn deposit_on_empty_position_locks_it() {
    let s = StakingManager::deposit(None, owner(), mint(), 1_000_000_000, 30, NOW, 3).unwrap();
    assert_eq!(s.get_status().unwrap(), StakingStatus::Locked);
    assert_eq!(s.amount_staked, 1_000_000_000);
    assert_eq!(s.lock_period_end, NOW + 30 * DAY);
    assert_eq!(s.created_at, NOW);
    assert_eq!(s.last_update, NOW);
    assert_eq!(s.bump, 3);
}

#[test]
fn deposit_below_minimum_is_rejected() {
    let r = StakingManager::deposit(None, owner(), mint(), 1000, 30, NOW, 3);
    assert_eq!(r.unwrap_err(), ProgramError::Custom(FlexfiError::InsufficientStaking));
}

#[test]
fn deposit_with_lock_out_of_range_is_rejected() {
    let r = StakingManager::deposit(None, owner(), mint(), 20_000_000, 6, NOW, 3);
    assert_eq!(r.unwrap_err(), ProgramError::InvalidArgument);
    let r = StakingManager::deposit(None, owner(), mint(), 20_000_000, 366, NOW, 3);
    assert_eq!(r.unwrap_err(), ProgramError::InvalidArgument);
    assert!(StakingManager::deposit(None, owner(), mint(), 20_000_000, 365, NOW, 3).is_ok());
    assert!(StakingManager::deposit(None, owner(), mint(), 20_000_000, 7, NOW, 3).is_ok());
}

#[test]
fn deposit_never_shortens_an_existing_lock() {
    let existing = position(50_000_000, StakingStatus::Locked, NOW + 100 * DAY);
    let s = StakingManager::deposit(Some(existing), owner(), mint(), 10_000_000, 30, NOW, 1).unwrap();
    assert_eq!(s.amount_staked, 60_000_000);
    assert_eq!(s.lock_period_end, NOW + 100 * DAY);
    let s = StakingManager::deposit(Some(existing), owner(), mint(), 10_000_000, 200, NOW, 1).unwrap();
    assert_eq!(s.lock_period_end, NOW + 200 * DAY);
    assert_eq!(s.bump, 254);
}

#[test]
fn deposit_into_active_position_relocks_it() {
    let existing = position(50_000_000, StakingStatus::Active, NOW - DAY);
    let s = StakingManager::deposit(Some(existing), owner(), mint(), 10_000_000, 10, NOW, 1).unwrap();
    assert_eq!(s.get_status().unwrap(), StakingStatus::Locked);
    assert_eq!(s.lock_period_end, NOW + 10 * DAY);
}

#[test]
fn deposit_saturates_the_balance() {
    let existing = position(u64::MAX - 5, StakingStatus::Active, NOW - DAY);
    let s = StakingManager::deposit(Some(existing), owner(), mint(), 10_000_000, 10, NOW, 1).unwrap();
    assert_eq!(s.amount_staked, u64::MAX);
}

#[test]
fn deposit_into_frozen_or_closed_position_is_rejected() {
    for st in [StakingStatus::Frozen, StakingStatus::Closed] {
        let existing = position(50_000_000, st, NOW - DAY);
        let r = StakingManager::deposit(Some(existing), owner(), mint(), 10_000_000, 10, NOW, 1);
        assert_eq!(r.unwrap_err(), ProgramError::Custom(FlexfiError::StakingFrozen));
    }
}

#[test]
fn deposit_with_unreadable_status_is_rejected() {
    let mut existing = position(50_000_000, StakingStatus::Active, NOW - DAY);
    existing.status = 9;
    let r = StakingManager::deposit(Some(existing), owner(), mint(), 10_000_000, 10, NOW, 1);
    assert_eq!(r.unwrap_err(), ProgramError::InvalidAccountData);
}

#[test]
fn deposit_whose_lock_end_overflows_is_rejected() {
    let r = StakingManager::deposit(None, owner(), mint(), 10_000_000, 10, i64::MAX - DAY, 1);
    assert_eq!(r.unwrap_err(), ProgramError::Custom(FlexfiError::MathOverflow));
}

#[test]
fn withdraw_exactly_at_lock_expiry_succeeds() {
    let mut s = position(50_000_000, StakingStatus::Locked, NOW);
    assert!(StakingManager::withdraw(&mut s, &owner(), 20_000_000, NOW).is_ok());
    assert_eq!(s.amount_staked, 30_000_000);
    assert_eq!(s.get_status().unwrap(), StakingStatus::Active);
    assert_eq!(s.last_update, NOW);
}

#[test]
fn withdraw_before_lock_expiry_is_rejected() {
    let mut s = position(50_000_000, StakingStatus::Locked, NOW + 1);
    let before = s;
    let r = StakingManager::withdraw(&mut s, &owner(), 20_000_000, NOW);
    assert_eq!(r.unwrap_err(), ProgramError::Custom(FlexfiError::StakingFrozen));
    assert_eq!(s.amount_staked, before.amount_staked);
    assert_eq!(s.status, before.status);
}

#[test]
fn withdraw_below_minimum_closes_the_position() {
    let mut s = position(50_000_000, StakingStatus::Active, NOW - DAY);
    StakingManager::withdraw(&mut s, &owner(), 45_000_000, NOW).unwrap();
    assert_eq!(s.amount_staked, 5_000_000);
    assert_eq!(s.get_status().unwrap(), StakingStatus::Closed);
}

#[test]
fn withdraw_more_than_balance_is_rejected() {
    let mut s = position(50_000_000, StakingStatus::Active, NOW - DAY);
    let r = StakingManager::withdraw(&mut s, &owner(), 50_000_001, NOW);
    assert_eq!(r.unwrap_err(), ProgramError::Custom(FlexfiError::InsufficientStaking));
    assert_eq!(s.amount_staked, 50_000_000);
}

#[test]
fn withdraw_by_stranger_is_rejected() {
    let mut s = position(50_000_000, StakingStatus::Active, NOW - DAY);
    let r = StakingManager::withdraw(&mut s, &Address::new([1u8; 32]), 1, NOW);
    assert_eq!(r.unwrap_err(), ProgramError::Custom(FlexfiError::Unauthorized));
}

#[test]
fn withdraw_from_frozen_is_rejected() {
    let mut s = position(50_000_000, StakingStatus::Frozen, NOW - DAY);
    let r = StakingManager::withdraw(&mut s, &owner(), 1, NOW);
    assert_eq!(r.unwrap_err(), ProgramError::Custom(FlexfiError::StakingFrozen));
}

#[test]
fn refresh_lock_twice_gives_the_same_status() {
    let mut s = position(50_000_000, StakingStatus::Locked, NOW);
    StakingManager::check_unlock(&mut s, &owner(), NOW).unwrap();
    let first = s.get_status().unwrap();
    StakingManager::check_unlock(&mut s, &owner(), NOW).unwrap();
    assert_eq!(first, StakingStatus::Active);
    assert_eq!(s.get_status().unwrap(), first);

    let mut t = position(50_000_000, StakingStatus::Locked, NOW + 1);
    StakingManager::check_unlock(&mut t, &owner(), NOW).unwrap();
    StakingManager::check_unlock(&mut t, &owner(), NOW).unwrap();
    assert_eq!(t.get_status().unwrap(), StakingStatus::Locked);
}

#[test]
fn seize_never_takes_more_than_the_balance() {
    let mut s = position(30, StakingStatus::Active, NOW);
    assert_eq!(s.seize(20), 20);
    assert_eq!(s.amount_staked, 10);
    assert_eq!(s.seize(25), 10);
    assert_eq!(s.amount_staked, 0);
    assert_eq!(s.seize(5), 0);
}

#[test]
fn balance_follows_deposits_withdrawals_and_seizures() {
    let mut s = StakingManager::deposit(None, owner(), mint(), 40_000_000, 7, NOW, 1).unwrap();
    s = StakingManager::deposit(Some(s), owner(), mint(), 30_000_000, 7, NOW, 1).unwrap();
    StakingManager::check_unlock(&mut s, &owner(), NOW + 7 * DAY).unwrap();
    StakingManager::withdraw(&mut s, &owner(), 15_000_000, NOW + 7 * DAY).unwrap();
    assert_eq!(s.seize(5_000_000), 5_000_000);
    assert!(StakingManager::withdraw(&mut s, &owner(), 60_000_000, NOW + 8 * DAY).is_err());
    assert_eq!(s.amount_staked, 40_000_000 + 30_000_000 - 15_000_000 - 5_000_000);
}

#[test]
fn staking_status_codes() {
    assert_eq!(StakingStatus::Active.to_u8(), 0);
    assert_eq!(StakingStatus::Locked.to_u8(), 1);
    assert_eq!(StakingStatus::Frozen.to_u8(), 2);
    assert_eq!(StakingStatus::Closed.to_u8(), 3);
    assert_eq!(StakingStatus::from_u8(2).unwrap(), StakingStatus::Frozen);
    assert_eq!(StakingStatus::from_u8(4).unwrap_err(), ProgramError::InvalidAccountData);
}

#[test]
fn deposit_into_active_position_keeps_a_later_expiry() {
    let existing = position(50_000_000, StakingStatus::Active, 2_000_000_000);
    let s = StakingManager::deposit(Some(existing), owner(), mint(), 10_000_000, 7, NOW, 1).unwrap();
    assert_eq!(s.get_status().unwrap(), StakingStatus::Locked);
    assert_eq!(s.lock_period_end, 2_000_000_000);
    assert_eq!(s.amount_staked, 60_000_000);
}
