use flexfi::address::{check_derived_address, verify_program_address, Address};
use flexfi::authorization::AuthorizationAccount;
use flexfi::error::{FlexfiError, ProgramError};
use flexfi::score::{ScoreAccount, ScoreContract, ScoreQuery};
use flexfi::staking::{StakingAccount, StakingStatus};
use flexfi::whitelist::{check_user_whitelisted, require_whitelisted, UserWhitelistStatus, WhitelistAccount};
use flexfi::yields::{ClaimOutcome, YieldAccount, YieldRouter, YieldStrategy, YieldTracker};

const DAY: i64 = 86400;
const NOW: i64 = 1_700_000_000;

fn user() -> Address {
    Address::new([3u8; 32])
}

fn other() -> Address {
    Address::new([8u8; 32])
}

fn grant(amount: u64) -> AuthorizationAccount {
    let staking = StakingAccount::new(user(), other(), 10_000, StakingStatus::Locked, NOW, NOW, 1);
    AuthorizationAccount::initialize(user(), other(), &staking, amount, 30, NOW, 5).unwrap()
}

#[test]
fn authorization_needs_collateral_at_grant_time() {
    let staking = StakingAccount::new(user(), other(), 10_000, StakingStatus::Locked, NOW, NOW, 1);
    let r = AuthorizationAccount::initialize(user(), other(), &staking, 10_001, 30, NOW, 5);
    assert_eq!(r.unwrap_err(), ProgramError::Custom(FlexfiError::InsufficientStaking));
    let a = grant(10_000);
    assert_eq!(a.used_amount, 0);
    assert_eq!(a.expires_at, NOW + 30 * DAY);
    assert!(a.is_active);
    assert_eq!(a.remaining_credit(), 10_000);
}

#[test]
fn spend_debits_the_credit_line() {
    let mut a = grant(1000);
    a.spend(400, NOW).unwrap();
    a.spend(600, NOW + 1).unwrap();
    assert_eq!(a.used_amount, 1000);
    assert_eq!(a.remaining_credit(), 0);
    assert!(a.used_amount <= a.authorized_amount);
}

#[test]
fn rejected_spend_leaves_used_amount_unchanged() {
    let mut a = grant(1000);
    a.spend(700, NOW).unwrap();
    let r = a.spend(301, NOW);
    assert_eq!(r.unwrap_err(), ProgramError::Custom(FlexfiError::InsufficientCollateral));
    assert_eq!(a.used_amount, 700);
    assert!(a.used_amount <= a.authorized_amount);
}

#[test]
fn spend_after_expiry_or_revocation_is_rejected() {
    let mut a = grant(1000);
    assert!(a.is_valid(NOW + 30 * DAY - 1));
    assert!(!a.is_valid(NOW + 30 * DAY));
    let r = a.spend(1, NOW + 30 * DAY);
    assert_eq!(r.unwrap_err(), ProgramError::Custom(FlexfiError::Unauthorized));
    assert_eq!(a.revoke(&other()).unwrap_err(), ProgramError::Custom(FlexfiError::Unauthorized));
    a.revoke(&user()).unwrap();
    assert!(!a.is_active);
    assert_eq!(a.spend(1, NOW).unwrap_err(), ProgramError::Custom(FlexfiError::Unauthorized));
    assert_eq!(a.used_amount, 0);
}

#[test]
fn score_rises_to_the_ceiling_only() {
    let mut s = ScoreAccount::new(user(), 990, NOW, 1);
    s.update_score(20, NOW + 1);
    assert_eq!(s.score, 1000);
    assert_eq!(s.on_time_payments, 1);
    assert_eq!(s.last_updated, NOW + 1);
    s.update_score(i16::MAX, NOW + 2);
    assert_eq!(s.score, 1000);
}

#[test]
fn score_falls_to_zero_only() {
    let mut s = ScoreAccount::new(user(), 40, NOW, 1);
    s.update_score(-50, NOW);
    assert_eq!(s.score, 0);
    assert_eq!(s.defaults, 1);
    s.update_score(i16::MIN, NOW);
    assert_eq!(s.score, 0);
    assert_eq!(s.defaults, 2);
}

#[test]
fn score_default_threshold_is_strict() {
    let mut s = ScoreAccount::new(user(), 500, NOW, 1);
    s.update_score(-30, NOW);
    assert_eq!(s.score, 470);
    assert_eq!(s.late_payments, 1);
    assert_eq!(s.defaults, 0);
    s.update_score(-31, NOW);
    assert_eq!(s.score, 439);
    assert_eq!(s.defaults, 1);
    s.update_score(0, NOW + 5);
    assert_eq!(s.score, 439);
    assert_eq!(s.last_updated, NOW + 5);
}

#[test]
fn score_contract_and_queries() {
    let mut s = ScoreAccount::initial(user(), NOW, 1);
    assert_eq!(s.score, 500);
    ScoreContract::update_score(&mut s, 5, NOW);
    s.record_new_loan(NOW);
    assert_eq!(s.total_loans, 1);
    assert_eq!(ScoreQuery::get_score(&s, &user()).unwrap(), 505);
    assert_eq!(ScoreQuery::get_score(&s, &other()).unwrap_err(), ProgramError::Custom(FlexfiError::Unauthorized));
    assert!(ScoreQuery::check_score_threshold(&s, &user(), 505).unwrap());
    assert!(!ScoreQuery::check_score_threshold(&s, &user(), 506).unwrap());
    s.update_score(-10, NOW);
    assert_eq!(ScoreQuery::total_payments(&s, &user()).unwrap(), 2);
}

fn yield_position(auto_reinvest: bool, earned: u64) -> YieldAccount {
    let mut y = YieldAccount::new(user(), YieldStrategy::StableCoin, Address::zero(), auto_reinvest, NOW, 1);
    y.record_yield_earned(earned);
    y
}

#[test]
fn small_claim_is_reinvested_without_transfer() {
    let mut y = yield_position(true, 5_000_000);
    let r = YieldTracker::claim_yield(&mut y, &user(), 400_000, NOW).unwrap();
    assert_eq!(r, ClaimOutcome::Reinvested);
    assert_eq!(y.total_yield_earned, 5_400_000);
    assert_eq!(y.total_yield_claimed, 400_000);
    assert_eq!(y.last_yield_claimed, NOW);
}

#[test]
fn large_claim_is_transferred() {
    let mut y = yield_position(true, 5_000_000);
    let r = YieldTracker::claim_yield(&mut y, &user(), 1_000_000, NOW).unwrap();
    assert_eq!(r, ClaimOutcome::Transfer { amount: 1_000_000 });
    assert_eq!(y.total_yield_earned, 5_000_000);
    assert_eq!(y.total_yield_claimed, 1_000_000);
    let mut z = yield_position(false, 5_000_000);
    let r = YieldTracker::claim_yield(&mut z, &user(), 10, NOW).unwrap();
    assert_eq!(r, ClaimOutcome::Transfer { amount: 10 });
}

#[test]
fn claim_beyond_unclaimed_is_rejected() {
    let mut y = yield_position(false, 100);
    YieldTracker::claim_yield(&mut y, &user(), 60, NOW).unwrap();
    let r = YieldTracker::claim_yield(&mut y, &user(), 41, NOW);
    assert_eq!(r.unwrap_err(), ProgramError::Custom(FlexfiError::NoYieldToClaim));
    assert_eq!(y.get_unclaimed_yield(), 40);
    assert_eq!(YieldTracker::get_unclaimed(&y, &user()).unwrap(), 40);
    assert_eq!(YieldTracker::get_unclaimed(&y, &other()).unwrap_err(), ProgramError::Custom(FlexfiError::Unauthorized));
    assert_eq!(
        YieldTracker::claim_yield(&mut y, &other(), 1, NOW).unwrap_err(),
        ProgramError::Custom(FlexfiError::Unauthorized)
    );
    assert_eq!(y.record_yield_claimed(41, NOW).unwrap_err(), ProgramError::InsufficientFunds);
}

#[test]
fn routing_records_earned_yield() {
    let mut y = yield_position(false, 0);
    YieldRouter::route_yield(&mut y, &user(), 700, NOW + 9).unwrap();
    assert_eq!(y.total_yield_earned, 700);
    assert_eq!(y.last_yield_claimed, NOW + 9);
    y.strategy = 9;
    assert_eq!(YieldRouter::route_yield(&mut y, &user(), 1, NOW).unwrap_err(), ProgramError::InvalidAccountData);
}

#[test]
fn strategy_selection_rules() {
    let y = YieldRouter::set_yield_strategy(None, &user(), 2, &other(), true, NOW, 4).unwrap();
    assert_eq!(y.get_strategy().unwrap(), YieldStrategy::HighYield);
    assert!(y.custom_strategy_address.is_zero());
    assert!(y.auto_reinvest);
    let r = YieldRouter::set_yield_strategy(Some(y), &user(), 4, &Address::zero(), true, NOW, 4);
    assert_eq!(r.unwrap_err(), ProgramError::InvalidArgument);
    let c = YieldRouter::set_yield_strategy(Some(y), &user(), 4, &other(), false, NOW, 4).unwrap();
    assert!(c.custom_strategy_address.same_as(&other()));
    assert_eq!(c.get_strategy().unwrap(), YieldStrategy::Custom);
    let r = YieldRouter::set_yield_strategy(Some(y), &other(), 1, &other(), false, NOW, 4);
    assert_eq!(r.unwrap_err(), ProgramError::Custom(FlexfiError::Unauthorized));
    let r = YieldRouter::set_yield_strategy(None, &user(), 5, &other(), false, NOW, 4);
    assert_eq!(r.unwrap_err(), ProgramError::InvalidAccountData);
}

#[test]
fn yield_strategy_codes() {
    assert_eq!(YieldStrategy::AutoCompound.to_u8(), 0);
    assert_eq!(YieldStrategy::StableCoin.to_u8(), 1);
    assert_eq!(YieldStrategy::HighYield.to_u8(), 2);
    assert_eq!(YieldStrategy::RealWorldAssets.to_u8(), 3);
    assert_eq!(YieldStrategy::Custom.to_u8(), 4);
}

#[test]
fn whitelist_check() {
    let mut list = WhitelistAccount::new(other(), 1);
    let status = list.add_user(&other(), user(), NOW, 2).unwrap();
    assert_eq!(list.total_users, 1);
    let derived = Address::new([42u8; 32]);
    assert!(check_user_whitelisted(&derived, &derived, &Some(status)));
    assert!(!check_user_whitelisted(&user(), &derived, &Some(status)));
    assert!(!check_user_whitelisted(&derived, &derived, &None));
    let mut st = status;
    assert_eq!(
        list.remove_user(&other(), &mut st, &other()).unwrap_err(),
        ProgramError::InvalidAccountData
    );
    list.remove_user(&other(), &mut st, &user()).unwrap();
    assert_eq!(list.total_users, 0);
    assert_eq!(
        require_whitelisted(&derived, &derived, &Some(st)).unwrap_err(),
        ProgramError::Custom(FlexfiError::Unauthorized)
    );
    assert!(list.add_user(&user(), user(), NOW, 2).is_err());
    let _ = UserWhitelistStatus::SIZE;
}

#[test]
fn derived_address_is_checked_against_the_runtime_derivation() {
    let program = Address::new([11u8; 32]);
    let seeds: Vec<Vec<u8>> = vec![b"staking".to_vec(), user().bytes.to_vec()];
    let program_key = solana_program::pubkey::Pubkey::new_from_array(program.bytes);
    let (expected, bump) = solana_program::pubkey::Pubkey::find_program_address(
        &[b"staking", &user().bytes],
        &program_key,
    );
    let account = Address::new(expected.to_bytes());
    assert_eq!(verify_program_address(&account, &seeds, &program).unwrap(), bump);
    // The program id itself is not the derived address.
    assert_eq!(verify_program_address(&program, &seeds, &program).unwrap_err(), ProgramError::InvalidAccountData);
    assert_eq!(check_derived_address(&account, Some((account, 7))).unwrap(), 7);
    assert_eq!(check_derived_address(&account, None).unwrap_err(), ProgramError::InvalidAccountData);
}
