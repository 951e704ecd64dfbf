use flexfi::address::Address;
use flexfi::bnpl::{BNPLChecker, BNPLContract, BNPLContractAccount, BNPLStatus, InstallmentTerms};
use flexfi::card::WalletAccount;
use flexfi::error::{FlexfiError, ProgramError};
use flexfi::nft::{NFTMetadataAccount, NFTType};
use flexfi::repayment::{RepaymentChecker, RepaymentOutcome, GRACE_PERIOD_SECONDS};
use flexfi::score::ScoreAccount;
use flexfi::staking::{StakingAccount, StakingStatus};

const DAY: i64 = 86400;
const NOW: i64 = 1_700_000_000;

fn borrower() -> Address {
    Address::new([4u8; 32])
}

fn merchant() -> Address {
    Address::new([5u8; 32])
}

fn mint() -> Address {
    Address::new([6u8; 32])
}

fn collateral(amount: u64) -> StakingAccount {
    StakingAccount::new(borrower(), mint(), amount, StakingStatus::Locked, NOW + 30 * DAY, NOW, 1)
}

fn wallet(card_type: u8) -> WalletAccount {
    WalletAccount::new(borrower(), card_type, NOW, 2).unwrap()
}

fn loan(per_installment: u64, installments: u8, next_due: i64) -> BNPLContractAccount {
    BNPLContractAccount::new(
        borrower(), merchant(), 1200, mint(), installments, 30, per_installment, 400, 500, 1, 0, NOW - 30 * DAY,
        next_due, 9,
    )
}

fn score() -> ScoreAccount {
    ScoreAccount::new(borrower(), 500, NOW, 3)
}

#[test]
fn terms_of_scenario_loan() {
    let t = InstallmentTerms::compute(1200, 3, 400, 500).unwrap();
    assert_eq!(t.fee_amount, 48);
    assert_eq!(t.apr_amount, 15);
    assert_eq!(t.total_amount, 1263);
    assert_eq!(t.amount_per_installment, 421);
}

#[test]
fn terms_absorb_the_division_remainder() {
    let t = InstallmentTerms::compute(1000, 3, 400, 500).unwrap();
    assert_eq!(t.fee_amount, 40);
    assert_eq!(t.apr_amount, 12);
    assert_eq!(t.total_amount, 1052);
    assert_eq!(t.amount_per_installment, 350);
    assert_eq!(t.total_amount - t.amount_per_installment * 3, 2);
}

#[test]
fn terms_overflow_is_an_error() {
    let r = InstallmentTerms::compute(u64::MAX / 2, 3, 400, 500);
    assert_eq!(r.unwrap_err(), ProgramError::Custom(FlexfiError::MathOverflow));
    let r = InstallmentTerms::compute(1000, 0, 400, 500);
    assert_eq!(r.unwrap_err(), ProgramError::Custom(FlexfiError::MathOverflow));
}

#[test]
fn terms_for_card_use_twelve_month_rate_and_nft_bonus() {
    let t = InstallmentTerms::for_card(1_000_000, 12, 1, 0).unwrap();
    assert_eq!(t.fee_percentage, 700);
    assert_eq!(t.apr_percentage, 500);
    let t = InstallmentTerms::for_card(1_000_000, 6, 1, 3).unwrap();
    assert_eq!(t.fee_percentage, 400);
    assert_eq!(t.apr_percentage, 700);
}

#[test]
fn create_installment_loan_for_silver_card() {
    let c = BNPLContract::create(
        borrower(), merchant(), mint(), 1200, 3, 30, &collateral(5000), &wallet(1), &None, NOW, 8,
    )
    .unwrap();
    assert_eq!(c.amount_per_installment, 421);
    assert_eq!(c.fee_percentage, 400);
    assert_eq!(c.apr_percentage, 500);
    assert_eq!(c.get_status().unwrap(), BNPLStatus::Active);
    assert_eq!(c.next_payment_due, NOW + 30 * DAY);
    assert_eq!(c.paid_installments, 0);
    assert_eq!(c.last_payment_at, NOW);
    assert_eq!(c.card_type, 1);
    assert_eq!(c.nft_type, 0);
}

#[test]
fn create_takes_the_nft_of_the_borrower_only_while_usable() {
    let nft = NFTMetadataAccount::new(mint(), borrower(), NFTType::Silver, 1, 365, NOW - DAY, 4);
    let c = BNPLContract::create(
        borrower(), merchant(), mint(), 1200, 3, 30, &collateral(5000), &wallet(1), &Some(nft), NOW, 8,
    )
    .unwrap();
    assert_eq!(c.nft_type, 2);
    assert_eq!(c.apr_percentage, 650);
    let expired = NFTMetadataAccount::new(mint(), borrower(), NFTType::Silver, 1, 1, NOW - 2 * DAY, 4);
    let c = BNPLContract::create(
        borrower(), merchant(), mint(), 1200, 3, 30, &collateral(5000), &wallet(1), &Some(expired), NOW, 8,
    )
    .unwrap();
    assert_eq!(c.nft_type, 0);
    let foreign = NFTMetadataAccount::new(mint(), merchant(), NFTType::Gold, 1, 365, NOW - DAY, 4);
    let c = BNPLContract::create(
        borrower(), merchant(), mint(), 1200, 3, 30, &collateral(5000), &wallet(1), &Some(foreign), NOW, 8,
    )
    .unwrap();
    assert_eq!(c.nft_type, 0);
}

#[test]
fn create_rejects_invalid_parameters() {
    let r = BNPLContract::create(borrower(), merchant(), mint(), 1200, 2, 30, &collateral(5000), &wallet(1), &None, NOW, 8);
    assert_eq!(r.unwrap_err(), ProgramError::Custom(FlexfiError::InvalidInstallments));
    let r = BNPLContract::create(borrower(), merchant(), mint(), 1200, 3, 14, &collateral(5000), &wallet(1), &None, NOW, 8);
    assert_eq!(r.unwrap_err(), ProgramError::InvalidArgument);
    let r = BNPLContract::create(borrower(), merchant(), mint(), 1200, 12, 30, &collateral(5000), &wallet(0), &None, NOW, 8);
    assert_eq!(r.unwrap_err(), ProgramError::Custom(FlexfiError::InvalidInstallmentForCard));
    let r = BNPLContract::create(borrower(), merchant(), mint(), 1200, 5, 30, &collateral(5000), &wallet(1), &None, NOW, 8);
    assert_eq!(r.unwrap_err(), ProgramError::Custom(FlexfiError::InvalidInstallmentForCard));
    let r = BNPLContract::create(borrower(), merchant(), mint(), 9000, 3, 30, &collateral(5000), &wallet(1), &None, NOW, 8);
    assert_eq!(r.unwrap_err(), ProgramError::Custom(FlexfiError::InsufficientStaking));
    let mut w = wallet(1);
    w.set_active(&borrower(), false).unwrap();
    let r = BNPLContract::create(borrower(), merchant(), mint(), 1200, 3, 30, &collateral(5000), &w, &None, NOW, 8);
    assert_eq!(r.unwrap_err(), ProgramError::Custom(FlexfiError::WalletInactive));
}

#[test]
fn bnpl_checker_rules() {
    let mut frozen = collateral(5000);
    frozen.set_status(StakingStatus::Frozen);
    assert_eq!(
        BNPLChecker::check_bnpl_authorization(&frozen, &borrower(), &wallet(1), 10).unwrap_err(),
        ProgramError::Custom(FlexfiError::StakingFrozen)
    );
    assert_eq!(
        BNPLChecker::check_bnpl_authorization(&collateral(5000), &merchant(), &wallet(1), 10).unwrap_err(),
        ProgramError::Custom(FlexfiError::Unauthorized)
    );
    assert_eq!(BNPLChecker::get_max_bnpl_amount(&collateral(5000), &borrower()).unwrap(), 5000);
    assert_eq!(
        BNPLChecker::get_max_bnpl_amount(&frozen, &borrower()).unwrap_err(),
        ProgramError::Custom(FlexfiError::StakingNotActive)
    );
    assert!(BNPLChecker::check_installments_for_card(3, 12).is_ok());
    assert!(BNPLChecker::check_installments_for_card(0, 12).is_err());
}

#[test]
fn payments_complete_the_loan() {
    let mut c = loan(421, 3, NOW);
    assert_eq!(c.make_payment(&borrower(), NOW).unwrap(), 421);
    assert_eq!(c.paid_installments, 1);
    assert_eq!(c.next_payment_due, NOW + 30 * DAY);
    assert_eq!(c.remaining_amount(), 842);
    assert_eq!(c.make_payment(&borrower(), NOW + DAY).unwrap(), 421);
    assert_eq!(c.make_payment(&borrower(), NOW + 2 * DAY).unwrap(), 421);
    assert_eq!(c.get_status().unwrap(), BNPLStatus::Completed);
    assert_eq!(c.remaining_amount(), 0);
    assert_eq!(c.last_payment_at, NOW + 2 * DAY);
    assert_eq!(
        c.make_payment(&borrower(), NOW + 3 * DAY).unwrap_err(),
        ProgramError::Custom(FlexfiError::LoanNotActive)
    );
}

#[test]
fn payment_by_stranger_is_rejected() {
    let mut c = loan(421, 3, NOW);
    assert_eq!(c.make_payment(&merchant(), NOW).unwrap_err(), ProgramError::Custom(FlexfiError::Unauthorized));
    assert_eq!(c.paid_installments, 0);
}

#[test]
fn cancel_only_before_any_payment() {
    let mut c = loan(421, 3, NOW);
    c.cancel(&borrower(), NOW).unwrap();
    assert_eq!(c.get_status().unwrap(), BNPLStatus::Cancelled);
    let mut d = loan(421, 3, NOW);
    d.make_payment(&borrower(), NOW).unwrap();
    assert_eq!(d.cancel(&borrower(), NOW).unwrap_err(), ProgramError::InvalidAccountData);
}

#[test]
fn repayment_default_without_collateral_after_grace() {
    let due = NOW - GRACE_PERIOD_SECONDS - 1;
    let mut c = loan(421, 3, due);
    let mut s = score();
    let mut k = collateral(0);
    let r = RepaymentChecker::check_repayment(&mut c, &mut s, &mut k, 1, NOW, false);
    assert_eq!(r.unwrap_err(), ProgramError::Custom(FlexfiError::InsufficientCollateralForAutoDebit));
    assert_eq!(c.get_status().unwrap(), BNPLStatus::Defaulted);
    assert_eq!(s.score, 450);
    assert_eq!(s.defaults, 1);
}

#[test]
fn repayment_within_grace_only_penalises() {
    let due = NOW - (GRACE_PERIOD_SECONDS - DAY);
    let mut c = loan(421, 3, due);
    let mut s = score();
    let mut k = collateral(5000);
    let r = RepaymentChecker::check_repayment(&mut c, &mut s, &mut k, 1, NOW, false).unwrap();
    assert_eq!(r, RepaymentOutcome::GracePeriod);
    assert_eq!(c.get_status().unwrap(), BNPLStatus::Active);
    assert_eq!(c.next_payment_due, due);
    assert_eq!(c.paid_installments, 0);
    assert_eq!(s.score, 490);
    assert_eq!(s.late_payments, 1);
    assert_eq!(k.amount_staked, 5000);
}

#[test]
fn repayment_at_grace_boundary_is_still_grace() {
    let due = NOW - GRACE_PERIOD_SECONDS;
    let mut c = loan(421, 3, due);
    let mut s = score();
    let mut k = collateral(5000);
    let r = RepaymentChecker::check_repayment(&mut c, &mut s, &mut k, 1, NOW, false).unwrap();
    assert_eq!(r, RepaymentOutcome::GracePeriod);
}

#[test]
fn repayment_by_direct_debit_rewards_the_score() {
    let mut c = loan(421, 2, NOW);
    let mut s = score();
    let mut k = collateral(5000);
    let r = RepaymentChecker::check_repayment(&mut c, &mut s, &mut k, 1, NOW, true).unwrap();
    assert_eq!(r, RepaymentOutcome::Paid { completed: false });
    assert_eq!(s.score, 505);
    assert_eq!(c.next_payment_due, NOW + 30 * DAY);
    let r = RepaymentChecker::check_repayment(&mut c, &mut s, &mut k, 1, NOW + 30 * DAY, true).unwrap();
    assert_eq!(r, RepaymentOutcome::Paid { completed: true });
    assert_eq!(s.score, 530);
    assert_eq!(s.on_time_payments, 3);
    assert_eq!(c.get_status().unwrap(), BNPLStatus::Completed);
}

#[test]
fn repayment_not_due_changes_nothing() {
    let mut c = loan(421, 3, NOW + 1);
    let mut s = score();
    let mut k = collateral(5000);
    assert_eq!(RepaymentChecker::payment_due(&c, NOW).unwrap(), false);
    let r = RepaymentChecker::check_repayment(&mut c, &mut s, &mut k, 1, NOW, false).unwrap();
    assert_eq!(r, RepaymentOutcome::NotDue);
    assert_eq!(s.score, 500);
}

#[test]
fn repayment_covered_by_collateral_with_penalty() {
    let due = NOW - 20 * DAY;
    let mut c = loan(1000, 3, due);
    let mut s = score();
    let mut k = collateral(5000);
    // Silver card without NFT: the default 10% penalty.
    let r = RepaymentChecker::check_repayment(&mut c, &mut s, &mut k, 1, NOW, false).unwrap();
    assert_eq!(r, RepaymentOutcome::CoveredFromCollateral { seized: 1100 });
    assert_eq!(k.amount_staked, 3900);
    assert_eq!(c.paid_installments, 1);
    assert_eq!(c.next_payment_due, due + 30 * DAY);
    assert_eq!(s.score, 480);
    assert_eq!(s.late_payments, 1);
}

#[test]
fn repayment_partially_covered_still_pays_the_installment() {
    let mut c = loan(1000, 3, NOW - 20 * DAY);
    let mut s = score();
    let mut k = collateral(1050);
    let r = RepaymentChecker::check_repayment(&mut c, &mut s, &mut k, 1, NOW, false).unwrap();
    assert_eq!(r, RepaymentOutcome::CoveredFromCollateral { seized: 1050 });
    assert_eq!(k.amount_staked, 0);
    assert_eq!(c.paid_installments, 1);
    assert_eq!(s.score, 480);
}

#[test]
fn repayment_short_collateral_defaults() {
    let mut c = loan(1000, 3, NOW - 20 * DAY);
    let mut s = score();
    let mut k = collateral(600);
    let r = RepaymentChecker::check_repayment(&mut c, &mut s, &mut k, 1, NOW, false).unwrap();
    assert_eq!(r, RepaymentOutcome::Defaulted { seized: 600 });
    assert_eq!(k.amount_staked, 0);
    assert_eq!(c.get_status().unwrap(), BNPLStatus::Defaulted);
    assert_eq!(c.paid_installments, 0);
    assert_eq!(s.score, 450);
    assert_eq!(s.defaults, 1);
}

#[test]
fn repayment_penalty_follows_the_card_and_nft_pair() {
    let mut c = loan(1000, 3, NOW - 20 * DAY);
    c.nft_type = 3;
    let mut s = score();
    let mut k = collateral(5000);
    let r = RepaymentChecker::check_repayment(&mut c, &mut s, &mut k, 3, NOW, false).unwrap();
    assert_eq!(r, RepaymentOutcome::CoveredFromCollateral { seized: 1010 });
}

#[test]
fn loan_status_codes() {
    assert_eq!(BNPLStatus::Active.to_u8(), 0);
    assert_eq!(BNPLStatus::Completed.to_u8(), 1);
    assert_eq!(BNPLStatus::Defaulted.to_u8(), 2);
    assert_eq!(BNPLStatus::Cancelled.to_u8(), 3);
    assert_eq!(BNPLStatus::from_u8(7).unwrap_err(), ProgramError::InvalidAccountData);
}

#[test]
fn repayment_of_zero_installment_without_collateral_defaults() {
    let t = InstallmentTerms::compute(1, 3, 400, 500).unwrap();
    assert_eq!(t.amount_per_installment, 0);
    let mut c = loan(0, 3, NOW - GRACE_PERIOD_SECONDS - 1);
    let mut s = score();
    let mut k = collateral(0);
    let r = RepaymentChecker::check_repayment(&mut c, &mut s, &mut k, 1, NOW, false);
    assert_eq!(r.unwrap_err(), ProgramError::Custom(FlexfiError::InsufficientCollateralForAutoDebit));
    assert_eq!(c.get_status().unwrap(), BNPLStatus::Defaulted);
    assert_eq!(c.paid_installments, 0);
    assert_eq!(s.score, 450);
    assert_eq!(s.defaults, 1);
    assert_eq!(s.late_payments, 0);
}
