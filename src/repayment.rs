//! The repayment check: on a due installment, a direct debit, else the
//! cascade through grace period, collateral seizure and default, with the
//! score adjusted at each step.
use vstd::prelude::*;
use crate::bnpl::{BNPLContractAccount, BNPLStatus, after_payment, LOAN_ACTIVE, LOAN_COMPLETED, LOAN_DEFAULTED};
use crate::constants::{
    MAX_SCORE,
    get_late_payment_penalty, spec_late_payment_penalty, SECONDS_PER_DAY, BPS_DENOMINATOR,
    SCORE_INCREASE_ON_TIME_PAYMENT, SCORE_INCREASE_COMPLETE_CONTRACT, SCORE_DECREASE_LATE_PAYMENT,
    SCORE_DECREASE_DEFAULT, SCORE_DECREASE_LATE_WITH_SEIZURE,
};
use crate::error::{FlexfiError, ProgramError};
use crate::score::{ScoreAccount, score_account_after};
use crate::staking::{StakingAccount, seized_amount};

verus! {

/// What a repayment check did.
#[derive(Debug, Clone, Copy, PartialEq, Eq, Structural)]
pub enum RepaymentOutcome {
    /// The loan is not active, or no installment is due yet.
    NotDue,
    /// The direct debit paid the installment.
    Paid { completed: bool },
    /// The debit failed within the grace period; the installment stays unpaid.
    GracePeriod,
    /// The debit failed after the grace period and collateral covered at
    /// least the installment; `seized` must move from custody to the platform.
    CoveredFromCollateral { seized: u64 },
    /// The debit failed after the grace period and collateral did not cover
    /// the installment; the loan defaulted and `seized` must still move.
    Defaulted { seized: u64 },
}

/// Length of the grace period (`GRACE_PERIOD_DAYS` days), in seconds.
pub const GRACE_PERIOD_SECONDS: i64 = 15 * SECONDS_PER_DAY;

/// Late penalty on one installment: the installment times the penalty rate
/// of the (card, NFT) pair, in basis points, rounded down; `None` on overflow.
pub open spec fn late_penalty(per_installment: u64, card_type: u8, nft_type: u8) -> Option<u64> {
    let product = per_installment * spec_late_payment_penalty(card_type, nft_type);
    if product > u64::MAX { None } else { Some((product / 10000) as u64) }
}

/// Installment plus late penalty; `None` on overflow.
pub open spec fn total_due(per_installment: u64, card_type: u8, nft_type: u8) -> Option<u64> {
    match late_penalty(per_installment, card_type, nft_type) {
        Some(p) => if per_installment + p > u64::MAX { None } else { Some((per_installment + p) as u64) },
        None => None,
    }
}

/// The score after a successful debit: +5, and +20 more when that payment
/// completes the loan.
pub open spec fn score_after_paid(s: ScoreAccount, completed: bool, now: i64) -> ScoreAccount {
    let once = score_account_after(s, SCORE_INCREASE_ON_TIME_PAYMENT, now);
    if completed { score_account_after(once, SCORE_INCREASE_COMPLETE_CONTRACT, now) } else { once }
}

/// Whether an installment is due on `loan` at `now`: the loan is active and
/// its due date has come.
pub open spec fn installment_due(loan: BNPLContractAccount, now: i64) -> bool {
    loan.status == LOAN_ACTIVE && now >= loan.next_payment_due
}

/// Whether more than the grace period has passed since the due date.
pub open spec fn past_grace(loan: BNPLContractAccount, now: i64) -> bool {
    now - loan.next_payment_due > GRACE_PERIOD_SECONDS
}

/// The collateral position after `seized` was taken from it.
pub open spec fn staking_less(s: StakingAccount, seized: u64) -> StakingAccount {
    StakingAccount { amount_staked: (s.amount_staked - seized) as u64, ..s }
}

/// Repayment checks on installment loans.
pub struct RepaymentChecker;

impl RepaymentChecker {
    /// Whether a check at `now` should attempt a direct debit: the loan's
    /// status must be readable, the loan active and its installment due.
    pub fn payment_due(loan: &BNPLContractAccount, now: i64) -> (r: Result<bool, ProgramError>)
        ensures
            loan.status > 3 ==> r == Err::<bool, ProgramError>(ProgramError::InvalidAccountData),
            loan.status <= 3 ==> r == Ok::<bool, ProgramError>(installment_due(*loan, now)),
    {
        let status = loan.get_status()?;
        if status != BNPLStatus::Active {
            return Ok(false);
        }
        Ok(loan.is_payment_due(now))
    }

    /// Runs the repayment check on `loan` at `now`, given whether the
    /// direct debit of one installment from the borrower succeeded
    /// (`debit_succeeded`; only looked at when an installment is due).
    ///
    /// - Not due: nothing changes.
    /// - Debit succeeded: the installment is recorded; score +5, and +20
    ///   more if the loan is now completed.
    /// - Debit failed within the grace period: score -10, loan unchanged.
    /// - Debit failed after it: collateral of the borrower is seized up to
    ///   installment + late penalty. Nothing seized (no collateral, or
    ///   nothing due): the loan defaults,
    ///   score -50, and the check fails with
    ///   `InsufficientCollateralForAutoDebit` (these changes stand). At
    ///   least the installment seized: it is recorded, score -20. Less:
    ///   the loan defaults, score -50.
    ///
    /// Any other failure leaves all three records unchanged.
    pub fn check_repayment(
        loan: &mut BNPLContractAccount,
        score: &mut ScoreAccount,
        staking: &mut StakingAccount,
        card_type: u8,
        now: i64,
        debit_succeeded: bool,
    ) -> (r: Result<RepaymentOutcome, ProgramError>)
        ensures
            ({
                let l = *old(loan);
                let s = *old(score);
                let k = *old(staking);
                let unchanged = *final(loan) == l && *final(score) == s && *final(staking) == k;
                if l.status > 3 {
                    r == Err::<RepaymentOutcome, ProgramError>(ProgramError::InvalidAccountData) && unchanged
                } else if !installment_due(l, now) {
                    r == Ok::<RepaymentOutcome, ProgramError>(RepaymentOutcome::NotDue) && unchanged
                } else if debit_succeeded {
                    match after_payment(l, now) {
                        Some(n) => {
                            let completed = n.status == LOAN_COMPLETED;
                            &&& r == Ok::<RepaymentOutcome, ProgramError>(RepaymentOutcome::Paid { completed })
                            &&& *final(loan) == n
                            &&& *final(score) == score_after_paid(s, completed, now)
                            &&& *final(staking) == k
                        },
                        None => r == Err::<RepaymentOutcome, ProgramError>(ProgramError::Custom(FlexfiError::MathOverflow))
                            && unchanged,
                    }
                } else if !past_grace(l, now) {
                    &&& r == Ok::<RepaymentOutcome, ProgramError>(RepaymentOutcome::GracePeriod)
                    &&& *final(loan) == l
                    &&& *final(score) == score_account_after(s, SCORE_DECREASE_LATE_PAYMENT, now)
                    &&& *final(staking) == k
                } else if k.owner@ != l.borrower@ {
                    r == Err::<RepaymentOutcome, ProgramError>(ProgramError::Custom(FlexfiError::Unauthorized)) && unchanged
                } else {
                    match total_due(l.amount_per_installment, card_type, l.nft_type) {
                        None => r == Err::<RepaymentOutcome, ProgramError>(ProgramError::Custom(FlexfiError::MathOverflow))
                            && unchanged,
                        Some(due) => {
                            let seized = seized_amount(k.amount_staked, due);
                            let defaulted = BNPLContractAccount { status: LOAN_DEFAULTED, ..l };
                            if seized == 0 {
                                &&& r == Err::<RepaymentOutcome, ProgramError>(
                                    ProgramError::Custom(FlexfiError::InsufficientCollateralForAutoDebit),
                                )
                                &&& *final(loan) == defaulted
                                &&& *final(score) == score_account_after(s, SCORE_DECREASE_DEFAULT, now)
                                &&& *final(staking) == k
                            } else if seized >= l.amount_per_installment {
                                match after_payment(l, now) {
                                    Some(n) => {
                                        &&& r == Ok::<RepaymentOutcome, ProgramError>(
                                            RepaymentOutcome::CoveredFromCollateral { seized },
                                        )
                                        &&& *final(loan) == n
                                        &&& *final(score) == score_account_after(s, SCORE_DECREASE_LATE_WITH_SEIZURE, now)
                                        &&& *final(staking) == staking_less(k, seized)
                                    },
                                    None => r == Err::<RepaymentOutcome, ProgramError>(
                                        ProgramError::Custom(FlexfiError::MathOverflow),
                                    ) && unchanged,
                                }
                            } else {
                                &&& r == Ok::<RepaymentOutcome, ProgramError>(RepaymentOutcome::Defaulted { seized })
                                &&& *final(loan) == defaulted
                                &&& *final(score) == score_account_after(s, SCORE_DECREASE_DEFAULT, now)
                                &&& *final(staking) == staking_less(k, seized)
                            }
                        },
                    }
                }
            }),
            old(loan).wf() ==> final(loan).wf(),
            old(loan).status_follows(*final(loan)),
            old(score).score <= MAX_SCORE ==> final(score).score <= MAX_SCORE,
    {
        let status = loan.get_status()?;
        if status != BNPLStatus::Active || !loan.is_payment_due(now) {
            return Ok(RepaymentOutcome::NotDue);
        }
        if debit_succeeded {
            loan.update_after_payment(now)?;
            score.update_score(SCORE_INCREASE_ON_TIME_PAYMENT, now);
            let completed = loan.status == BNPLStatus::Completed.to_u8();
            if completed {
                score.update_score(SCORE_INCREASE_COMPLETE_CONTRACT, now);
            }
            return Ok(RepaymentOutcome::Paid { completed });
        }
        let elapsed = now as i128 - loan.next_payment_due as i128;
        if elapsed <= GRACE_PERIOD_SECONDS as i128 {
            score.update_score(SCORE_DECREASE_LATE_PAYMENT, now);
            return Ok(RepaymentOutcome::GracePeriod);
        }
        if !staking.owner.same_as(&loan.borrower) {
            return Err(ProgramError::Custom(FlexfiError::Unauthorized));
        }
        let per_installment = loan.amount_per_installment;
        let penalty_percentage = get_late_payment_penalty(card_type, loan.nft_type);
        let penalty_product = match per_installment.checked_mul(penalty_percentage as u64) {
            Some(v) => v,
            None => return Err(ProgramError::Custom(FlexfiError::MathOverflow)),
        };
        let penalty_amount = penalty_product / BPS_DENOMINATOR;
        let total_deduction = match per_installment.checked_add(penalty_amount) {
            Some(v) => v,
            None => return Err(ProgramError::Custom(FlexfiError::MathOverflow)),
        };
        let available = if total_deduction <= staking.amount_staked {
            total_deduction
        } else {
            staking.amount_staked
        };
        if available == 0 {
            loan.set_status(BNPLStatus::Defaulted);
            score.update_score(SCORE_DECREASE_DEFAULT, now);
            return Err(ProgramError::Custom(FlexfiError::InsufficientCollateralForAutoDebit));
        }
        if available >= per_installment {
            let mut paid = *loan;
            paid.update_after_payment(now)?;
            let seized = staking.seize(total_deduction);
            *loan = paid;
            score.update_score(SCORE_DECREASE_LATE_WITH_SEIZURE, now);
            Ok(RepaymentOutcome::CoveredFromCollateral { seized })
        } else {
            let seized = staking.seize(total_deduction);
            loan.set_status(BNPLStatus::Defaulted);
            score.update_score(SCORE_DECREASE_DEFAULT, now);
            Ok(RepaymentOutcome::Defaulted { seized })
        }
    }
}

} // verus!
