//! The credit score ledger: a bounded reputation score and payment-history
//! counters, changed only as a side effect of repayment and default events.
use vstd::prelude::*;
use crate::address::Address;
use crate::constants::{MAX_SCORE, INITIAL_SCORE};
use crate::error::{FlexfiError, ProgramError};

verus! {

#[derive(Debug, Clone, Copy)]
pub struct ScoreAccount {
    pub owner: Address,
    pub score: u16,
    pub on_time_payments: u32,
    pub late_payments: u32,
    pub defaults: u16,
    pub total_loans: u32,
    pub last_updated: i64,
    pub bump: u8,
}

/// The score after a change: raised at most to the ceiling, lowered at
/// most to zero.
pub open spec fn score_after(score: u16, change: i16) -> u16 {
    if change > 0 {
        if score + change > MAX_SCORE { MAX_SCORE } else { (score + change) as u16 }
    } else if score + change < 0 {
        0
    } else {
        (score + change) as u16
    }
}

pub open spec fn inc_u32(x: u32) -> u32 {
    if x == u32::MAX { x } else { (x + 1) as u32 }
}

pub open spec fn inc_u16(x: u16) -> u16 {
    if x == u16::MAX { x } else { (x + 1) as u16 }
}

/// The account after a score change at `now`. A positive change counts as
/// an on-time payment, one below -30 as a default, and one from -30 to -1
/// as a late payment.
pub open spec fn score_account_after(s: ScoreAccount, change: i16, now: i64) -> ScoreAccount {
    ScoreAccount {
        score: score_after(s.score, change),
        on_time_payments: if change > 0 { inc_u32(s.on_time_payments) } else { s.on_time_payments },
        late_payments: if -30 <= change < 0 { inc_u32(s.late_payments) } else { s.late_payments },
        defaults: if change < -30 { inc_u16(s.defaults) } else { s.defaults },
        last_updated: now,
        ..s
    }
}

impl ScoreAccount {
    pub const SIZE: usize = 57;

    pub fn new(owner: Address, initial_score: u16, created_at: i64, bump: u8) -> (r: ScoreAccount)
        ensures
            r == (ScoreAccount {
                owner,
                score: initial_score,
                on_time_payments: 0,
                late_payments: 0,
                defaults: 0,
                total_loans: 0,
                last_updated: created_at,
                bump,
            }),
    {
        ScoreAccount {
            owner,
            score: initial_score,
            on_time_payments: 0,
            late_payments: 0,
            defaults: 0,
            total_loans: 0,
            last_updated: created_at,
            bump,
        }
    }

    /// A fresh score record at the initial score.
    pub fn initial(owner: Address, created_at: i64, bump: u8) -> (r: ScoreAccount)
        ensures
            r == ScoreAccount::new_spec(owner, INITIAL_SCORE, created_at, bump),
    {
        ScoreAccount::new(owner, INITIAL_SCORE, created_at, bump)
    }

    pub open spec fn new_spec(owner: Address, initial_score: u16, created_at: i64, bump: u8) -> ScoreAccount {
        ScoreAccount {
            owner,
            score: initial_score,
            on_time_payments: 0,
            late_payments: 0,
            defaults: 0,
            total_loans: 0,
            last_updated: created_at,
            bump,
        }
    }

    /// Applies a score change at `now`; the score stays within
    /// `0..=MAX_SCORE` once it is there, whatever the change.
    pub fn update_score(&mut self, change: i16, current_time: i64)
        ensures
            *final(self) == score_account_after(*old(self), change, current_time),
            old(self).score <= MAX_SCORE ==> final(self).score <= MAX_SCORE,
    {
        if change > 0 {
            let new_score = self.score.saturating_add(change as u16);
            self.score = if new_score < MAX_SCORE { new_score } else { MAX_SCORE };
            self.on_time_payments = self.on_time_payments.saturating_add(1);
        } else if change < -30 {
            let magnitude = (0 - (change as i32)) as u16;
            self.score = self.score.saturating_sub(magnitude);
            self.defaults = self.defaults.saturating_add(1);
        } else if change < 0 {
            let magnitude = (0 - (change as i32)) as u16;
            self.score = self.score.saturating_sub(magnitude);
            self.late_payments = self.late_payments.saturating_add(1);
        }
        self.last_updated = current_time;
    }

    pub fn record_new_loan(&mut self, current_time: i64)
        ensures
            *final(self) == (ScoreAccount {
                total_loans: inc_u32(old(self).total_loans),
                last_updated: current_time,
                ..*old(self)
            }),
    {
        self.total_loans = self.total_loans.saturating_add(1);
        self.last_updated = current_time;
    }
}

/// Score changes made on behalf of the other components.
pub struct ScoreContract;

impl ScoreContract {
    pub fn update_score(score: &mut ScoreAccount, change: i16, current_time: i64)
        ensures
            *final(score) == score_account_after(*old(score), change, current_time),
    {
        score.update_score(change, current_time);
    }
}

/// Read-only score queries by the score's owner.
pub struct ScoreQuery;

impl ScoreQuery {
    /// The score of `user`, who must own the record.
    pub fn get_score(score: &ScoreAccount, user: &Address) -> (r: Result<u16, ProgramError>)
        ensures
            score.owner@ == user@ ==> r == Ok::<u16, ProgramError>(score.score),
            score.owner@ != user@ ==> r == Err::<u16, ProgramError>(ProgramError::Custom(FlexfiError::Unauthorized)),
    {
        if !score.owner.same_as(user) {
            return Err(ProgramError::Custom(FlexfiError::Unauthorized));
        }
        Ok(score.score)
    }

    /// Whether the score of `user` reaches `min_score`.
    pub fn check_score_threshold(score: &ScoreAccount, user: &Address, min_score: u16) -> (r: Result<bool, ProgramError>)
        ensures
            score.owner@ == user@ ==> r == Ok::<bool, ProgramError>(score.score >= min_score),
            score.owner@ != user@ ==> r == Err::<bool, ProgramError>(ProgramError::Custom(FlexfiError::Unauthorized)),
    {
        if !score.owner.same_as(user) {
            return Err(ProgramError::Custom(FlexfiError::Unauthorized));
        }
        Ok(score.score >= min_score)
    }

    /// The number of recorded payments, on time and late together.
    pub fn total_payments(score: &ScoreAccount, user: &Address) -> (r: Result<u64, ProgramError>)
        ensures
            score.owner@ == user@ ==> r == Ok::<u64, ProgramError>(
                (score.on_time_payments + score.late_payments) as u64,
            ),
            score.owner@ != user@ ==> r == Err::<u64, ProgramError>(ProgramError::Custom(FlexfiError::Unauthorized)),
    {
        if !score.owner.same_as(user) {
            return Err(ProgramError::Custom(FlexfiError::Unauthorized));
        }
        Ok(score.on_time_payments as u64 + score.late_payments as u64)
    }
}

} // verus!
