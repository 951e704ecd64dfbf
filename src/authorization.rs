//! The spend authorization engine: a time-bounded, amount-bounded credit
//! line granted against collateral and debited by each purchase.
use vstd::prelude::*;
use crate::address::Address;
use crate::constants::SECONDS_PER_DAY;
use crate::error::{FlexfiError, ProgramError};
use crate::staking::{StakingAccount, saturating_sub_u64};

verus! {

#[derive(Debug, Clone, Copy)]
pub struct AuthorizationAccount {
    pub user: Address,
    pub flexfi_authority: Address,
    pub authorized_amount: u64,
    pub used_amount: u64,
    pub is_active: bool,
    pub created_at: i64,
    pub expires_at: i64,
    pub bump: u8,
}

/// Why a spend of `amount` at `now` is rejected, if it is.
pub open spec fn spend_error(a: AuthorizationAccount, amount: u64, now: i64) -> Option<ProgramError> {
    if !a.valid_at(now) {
        Some(ProgramError::Custom(FlexfiError::Unauthorized))
    } else if a.remaining() < amount {
        Some(ProgramError::Custom(FlexfiError::InsufficientCollateral))
    } else if a.used_amount + amount > u64::MAX {
        Some(ProgramError::Custom(FlexfiError::MathOverflow))
    } else {
        None
    }
}

/// The credit line after a spend of `amount` at `now`: debited when the
/// spend is accepted, as it was when it is rejected.
pub open spec fn after_spend(a: AuthorizationAccount, amount: u64, now: i64) -> AuthorizationAccount {
    match spend_error(a, amount, now) {
        Some(_) => a,
        None => AuthorizationAccount { used_amount: (a.used_amount + amount) as u64, ..a },
    }
}

/// Spending never takes a credit line past its grant: after any spend,
/// accepted or rejected, the spent amount is still within the granted
/// amount, and a rejected spend leaves it unchanged.
pub proof fn lemma_spend_within_grant(a: AuthorizationAccount, amount: u64, now: i64)
    requires
        a.wf(),
    ensures
        after_spend(a, amount, now).wf(),
        spend_error(a, amount, now) is Some ==> after_spend(a, amount, now).used_amount == a.used_amount,
{
}

/// Why granting `authorized_amount` for `duration_days` at `now` against a
/// position is rejected, if it is.
pub open spec fn initialize_error(staking: StakingAccount, authorized_amount: u64, duration_days: u16, now: i64) -> Option<ProgramError> {
    if staking.amount_staked < authorized_amount {
        Some(ProgramError::Custom(FlexfiError::InsufficientStaking))
    } else if now + duration_days * SECONDS_PER_DAY > i64::MAX {
        Some(ProgramError::Custom(FlexfiError::MathOverflow))
    } else {
        None
    }
}

impl AuthorizationAccount {
    pub const SIZE: usize = 98;

    /// The spent amount never exceeds the granted amount.
    pub open spec fn wf(&self) -> bool {
        self.used_amount <= self.authorized_amount
    }

    pub open spec fn remaining(&self) -> u64 {
        saturating_sub_u64(self.authorized_amount, self.used_amount)
    }

    pub open spec fn valid_at(&self, now: i64) -> bool {
        self.is_active && now < self.expires_at
    }

    /// Credit still available: granted minus spent, never below zero.
    pub fn remaining_credit(&self) -> (r: u64)
        ensures
            r == self.remaining(),
    {
        self.authorized_amount.saturating_sub(self.used_amount)
    }

    /// Active and not yet expired at `current_time`.
    pub fn is_valid(&self, current_time: i64) -> (r: bool)
        ensures
            r == self.valid_at(current_time),
    {
        self.is_active && current_time < self.expires_at
    }

    /// Grants `user` a credit line of `authorized_amount` for
    /// `duration_days` days from `now`, provided the collateral position
    /// holds at least that much at this moment (checked once, not later).
    pub fn initialize(
        user: Address,
        flexfi_authority: Address,
        staking: &StakingAccount,
        authorized_amount: u64,
        duration_days: u16,
        now: i64,
        bump: u8,
    ) -> (r: Result<AuthorizationAccount, ProgramError>)
        ensures
            match initialize_error(*staking, authorized_amount, duration_days, now) {
                Some(e) => r == Err::<AuthorizationAccount, ProgramError>(e),
                None => r == Ok::<AuthorizationAccount, ProgramError>(AuthorizationAccount {
                    user,
                    flexfi_authority,
                    authorized_amount,
                    used_amount: 0,
                    is_active: true,
                    created_at: now,
                    expires_at: (now + duration_days * SECONDS_PER_DAY) as i64,
                    bump,
                }),
            },
            r matches Ok(a) ==> a.wf(),
    {
        if staking.amount_staked < authorized_amount {
            return Err(ProgramError::Custom(FlexfiError::InsufficientStaking));
        }
        let expires_at = match now.checked_add(duration_days as i64 * SECONDS_PER_DAY) {
            Some(e) => e,
            None => return Err(ProgramError::Custom(FlexfiError::MathOverflow)),
        };
        Ok(AuthorizationAccount {
            user,
            flexfi_authority,
            authorized_amount,
            used_amount: 0,
            is_active: true,
            created_at: now,
            expires_at,
            bump,
        })
    }

    /// Debits `amount` from the credit line at `current_time`. A rejected
    /// spend changes nothing; an accepted one raises `used_amount` by
    /// exactly `amount`. Either way the spent amount stays within the grant.
    /// The caller moves `amount` from custody to the merchant on success.
    pub fn spend(&mut self, amount: u64, current_time: i64) -> (r: Result<(), ProgramError>)
        ensures
            match spend_error(*old(self), amount, current_time) {
                Some(e) => r == Err::<(), ProgramError>(e) && *final(self) == *old(self),
                None => r is Ok && *final(self) == (AuthorizationAccount {
                    used_amount: (old(self).used_amount + amount) as u64,
                    ..*old(self)
                }),
            },
            *final(self) == after_spend(*old(self), amount, current_time),
            old(self).wf() ==> final(self).wf(),
    {
        if !self.is_valid(current_time) {
            return Err(ProgramError::Custom(FlexfiError::Unauthorized));
        }
        if self.remaining_credit() < amount {
            return Err(ProgramError::Custom(FlexfiError::InsufficientCollateral));
        }
        self.used_amount = match self.used_amount.checked_add(amount) {
            Some(u) => u,
            None => return Err(ProgramError::Custom(FlexfiError::MathOverflow)),
        };
        Ok(())
    }

    /// Revokes the credit line for good; only its owner may.
    pub fn revoke(&mut self, owner: &Address) -> (r: Result<(), ProgramError>)
        ensures
            old(self).user@ == owner@ ==> r is Ok && *final(self) == (AuthorizationAccount {
                is_active: false,
                ..*old(self)
            }),
            old(self).user@ != owner@ ==> r == Err::<(), ProgramError>(ProgramError::Custom(FlexfiError::Unauthorized))
                && *final(self) == *old(self),
            old(self).wf() ==> final(self).wf(),
    {
        if !self.user.same_as(owner) {
            return Err(ProgramError::Custom(FlexfiError::Unauthorized));
        }
        self.is_active = false;
        Ok(())
    }
}

} // verus!
