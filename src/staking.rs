//! The collateral ledger: a user's locked collateral balance, its lock
//! expiry and its status, with deposit, withdrawal, unlock and seizure.
use vstd::prelude::*;
use crate::address::Address;
use crate::constants::{MIN_STAKING_AMOUNT, MIN_STAKING_LOCK_DAYS, MAX_STAKING_LOCK_DAYS, SECONDS_PER_DAY};
use crate::error::{FlexfiError, ProgramError};

verus! {

pub const STATUS_ACTIVE: u8 = 0;
pub const STATUS_LOCKED: u8 = 1;
pub const STATUS_FROZEN: u8 = 2;
pub const STATUS_CLOSED: u8 = 3;

#[derive(Debug, Clone, Copy, PartialEq, Eq, Structural)]
pub enum StakingStatus {
    Active,
    Locked,
    Frozen,
    Closed,
}

pub open spec fn staking_status_code(s: StakingStatus) -> u8 {
    match s {
        StakingStatus::Active => 0,
        StakingStatus::Locked => 1,
        StakingStatus::Frozen => 2,
        StakingStatus::Closed => 3,
    }
}

impl StakingStatus {
    pub fn to_u8(&self) -> (r: u8)
        ensures
            r == staking_status_code(*self),
    {
        match self {
            StakingStatus::Active => 0,
            StakingStatus::Locked => 1,
            StakingStatus::Frozen => 2,
            StakingStatus::Closed => 3,
        }
    }

    pub fn from_u8(value: u8) -> (r: Result<StakingStatus, ProgramError>)
        ensures
            match r {
                Ok(s) => value <= 3 && staking_status_code(s) == value,
                Err(e) => value > 3 && e == ProgramError::InvalidAccountData,
            },
    {
        match value {
            0 => Ok(StakingStatus::Active),
            1 => Ok(StakingStatus::Locked),
            2 => Ok(StakingStatus::Frozen),
            3 => Ok(StakingStatus::Closed),
            _ => Err(ProgramError::InvalidAccountData),
        }
    }
}

/// A collateral position. `status` holds the code of a `StakingStatus`.
#[derive(Debug, Clone, Copy)]
pub struct StakingAccount {
    pub owner: Address,
    pub usdc_mint: Address,
    pub amount_staked: u64,
    pub status: u8,
    pub lock_period_end: i64,
    pub created_at: i64,
    pub last_update: i64,
    pub bump: u8,
}

/// `a + b`, held at `u64::MAX`.
pub open spec fn saturating_add_u64(a: u64, b: u64) -> u64 {
    if a + b > u64::MAX { u64::MAX } else { (a + b) as u64 }
}

/// `a - b`, held at zero.
pub open spec fn saturating_sub_u64(a: u64, b: u64) -> u64 {
    if a < b { 0 } else { (a - b) as u64 }
}

/// The end of a lock of `days` days starting at `now`, if it fits an `i64`.
pub open spec fn lock_end(now: i64, days: u16) -> Option<i64> {
    let end = now + days * SECONDS_PER_DAY;
    if end <= i64::MAX { Some(end as i64) } else { None }
}

/// Why a deposit into `existing` (or into a new position) is rejected, if it is.
pub open spec fn deposit_error(existing: Option<StakingAccount>, amount: u64, lock_days: u16, now: i64) -> Option<ProgramError> {
    if amount < MIN_STAKING_AMOUNT {
        Some(ProgramError::Custom(FlexfiError::InsufficientStaking))
    } else if lock_days < MIN_STAKING_LOCK_DAYS || lock_days > MAX_STAKING_LOCK_DAYS {
        Some(ProgramError::InvalidArgument)
    } else {
        match existing {
            Some(s) => if s.status > 3 {
                Some(ProgramError::InvalidAccountData)
            } else if s.status != STATUS_ACTIVE && s.status != STATUS_LOCKED {
                Some(ProgramError::Custom(FlexfiError::StakingFrozen))
            } else if lock_end(now, lock_days) is None {
                Some(ProgramError::Custom(FlexfiError::MathOverflow))
            } else {
                None
            },
            None => if lock_end(now, lock_days) is None {
                Some(ProgramError::Custom(FlexfiError::MathOverflow))
            } else {
                None
            },
        }
    }
}

/// The position after an accepted deposit: the balance grows (saturating),
/// the position is locked, and its expiry never moves earlier.
pub open spec fn after_deposit(existing: Option<StakingAccount>, owner: Address, mint: Address, amount: u64, lock_days: u16, now: i64, bump: u8) -> StakingAccount {
    let end = lock_end(now, lock_days)->Some_0;
    match existing {
        Some(s) => StakingAccount {
            amount_staked: saturating_add_u64(s.amount_staked, amount),
            status: STATUS_LOCKED,
            lock_period_end: if s.lock_period_end >= end {
                s.lock_period_end
            } else {
                end
            },
            last_update: now,
            ..s
        },
        None => StakingAccount {
            owner,
            usdc_mint: mint,
            amount_staked: amount,
            status: STATUS_LOCKED,
            lock_period_end: end,
            created_at: now,
            last_update: now,
            bump,
        },
    }
}

/// Why `user` may not withdraw `amount` from `s` at `now`, if they may not.
pub open spec fn withdraw_error(s: StakingAccount, user: Address, amount: u64, now: i64) -> Option<ProgramError> {
    if s.owner@ != user@ {
        Some(ProgramError::Custom(FlexfiError::Unauthorized))
    } else if s.status > 3 {
        Some(ProgramError::InvalidAccountData)
    } else if s.status == STATUS_FROZEN || s.status == STATUS_CLOSED {
        Some(ProgramError::Custom(FlexfiError::StakingFrozen))
    } else if s.status == STATUS_LOCKED && now < s.lock_period_end {
        Some(ProgramError::Custom(FlexfiError::StakingFrozen))
    } else if amount > s.amount_staked {
        Some(ProgramError::Custom(FlexfiError::InsufficientStaking))
    } else {
        None
    }
}

/// The position after an accepted withdrawal: closed once the balance
/// falls below the minimum, active otherwise.
pub open spec fn after_withdraw(s: StakingAccount, amount: u64, now: i64) -> StakingAccount {
    let left = saturating_sub_u64(s.amount_staked, amount);
    StakingAccount {
        amount_staked: left,
        status: if left < MIN_STAKING_AMOUNT { STATUS_CLOSED } else { STATUS_ACTIVE },
        last_update: now,
        ..s
    }
}

/// The position after an unlock check at `now`: a lock that has run out
/// becomes active; anything else is left as it is.
pub open spec fn after_unlock(s: StakingAccount, now: i64) -> StakingAccount {
    if s.status == STATUS_LOCKED && now >= s.lock_period_end {
        StakingAccount { status: STATUS_ACTIVE, last_update: now, ..s }
    } else {
        s
    }
}

/// What a seizure of `amount` actually takes from a balance.
pub open spec fn seized_amount(balance: u64, amount: u64) -> u64 {
    if amount <= balance { amount } else { balance }
}

pub open spec fn result_of(e: Option<ProgramError>) -> Result<(), ProgramError> {
    match e {
        Some(e) => Err(e),
        None => Ok(()),
    }
}

impl StakingAccount {
    pub const SIZE: usize = 98;

    pub fn new(
        owner: Address,
        usdc_mint: Address,
        amount_staked: u64,
        status: StakingStatus,
        lock_period_end: i64,
        created_at: i64,
        bump: u8,
    ) -> (r: StakingAccount)
        ensures
            r.owner == owner,
            r.usdc_mint == usdc_mint,
            r.amount_staked == amount_staked,
            r.status == staking_status_code(status),
            r.lock_period_end == lock_period_end,
            r.created_at == created_at,
            r.last_update == created_at,
            r.bump == bump,
    {
        StakingAccount {
            owner,
            usdc_mint,
            amount_staked,
            status: status.to_u8(),
            lock_period_end,
            created_at,
            last_update: created_at,
            bump,
        }
    }

    pub fn get_status(&self) -> (r: Result<StakingStatus, ProgramError>)
        ensures
            match r {
                Ok(s) => self.status <= 3 && staking_status_code(s) == self.status,
                Err(e) => self.status > 3 && e == ProgramError::InvalidAccountData,
            },
    {
        StakingStatus::from_u8(self.status)
    }

    pub fn set_status(&mut self, status: StakingStatus)
        ensures
            *final(self) == (StakingAccount { status: staking_status_code(status), ..*old(self) }),
    {
        self.status = status.to_u8();
    }

    /// Takes up to `amount` out of the position for a covering debit and
    /// returns what was actually taken; the balance never underflows.
    pub fn seize(&mut self, amount: u64) -> (seized: u64)
        ensures
            seized == seized_amount(old(self).amount_staked, amount),
            *final(self) == (StakingAccount {
                amount_staked: (old(self).amount_staked - seized) as u64,
                ..*old(self)
            }),
    {
        let seized = if amount <= self.amount_staked { amount } else { self.amount_staked };
        self.amount_staked = self.amount_staked - seized;
        seized
    }
}

/// The collateral ledger's operations.
pub struct StakingManager;

impl StakingManager {
    /// Deposits `amount` for `lock_days` days into `existing`, or into a new
    /// locked position when there is none, and returns the resulting
    /// position. The caller moves `amount` into custody when this succeeds.
    pub fn deposit(
        existing: Option<StakingAccount>,
        owner: Address,
        usdc_mint: Address,
        amount: u64,
        lock_days: u16,
        now: i64,
        bump: u8,
    ) -> (r: Result<StakingAccount, ProgramError>)
        ensures
            match deposit_error(existing, amount, lock_days, now) {
                Some(e) => r == Err::<StakingAccount, ProgramError>(e),
                None => r == Ok::<StakingAccount, ProgramError>(
                    after_deposit(existing, owner, usdc_mint, amount, lock_days, now, bump),
                ),
            },
    {
        if amount < MIN_STAKING_AMOUNT {
            return Err(ProgramError::Custom(FlexfiError::InsufficientStaking));
        }
        if lock_days < MIN_STAKING_LOCK_DAYS || lock_days > MAX_STAKING_LOCK_DAYS {
            return Err(ProgramError::InvalidArgument);
        }
        match existing {
            Some(s) => {
                let mut data = s;
                let status = data.get_status()?;
                if status != StakingStatus::Active && status != StakingStatus::Locked {
                    return Err(ProgramError::Custom(FlexfiError::StakingFrozen));
                }
                let new_lock_end = match now.checked_add(lock_days as i64 * SECONDS_PER_DAY) {
                    Some(e) => e,
                    None => return Err(ProgramError::Custom(FlexfiError::MathOverflow)),
                };
                data.amount_staked = data.amount_staked.saturating_add(amount);
                if status == StakingStatus::Active {
                    data.set_status(StakingStatus::Locked);
                }
                if new_lock_end > data.lock_period_end {
                    data.lock_period_end = new_lock_end;
                }
                data.last_update = now;
                Ok(data)
            },
            None => {
                let end = match now.checked_add(lock_days as i64 * SECONDS_PER_DAY) {
                    Some(e) => e,
                    None => return Err(ProgramError::Custom(FlexfiError::MathOverflow)),
                };
                Ok(StakingAccount::new(owner, usdc_mint, amount, StakingStatus::Locked, end, now, bump))
            },
        }
    }

    /// Withdraws `amount` from `staking` on behalf of `user`. Nothing changes
    /// when it is rejected. The caller moves `amount` out of custody when
    /// this succeeds.
    pub fn withdraw(staking: &mut StakingAccount, user: &Address, amount: u64, now: i64) -> (r: Result<(), ProgramError>)
        ensures
            r == result_of(withdraw_error(*old(staking), *user, amount, now)),
            r is Ok ==> *final(staking) == after_withdraw(*old(staking), amount, now),
            r is Err ==> *final(staking) == *old(staking),
    {
        if !staking.owner.same_as(user) {
            return Err(ProgramError::Custom(FlexfiError::Unauthorized));
        }
        let status = staking.get_status()?;
        if status == StakingStatus::Frozen || status == StakingStatus::Closed {
            return Err(ProgramError::Custom(FlexfiError::StakingFrozen));
        }
        if status == StakingStatus::Locked && now < staking.lock_period_end {
            return Err(ProgramError::Custom(FlexfiError::StakingFrozen));
        }
        if amount > staking.amount_staked {
            return Err(ProgramError::Custom(FlexfiError::InsufficientStaking));
        }
        staking.amount_staked = staking.amount_staked.saturating_sub(amount);
        staking.last_update = now;
        if staking.amount_staked < MIN_STAKING_AMOUNT {
            staking.set_status(StakingStatus::Closed);
        } else {
            staking.set_status(StakingStatus::Active);
        }
        Ok(())
    }

    /// Refreshes the lock of `staking` at `now` on behalf of `user`: a
    /// position whose lock has run out becomes active.
    pub fn check_unlock(staking: &mut StakingAccount, user: &Address, now: i64) -> (r: Result<(), ProgramError>)
        ensures
            r is Err ==> *final(staking) == *old(staking),
            !(old(staking).owner@ == user@) ==> r == Err::<(), ProgramError>(ProgramError::Custom(FlexfiError::Unauthorized)),
            old(staking).owner@ == user@ && old(staking).status > 3 ==> r == Err::<(), ProgramError>(ProgramError::InvalidAccountData),
            old(staking).owner@ == user@ && old(staking).status <= 3 ==> r is Ok && *final(staking) == after_unlock(*old(staking), now),
    {
        if !staking.owner.same_as(user) {
            return Err(ProgramError::Custom(FlexfiError::Unauthorized));
        }
        let status = staking.get_status()?;
        if status != StakingStatus::Locked {
            return Ok(());
        }
        if now >= staking.lock_period_end {
            staking.set_status(StakingStatus::Active);
            staking.last_update = now;
        }
        Ok(())
    }
}

/// One accepted movement of a collateral balance.
pub enum CollateralEvent {
    Deposit(u64),
    Withdraw(u64),
    Seize(u64),
}

/// The balance after one accepted event, as the ledger's operations
/// state it.
pub open spec fn collateral_step(balance: u64, event: CollateralEvent) -> u64 {
    match event {
        CollateralEvent::Deposit(a) => saturating_add_u64(balance, a),
        CollateralEvent::Withdraw(a) => saturating_sub_u64(balance, a),
        CollateralEvent::Seize(a) => (balance - seized_amount(balance, a)) as u64,
    }
}

/// An event that the ledger accepts on `balance`: a withdrawal never
/// exceeds the balance.
pub open spec fn collateral_event_allowed(balance: u64, event: CollateralEvent) -> bool {
    match event {
        CollateralEvent::Withdraw(a) => a <= balance,
        _ => true,
    }
}

/// The running balance, over the integers, of deposits (held at the
/// largest `u64`) minus withdrawals minus what each seizure actually took.
pub open spec fn collateral_total(start: int, events: Seq<CollateralEvent>) -> int
    decreases events.len(),
{
    if events.len() == 0 {
        start
    } else {
        let prev = collateral_total(start, events.drop_last());
        match events.last() {
            CollateralEvent::Deposit(a) => if prev + a > u64::MAX { u64::MAX as int } else { prev + a },
            CollateralEvent::Withdraw(a) => prev - a,
            CollateralEvent::Seize(a) => if a <= prev { prev - a } else { 0 },
        }
    }
}

/// After any sequence of accepted deposits, withdrawals and seizures, the
/// collateral balance equals the saturating sum of deposits minus
/// withdrawals minus actual seizures: it is never negative and never wraps.
pub proof fn lemma_collateral_balance(balances: Seq<u64>, events: Seq<CollateralEvent>)
    requires
        balances.len() == events.len() + 1,
        forall|i: int| 0 <= i < events.len() ==> collateral_event_allowed(#[trigger] balances[i], events[i]),
        forall|i: int| 0 <= i < events.len() ==> #[trigger] balances[i + 1] == collateral_step(balances[i], events[i]),
    ensures
        balances.last() == collateral_total(balances[0] as int, events),
        0 <= collateral_total(balances[0] as int, events) <= u64::MAX,
    decreases events.len(),
{
    if events.len() > 0 {
        let n = events.len() - 1;
        let bs = balances.drop_last();
        let es = events.drop_last();
        assert forall|i: int| 0 <= i < es.len() implies collateral_event_allowed(#[trigger] bs[i], es[i]) by {
            assert(bs[i] == balances[i]);
        }
        assert forall|i: int| 0 <= i < es.len() implies #[trigger] bs[i + 1] == collateral_step(bs[i], es[i]) by {
            assert(bs[i + 1] == balances[i + 1]);
            assert(balances[i + 1] == collateral_step(balances[i], events[i]));
        }
        lemma_collateral_balance(bs, es);
        assert(bs.last() == balances[n]);
        assert(balances[n + 1] == collateral_step(balances[n], events[n]));
        assert(collateral_event_allowed(balances[n], events[n]));
    }
}

/// Refreshing a lock twice in succession, with nothing in between, leaves
/// the same status as refreshing it once.
pub proof fn lemma_unlock_idempotent(s: StakingAccount, now: i64)
    ensures
        after_unlock(after_unlock(s, now), now) == after_unlock(s, now),
{
}

/// A locked position can be withdrawn from at exactly its lock expiry.
pub proof fn lemma_withdraw_at_expiry(s: StakingAccount, user: Address, amount: u64)
    requires
        s.owner@ == user@,
        s.status == STATUS_LOCKED,
        amount <= s.amount_staked,
    ensures
        withdraw_error(s, user, amount, s.lock_period_end) is None,
{
}

} // verus!
