//! The yield tracker: earned yield routed to a strategy, and the claimable
//! balance, never claimed twice.
use vstd::prelude::*;
use crate::address::Address;
use crate::error::{FlexfiError, ProgramError};
use crate::staking::{saturating_add_u64, saturating_sub_u64};

verus! {

#[derive(Debug, Clone, Copy, PartialEq, Eq, Structural)]
pub enum YieldStrategy {
    AutoCompound,
    StableCoin,
    HighYield,
    RealWorldAssets,
    Custom,
}

pub open spec fn strategy_code(s: YieldStrategy) -> u8 {
    match s {
        YieldStrategy::AutoCompound => 0,
        YieldStrategy::StableCoin => 1,
        YieldStrategy::HighYield => 2,
        YieldStrategy::RealWorldAssets => 3,
        YieldStrategy::Custom => 4,
    }
}

pub const STRATEGY_CUSTOM: u8 = 4;
/// Claims below this amount are reinvested when auto-reinvest is on.
pub const REINVEST_THRESHOLD: u64 = 1_000_000;

impl YieldStrategy {
    pub fn to_u8(&self) -> (r: u8)
        ensures
            r == strategy_code(*self),
    {
        match self {
            YieldStrategy::AutoCompound => 0,
            YieldStrategy::StableCoin => 1,
            YieldStrategy::HighYield => 2,
            YieldStrategy::RealWorldAssets => 3,
            YieldStrategy::Custom => 4,
        }
    }

    pub fn from_u8(value: u8) -> (r: Result<YieldStrategy, ProgramError>)
        ensures
            match r {
                Ok(s) => value <= 4 && strategy_code(s) == value,
                Err(e) => value > 4 && e == ProgramError::InvalidAccountData,
            },
    {
        match value {
            0 => Ok(YieldStrategy::AutoCompound),
            1 => Ok(YieldStrategy::StableCoin),
            2 => Ok(YieldStrategy::HighYield),
            3 => Ok(YieldStrategy::RealWorldAssets),
            4 => Ok(YieldStrategy::Custom),
            _ => Err(ProgramError::InvalidAccountData),
        }
    }
}

/// A user's yield position; `strategy` holds the code of a `YieldStrategy`.
#[derive(Debug, Clone, Copy)]
pub struct YieldAccount {
    pub owner: Address,
    pub strategy: u8,
    pub custom_strategy_address: Address,
    pub auto_reinvest: bool,
    pub total_yield_earned: u64,
    pub total_yield_claimed: u64,
    pub last_yield_claimed: i64,
    pub created_at: i64,
    pub bump: u8,
}

impl YieldAccount {
    pub const SIZE: usize = 99;

    /// Nothing is claimed that was not earned.
    pub open spec fn wf(&self) -> bool {
        self.total_yield_claimed <= self.total_yield_earned
    }

    pub open spec fn unclaimed(&self) -> u64 {
        saturating_sub_u64(self.total_yield_earned, self.total_yield_claimed)
    }

    pub fn new(
        owner: Address,
        strategy: YieldStrategy,
        custom_strategy_address: Address,
        auto_reinvest: bool,
        created_at: i64,
        bump: u8,
    ) -> (r: YieldAccount)
        ensures
            r == (YieldAccount {
                owner,
                strategy: strategy_code(strategy),
                custom_strategy_address,
                auto_reinvest,
                total_yield_earned: 0,
                total_yield_claimed: 0,
                last_yield_claimed: created_at,
                created_at,
                bump,
            }),
            r.wf(),
    {
        YieldAccount {
            owner,
            strategy: strategy.to_u8(),
            custom_strategy_address,
            auto_reinvest,
            total_yield_earned: 0,
            total_yield_claimed: 0,
            last_yield_claimed: created_at,
            created_at,
            bump,
        }
    }

    pub fn get_strategy(&self) -> (r: Result<YieldStrategy, ProgramError>)
        ensures
            match r {
                Ok(s) => self.strategy <= 4 && strategy_code(s) == self.strategy,
                Err(e) => self.strategy > 4 && e == ProgramError::InvalidAccountData,
            },
    {
        YieldStrategy::from_u8(self.strategy)
    }

    pub fn set_strategy(&mut self, strategy: YieldStrategy)
        ensures
            *final(self) == (YieldAccount { strategy: strategy_code(strategy), ..*old(self) }),
    {
        self.strategy = strategy.to_u8();
    }

    /// Adds `amount` to the yield earned, saturating.
    pub fn record_yield_earned(&mut self, amount: u64)
        ensures
            *final(self) == (YieldAccount {
                total_yield_earned: saturating_add_u64(old(self).total_yield_earned, amount),
                ..*old(self)
            }),
            old(self).wf() ==> final(self).wf(),
    {
        self.total_yield_earned = self.total_yield_earned.saturating_add(amount);
    }

    /// Records `amount` claimed at `current_time`; more than is unclaimed
    /// is refused and changes nothing.
    pub fn record_yield_claimed(&mut self, amount: u64, current_time: i64) -> (r: Result<(), ProgramError>)
        ensures
            amount > old(self).unclaimed() ==> r == Err::<(), ProgramError>(ProgramError::InsufficientFunds)
                && *final(self) == *old(self),
            amount <= old(self).unclaimed() ==> r is Ok && *final(self) == (YieldAccount {
                total_yield_claimed: saturating_add_u64(old(self).total_yield_claimed, amount),
                last_yield_claimed: current_time,
                ..*old(self)
            }),
            old(self).wf() ==> final(self).wf(),
    {
        if amount > self.get_unclaimed_yield() {
            return Err(ProgramError::InsufficientFunds);
        }
        self.total_yield_claimed = self.total_yield_claimed.saturating_add(amount);
        self.last_yield_claimed = current_time;
        Ok(())
    }

    /// Earned minus claimed, never below zero.
    pub fn get_unclaimed_yield(&self) -> (r: u64)
        ensures
            r == self.unclaimed(),
    {
        self.total_yield_earned.saturating_sub(self.total_yield_claimed)
    }
}

/// The address a strategy routes to: the given one for a custom strategy,
/// the zero address for the others.
pub open spec fn strategy_address(strategy: u8, custom: Address) -> Seq<u8> {
    if strategy == STRATEGY_CUSTOM { custom@ } else { Seq::new(32, |_i: int| 0u8) }
}

/// Choosing and using a yield strategy.
pub struct YieldRouter;

impl YieldRouter {
    /// Sets the strategy of `user`'s yield position, creating the position
    /// when there is none. A custom strategy needs a non-zero address; the
    /// other strategies keep the zero address.
    pub fn set_yield_strategy(
        existing: Option<YieldAccount>,
        user: &Address,
        strategy: u8,
        custom_strategy_address: &Address,
        auto_reinvest: bool,
        now: i64,
        bump: u8,
    ) -> (r: Result<YieldAccount, ProgramError>)
        ensures
            strategy > 4 ==> r == Err::<YieldAccount, ProgramError>(ProgramError::InvalidAccountData),
            strategy == STRATEGY_CUSTOM && custom_strategy_address@ == Seq::new(32, |_i: int| 0u8)
                ==> r == Err::<YieldAccount, ProgramError>(ProgramError::InvalidArgument),
            strategy <= 4 && !(strategy == STRATEGY_CUSTOM && custom_strategy_address@ == Seq::new(32, |_i: int| 0u8))
                ==> match existing {
                Some(y) => if y.owner@ != user@ {
                    r == Err::<YieldAccount, ProgramError>(ProgramError::Custom(FlexfiError::Unauthorized))
                } else {
                    r matches Ok(n) && n.strategy == strategy
                        && n.custom_strategy_address@ == strategy_address(strategy, *custom_strategy_address)
                        && n == (YieldAccount {
                            strategy,
                            custom_strategy_address: n.custom_strategy_address,
                            auto_reinvest,
                            ..y
                        })
                },
                None => r matches Ok(n) && n.strategy == strategy
                    && n.custom_strategy_address@ == strategy_address(strategy, *custom_strategy_address)
                    && n == (YieldAccount {
                        owner: *user,
                        strategy,
                        custom_strategy_address: n.custom_strategy_address,
                        auto_reinvest,
                        total_yield_earned: 0,
                        total_yield_claimed: 0,
                        last_yield_claimed: now,
                        created_at: now,
                        bump,
                    }),
            },
    {
        let yield_strategy = YieldStrategy::from_u8(strategy)?;
        let custom = if yield_strategy == YieldStrategy::Custom {
            *custom_strategy_address
        } else {
            Address::zero()
        };
        if yield_strategy == YieldStrategy::Custom && custom.is_zero() {
            return Err(ProgramError::InvalidArgument);
        }
        match existing {
            Some(y) => {
                if !y.owner.same_as(user) {
                    return Err(ProgramError::Custom(FlexfiError::Unauthorized));
                }
                let mut updated = y;
                updated.set_strategy(yield_strategy);
                updated.custom_strategy_address = custom;
                updated.auto_reinvest = auto_reinvest;
                Ok(updated)
            },
            None => Ok(YieldAccount::new(*user, yield_strategy, custom, auto_reinvest, now, bump)),
        }
    }

    /// Records `amount` of yield routed by `user` to their strategy at
    /// `now`; the caller moves `amount` to the strategy on success.
    pub fn route_yield(position: &mut YieldAccount, user: &Address, amount: u64, now: i64) -> (r: Result<(), ProgramError>)
        ensures
            old(position).owner@ != user@ ==> r == Err::<(), ProgramError>(ProgramError::Custom(FlexfiError::Unauthorized)),
            old(position).owner@ == user@ && old(position).strategy > 4 ==> r == Err::<(), ProgramError>(
                ProgramError::InvalidAccountData,
            ),
            old(position).owner@ == user@ && old(position).strategy <= 4 ==> r is Ok && *final(position) == (YieldAccount {
                total_yield_earned: saturating_add_u64(old(position).total_yield_earned, amount),
                last_yield_claimed: now,
                ..*old(position)
            }),
            r is Err ==> *final(position) == *old(position),
            old(position).wf() ==> final(position).wf(),
    {
        if !position.owner.same_as(user) {
            return Err(ProgramError::Custom(FlexfiError::Unauthorized));
        }
        let _strategy = position.get_strategy()?;
        position.record_yield_earned(amount);
        position.last_yield_claimed = now;
        Ok(())
    }
}

/// How a claim was settled.
#[derive(Debug, Clone, Copy, PartialEq, Eq, Structural)]
pub enum ClaimOutcome {
    /// The amount went back into the position; nothing leaves custody.
    Reinvested,
    /// The amount must move from the yield vault to the user.
    Transfer { amount: u64 },
}

/// Claims of earned yield.
pub struct YieldTracker;

impl YieldTracker {
    /// Claims `amount` of unclaimed yield for `user` at `now`. With
    /// auto-reinvest on and an amount below `REINVEST_THRESHOLD`, the amount
    /// counts as claimed and is earned again, with no transfer; otherwise it
    /// is claimed and must be transferred. Nothing changes on rejection.
    pub fn claim_yield(position: &mut YieldAccount, user: &Address, amount: u64, now: i64) -> (r: Result<ClaimOutcome, ProgramError>)
        ensures
            old(position).owner@ != user@ ==> r == Err::<ClaimOutcome, ProgramError>(ProgramError::Custom(FlexfiError::Unauthorized)),
            old(position).owner@ == user@ && amount > old(position).unclaimed() ==> r == Err::<ClaimOutcome, ProgramError>(
                ProgramError::Custom(FlexfiError::NoYieldToClaim),
            ),
            old(position).owner@ == user@ && amount <= old(position).unclaimed() && old(position).auto_reinvest
                && amount < REINVEST_THRESHOLD ==> r == Ok::<ClaimOutcome, ProgramError>(ClaimOutcome::Reinvested)
                && *final(position) == (YieldAccount {
                total_yield_claimed: saturating_add_u64(old(position).total_yield_claimed, amount),
                total_yield_earned: saturating_add_u64(old(position).total_yield_earned, amount),
                last_yield_claimed: now,
                ..*old(position)
            }),
            old(position).owner@ == user@ && amount <= old(position).unclaimed() && !(old(position).auto_reinvest
                && amount < REINVEST_THRESHOLD) ==> r == Ok::<ClaimOutcome, ProgramError>(ClaimOutcome::Transfer { amount })
                && *final(position) == (YieldAccount {
                total_yield_claimed: saturating_add_u64(old(position).total_yield_claimed, amount),
                last_yield_claimed: now,
                ..*old(position)
            }),
            r is Err ==> *final(position) == *old(position),
            old(position).wf() ==> final(position).wf(),
    {
        if !position.owner.same_as(user) {
            return Err(ProgramError::Custom(FlexfiError::Unauthorized));
        }
        let unclaimed_yield = position.get_unclaimed_yield();
        if amount > unclaimed_yield {
            return Err(ProgramError::Custom(FlexfiError::NoYieldToClaim));
        }
        if position.auto_reinvest && amount < REINVEST_THRESHOLD {
            position.record_yield_claimed(amount, now)?;
            position.record_yield_earned(amount);
            Ok(ClaimOutcome::Reinvested)
        } else {
            position.record_yield_claimed(amount, now)?;
            Ok(ClaimOutcome::Transfer { amount })
        }
    }

    /// The unclaimed yield of `user`'s own position.
    pub fn get_unclaimed(position: &YieldAccount, user: &Address) -> (r: Result<u64, ProgramError>)
        ensures
            position.owner@ == user@ ==> r == Ok::<u64, ProgramError>(position.unclaimed()),
            position.owner@ != user@ ==> r == Err::<u64, ProgramError>(ProgramError::Custom(FlexfiError::Unauthorized)),
    {
        if !position.owner.same_as(user) {
            return Err(ProgramError::Custom(FlexfiError::Unauthorized));
        }
        Ok(position.get_unclaimed_yield())
    }
}

} // verus!
