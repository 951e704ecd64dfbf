//! Card tiers: installment rules, annual fees, card records and the upgrade
//! decision.
use vstd::prelude::*;
use crate::constants::{
    CardConfig, get_card_config, spec_card_config, CARD_STANDARD, CARD_SILVER, CARD_GOLD,
    CARD_PLATINUM,
};
use crate::address::Address;
use crate::error::{FlexfiError, ProgramError};

verus! {

/// Whether `installments` is one of the counts listed for the card tier;
/// zero entries of the list are unused and allow nothing.
pub open spec fn spec_installment_allowed(card_type: u8, installments: u8) -> bool {
    installments != 0 && spec_card_config(card_type).available_installments@.contains(installments)
}

pub fn is_installment_allowed_for_card(card_type: u8, installment: u8) -> (r: bool)
    ensures
        r == spec_installment_allowed(card_type, installment),
{
    if installment == 0 {
        return false;
    }
    let card_config = get_card_config(card_type);
    let mut i: usize = 0;
    while i < 4
        invariant
            i <= 4,
            installment != 0,
            card_config == spec_card_config(card_type),
            forall|j: int| 0 <= j < i ==> card_config.available_installments@[j] != installment,
        decreases 4 - i,
    {
        if card_config.available_installments[i] == installment {
            proof {
                assert(card_config.available_installments@[i as int] == installment);
            }
            return true;
        }
        i = i + 1;
    }
    proof {
        assert(!card_config.available_installments@.contains(installment));
    }
    false
}

pub fn get_max_installments_for_card(card_type: u8) -> (r: u8)
    ensures
        r == spec_card_config(card_type).max_installments,
{
    let card_config = get_card_config(card_type);
    card_config.max_installments
}

/// Annual fee of a card tier, in token base units.
pub open spec fn spec_card_annual_fee(card_type: u8) -> u64 {
    if card_type == CARD_STANDARD {
        0
    } else if card_type == CARD_SILVER {
        50_000_000
    } else if card_type == CARD_GOLD {
        150_000_000
    } else {
        300_000_000
    }
}

/// The annual fee of a known card tier; an unknown tier is an invalid argument.
pub fn get_card_annual_fee(card_type: u8) -> (r: Result<u64, ProgramError>)
    ensures
        card_type <= CARD_PLATINUM ==> r == Ok::<u64, ProgramError>(spec_card_annual_fee(card_type)),
        card_type > CARD_PLATINUM ==> r == Err::<u64, ProgramError>(ProgramError::InvalidArgument),
{
    match card_type {
        CARD_STANDARD => Ok(0),
        CARD_SILVER => Ok(50_000_000),
        CARD_GOLD => Ok(150_000_000),
        CARD_PLATINUM => Ok(300_000_000),
        _ => Err(ProgramError::InvalidArgument),
    }
}

pub const SECONDS_PER_YEAR: i64 = 365 * 86400;
/// Validity of a card from issue, in seconds.
pub const CARD_VALIDITY: i64 = 3 * 365 * 86400;

/// A user's wallet record, holding the tier of their card.
#[derive(Debug, Clone, Copy)]
pub struct WalletAccount {
    pub owner: Address,
    pub is_active: bool,
    pub card_type: u8,
    pub created_at: i64,
    pub bump: u8,
}

impl WalletAccount {
    pub const SIZE: usize = 43;

    /// An active wallet for `owner` with a card of tier `card_type`; an
    /// unknown tier is rejected.
    pub fn new(owner: Address, card_type: u8, created_at: i64, bump: u8) -> (r: Result<WalletAccount, ProgramError>)
        ensures
            card_type > CARD_PLATINUM ==> r == Err::<WalletAccount, ProgramError>(ProgramError::Custom(FlexfiError::InvalidCardType)),
            card_type <= CARD_PLATINUM ==> r == Ok::<WalletAccount, ProgramError>(
                WalletAccount { owner, is_active: true, card_type, created_at, bump },
            ),
    {
        if card_type > CARD_PLATINUM {
            return Err(ProgramError::Custom(FlexfiError::InvalidCardType));
        }
        Ok(WalletAccount { owner, is_active: true, card_type, created_at, bump })
    }

    /// Marks the wallet active or inactive on behalf of its owner.
    pub fn set_active(&mut self, user: &Address, active: bool) -> (r: Result<(), ProgramError>)
        ensures
            old(self).owner@ == user@ ==> r is Ok && *final(self) == (WalletAccount { is_active: active, ..*old(self) }),
            old(self).owner@ != user@ ==> r == Err::<(), ProgramError>(ProgramError::Custom(FlexfiError::Unauthorized))
                && *final(self) == *old(self),
    {
        if !self.owner.same_as(user) {
            return Err(ProgramError::Custom(FlexfiError::Unauthorized));
        }
        self.is_active = active;
        Ok(())
    }
}

/// A card record: tier, validity and how long its annual fee is paid for.
#[derive(Debug, Clone, Copy)]
pub struct CardAccount {
    pub owner: Address,
    pub card_type: u8,
    pub issued_at: i64,
    pub expires_at: i64,
    pub is_active: bool,
    pub annual_fee_paid_until: i64,
    pub bump: u8,
}

impl CardAccount {
    pub const SIZE: usize = 59;

    /// A card issued at `issued_at`, valid for three years, with its first
    /// year's fee paid.
    pub fn new(owner: Address, card_type: u8, issued_at: i64, bump: u8) -> (r: CardAccount)
        requires
            issued_at <= i64::MAX - CARD_VALIDITY,
        ensures
            r == (CardAccount {
                owner,
                card_type,
                issued_at,
                expires_at: (issued_at + CARD_VALIDITY) as i64,
                is_active: true,
                annual_fee_paid_until: (issued_at + SECONDS_PER_YEAR) as i64,
                bump,
            }),
    {
        CardAccount {
            owner,
            card_type,
            issued_at,
            expires_at: issued_at + CARD_VALIDITY,
            is_active: true,
            annual_fee_paid_until: issued_at + SECONDS_PER_YEAR,
            bump,
        }
    }

    pub fn is_expired(&self, current_time: i64) -> (r: bool)
        ensures
            r == (current_time >= self.expires_at),
    {
        current_time >= self.expires_at
    }

    pub fn is_fee_due(&self, current_time: i64) -> (r: bool)
        ensures
            r == (current_time >= self.annual_fee_paid_until),
    {
        current_time >= self.annual_fee_paid_until
    }

    /// Records a year's fee paid from `current_time`.
    pub fn pay_annual_fee(&mut self, current_time: i64)
        requires
            current_time <= i64::MAX - SECONDS_PER_YEAR,
        ensures
            *final(self) == (CardAccount {
                annual_fee_paid_until: (current_time + SECONDS_PER_YEAR) as i64,
                ..*old(self)
            }),
    {
        self.annual_fee_paid_until = current_time + SECONDS_PER_YEAR;
    }
}

/// Why `user` may not upgrade the card of `wallet` to `new_card_type`, if
/// they may not.
pub open spec fn upgrade_error(wallet: WalletAccount, card: Option<CardAccount>, user: Address, new_card_type: u8, now: i64) -> Option<ProgramError> {
    if new_card_type > CARD_PLATINUM {
        Some(ProgramError::Custom(FlexfiError::InvalidCardType))
    } else if wallet.owner@ != user@ {
        Some(ProgramError::Custom(FlexfiError::Unauthorized))
    } else if !wallet.is_active {
        Some(ProgramError::Custom(FlexfiError::WalletInactive))
    } else if wallet.card_type == new_card_type {
        Some(ProgramError::Custom(FlexfiError::AlreadyAtThisLevel))
    } else if wallet.card_type > new_card_type {
        Some(ProgramError::InvalidArgument)
    } else if card matches Some(c) && c.owner@ != user@ {
        Some(ProgramError::Custom(FlexfiError::Unauthorized))
    } else if now > i64::MAX - CARD_VALIDITY {
        Some(ProgramError::Custom(FlexfiError::MathOverflow))
    } else {
        None
    }
}

/// Card tier changes.
pub struct CardManager;

impl CardManager {
    /// Upgrades the card of `user` to the higher tier `new_card_type` at
    /// `now`. Returns the card record after the upgrade (the existing one
    /// updated, or a new one) and the fee to collect: the difference of the
    /// two tiers' annual fees. The wallet changes only on success.
    pub fn upgrade_card(
        wallet: &mut WalletAccount,
        card: Option<CardAccount>,
        user: &Address,
        new_card_type: u8,
        now: i64,
        bump: u8,
    ) -> (r: Result<(CardAccount, u64), ProgramError>)
        ensures
            match upgrade_error(*old(wallet), card, *user, new_card_type, now) {
                Some(e) => r == Err::<(CardAccount, u64), ProgramError>(e) && *final(wallet) == *old(wallet),
                None => r matches Ok((c, fee)) && {
                    &&& *final(wallet) == (WalletAccount { card_type: new_card_type, ..*old(wallet) })
                    &&& fee == spec_card_annual_fee(new_card_type) - spec_card_annual_fee(old(wallet).card_type)
                    &&& match card {
                        Some(old_c) => c == (CardAccount {
                            card_type: new_card_type,
                            annual_fee_paid_until: (now + SECONDS_PER_YEAR) as i64,
                            ..old_c
                        }),
                        None => c == (CardAccount {
                            owner: *user,
                            card_type: new_card_type,
                            issued_at: now,
                            expires_at: (now + CARD_VALIDITY) as i64,
                            is_active: true,
                            annual_fee_paid_until: (now + SECONDS_PER_YEAR) as i64,
                            bump,
                        }),
                    }
                },
            },
    {
        if new_card_type > CARD_PLATINUM {
            return Err(ProgramError::Custom(FlexfiError::InvalidCardType));
        }
        if !wallet.owner.same_as(user) {
            return Err(ProgramError::Custom(FlexfiError::Unauthorized));
        }
        if !wallet.is_active {
            return Err(ProgramError::Custom(FlexfiError::WalletInactive));
        }
        if wallet.card_type == new_card_type {
            return Err(ProgramError::Custom(FlexfiError::AlreadyAtThisLevel));
        }
        if wallet.card_type > new_card_type {
            return Err(ProgramError::InvalidArgument);
        }
        let current_fee = get_card_annual_fee(wallet.card_type)?;
        let new_fee = get_card_annual_fee(new_card_type)?;
        let upgrade_fee = new_fee.saturating_sub(current_fee);
        let updated = match card {
            Some(c) => {
                if !c.owner.same_as(user) {
                    return Err(ProgramError::Custom(FlexfiError::Unauthorized));
                }
                if now > i64::MAX - CARD_VALIDITY {
                    return Err(ProgramError::Custom(FlexfiError::MathOverflow));
                }
                let mut c2 = c;
                c2.card_type = new_card_type;
                c2.annual_fee_paid_until = now + SECONDS_PER_YEAR;
                c2
            },
            None => {
                if now > i64::MAX - CARD_VALIDITY {
                    return Err(ProgramError::Custom(FlexfiError::MathOverflow));
                }
                CardAccount::new(*user, new_card_type, now, bump)
            },
        };
        wallet.card_type = new_card_type;
        Ok((updated, upgrade_fee))
    }
}

} // verus!
