//! Protocol constants and the benefit tier resolver: a total, stateless
//! mapping from card and NFT tiers to fee, APR and limit modifiers.
use vstd::prelude::*;

verus! {

pub const CARD_STANDARD: u8 = 0;
pub const CARD_SILVER: u8 = 1;
pub const CARD_GOLD: u8 = 2;
pub const CARD_PLATINUM: u8 = 3;

pub const NFT_NONE: u8 = 0;
pub const NFT_BRONZE: u8 = 1;
pub const NFT_SILVER: u8 = 2;
pub const NFT_GOLD: u8 = 3;

pub const DEFAULT_FEE_PERCENTAGE: u16 = 700;
pub const MINIMUM_FEE_PERCENTAGE: u16 = 300;
pub const MAXIMUM_FEE_PERCENTAGE: u16 = 700;

/// Price of minting a benefit NFT, in token base units (6 decimals).
pub const NFT_MINT_COST: u64 = 20_000_000;

pub const MIN_BNPL_INSTALLMENTS: u8 = 3;
pub const MAX_BNPL_INSTALLMENTS: u8 = 36;
pub const MIN_PAYMENT_INTERVAL_DAYS: u8 = 15;
pub const MAX_PAYMENT_INTERVAL_DAYS: u8 = 90;
pub const DEFAULT_PAYMENT_INTERVAL_DAYS: u8 = 30;
pub const GRACE_PERIOD_DAYS: u8 = 15;
pub const MAX_BNPL_PER_YEAR: u16 = 5;

pub const MIN_STAKING_AMOUNT: u64 = 10_000_000;
pub const MIN_STAKING_LOCK_DAYS: u16 = 7;
pub const MAX_STAKING_LOCK_DAYS: u16 = 365;

pub const INITIAL_SCORE: u16 = 500;
pub const MIN_SCORE: u16 = 0;
pub const MAX_SCORE: u16 = 1000;
pub const SCORE_INCREASE_ON_TIME_PAYMENT: i16 = 5;
pub const SCORE_DECREASE_LATE_PAYMENT: i16 = -10;
pub const SCORE_DECREASE_DEFAULT: i16 = -50;
pub const SCORE_INCREASE_COMPLETE_CONTRACT: i16 = 20;
/// Penalty applied when a late installment had to be covered from collateral.
pub const SCORE_DECREASE_LATE_WITH_SEIZURE: i16 = -20;

pub const SECONDS_PER_DAY: i64 = 86400;
/// Basis points in one whole (100%).
pub const BPS_DENOMINATOR: u64 = 10000;

/// Benefits attached to one card tier. Rates are in basis points, amounts in
/// token base units.
pub struct CardConfig {
    pub apr_percentage: u16,
    pub bnpl_fee_percentage: u16,
    pub bnpl_fee_12months: u16,
    pub max_installments: u8,
    /// The installment counts this tier allows; a zero entry is unused.
    pub available_installments: [u8; 4],
    pub cashback_percentage: u16,
    pub cashback_limit: u64,
    pub nft_cost: u64,
}

/// The tier table; an unknown card tier resolves to the standard tier.
pub open spec fn spec_card_config(card_type: u8) -> CardConfig {
    if card_type == CARD_SILVER {
        CardConfig {
            apr_percentage: 500,
            bnpl_fee_percentage: 400,
            bnpl_fee_12months: 700,
            max_installments: 12,
            available_installments: [3, 4, 6, 12],
            cashback_percentage: 0,
            cashback_limit: 0,
            nft_cost: 20_000_000,
        }
    } else if card_type == CARD_GOLD {
        CardConfig {
            apr_percentage: 600,
            bnpl_fee_percentage: 350,
            bnpl_fee_12months: 500,
            max_installments: 12,
            available_installments: [3, 4, 6, 12],
            cashback_percentage: 50,
            cashback_limit: 150_000_000,
            nft_cost: 15_000_000,
        }
    } else if card_type == CARD_PLATINUM {
        CardConfig {
            apr_percentage: 700,
            bnpl_fee_percentage: 300,
            bnpl_fee_12months: 300,
            max_installments: 12,
            available_installments: [3, 4, 6, 12],
            cashback_percentage: 150,
            cashback_limit: 300_000_000,
            nft_cost: 0,
        }
    } else {
        CardConfig {
            apr_percentage: 400,
            bnpl_fee_percentage: 700,
            bnpl_fee_12months: 700,
            max_installments: 6,
            available_installments: [3, 4, 6, 0],
            cashback_percentage: 0,
            cashback_limit: 0,
            nft_cost: 0,
        }
    }
}

/// Resolves the benefit configuration of a card tier.
pub fn get_card_config(card_type: u8) -> (r: CardConfig)
    ensures
        r == spec_card_config(card_type),
{
    match card_type {
        CARD_SILVER => CardConfig {
            apr_percentage: 500,
            bnpl_fee_percentage: 400,
            bnpl_fee_12months: 700,
            max_installments: 12,
            available_installments: [3, 4, 6, 12],
            cashback_percentage: 0,
            cashback_limit: 0,
            nft_cost: 20_000_000,
        },
        CARD_GOLD => CardConfig {
            apr_percentage: 600,
            bnpl_fee_percentage: 350,
            bnpl_fee_12months: 500,
            max_installments: 12,
            available_installments: [3, 4, 6, 12],
            cashback_percentage: 50,
            cashback_limit: 150_000_000,
            nft_cost: 15_000_000,
        },
        CARD_PLATINUM => CardConfig {
            apr_percentage: 700,
            bnpl_fee_percentage: 300,
            bnpl_fee_12months: 300,
            max_installments: 12,
            available_installments: [3, 4, 6, 12],
            cashback_percentage: 150,
            cashback_limit: 300_000_000,
            nft_cost: 0,
        },
        _ => CardConfig {
            apr_percentage: 400,
            bnpl_fee_percentage: 700,
            bnpl_fee_12months: 700,
            max_installments: 6,
            available_installments: [3, 4, 6, 0],
            cashback_percentage: 0,
            cashback_limit: 0,
            nft_cost: 0,
        },
    }
}

/// APR bonus, in basis points, granted by an NFT tier.
pub open spec fn spec_nft_apr_bonus(nft_type: u8) -> u16 {
    if nft_type == NFT_BRONZE {
        50
    } else if nft_type == NFT_SILVER {
        150
    } else if nft_type == NFT_GOLD {
        200
    } else {
        0
    }
}

pub fn get_nft_apr_bonus(nft_type: u8) -> (r: u16)
    ensures
        r == spec_nft_apr_bonus(nft_type),
        r <= 200,
{
    match nft_type {
        NFT_BRONZE => 50,
        NFT_SILVER => 150,
        NFT_GOLD => 200,
        _ => 0,
    }
}

/// Late payment penalty, in basis points, for an exact (card, NFT) pair;
/// every other pair pays the maximum of 10%.
pub open spec fn spec_late_payment_penalty(card_type: u8, nft_type: u8) -> u16 {
    if card_type == CARD_SILVER && nft_type == NFT_BRONZE {
        700
    } else if card_type == CARD_SILVER && nft_type == NFT_SILVER {
        600
    } else if card_type == CARD_GOLD && nft_type == NFT_BRONZE {
        500
    } else if card_type == CARD_GOLD && nft_type == NFT_SILVER {
        400
    } else if card_type == CARD_PLATINUM && nft_type == NFT_BRONZE {
        200
    } else if card_type == CARD_PLATINUM && nft_type == NFT_GOLD {
        100
    } else {
        1000
    }
}

pub fn get_late_payment_penalty(card_type: u8, nft_type: u8) -> (r: u16)
    ensures
        r == spec_late_payment_penalty(card_type, nft_type),
        100 <= r <= 1000,
{
    match (card_type, nft_type) {
        (CARD_SILVER, NFT_BRONZE) => 700,
        (CARD_SILVER, NFT_SILVER) => 600,
        (CARD_GOLD, NFT_BRONZE) => 500,
        (CARD_GOLD, NFT_SILVER) => 400,
        (CARD_PLATINUM, NFT_BRONZE) => 200,
        (CARD_PLATINUM, NFT_GOLD) => 100,
        _ => 1000,
    }
}

} // verus!
