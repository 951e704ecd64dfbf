//! Benefit NFTs: their records, attachment to a card, and the perks, fee
//! reductions and credit boosts that a tier and level grant.
use vstd::prelude::*;
use crate::address::Address;
use crate::constants::{NFT_NONE, NFT_BRONZE, NFT_GOLD, SECONDS_PER_DAY};
use crate::error::{FlexfiError, ProgramError};

verus! {

#[derive(Debug, Clone, Copy, PartialEq, Eq, Structural)]
pub enum NFTType {
    NoNft,
    Bronze,
    Silver,
    Gold,
}

pub open spec fn nft_type_code(t: NFTType) -> u8 {
    match t {
        NFTType::NoNft => 0,
        NFTType::Bronze => 1,
        NFTType::Silver => 2,
        NFTType::Gold => 3,
    }
}

impl NFTType {
    pub fn to_u8(&self) -> (r: u8)
        ensures
            r == nft_type_code(*self),
    {
        match self {
            NFTType::NoNft => 0,
            NFTType::Bronze => 1,
            NFTType::Silver => 2,
            NFTType::Gold => 3,
        }
    }

    pub fn from_u8(value: u8) -> (r: Result<NFTType, ProgramError>)
        ensures
            match r {
                Ok(t) => value <= 3 && nft_type_code(t) == value,
                Err(e) => value > 3 && e == ProgramError::InvalidAccountData,
            },
    {
        match value {
            0 => Ok(NFTType::NoNft),
            1 => Ok(NFTType::Bronze),
            2 => Ok(NFTType::Silver),
            3 => Ok(NFTType::Gold),
            _ => Err(ProgramError::InvalidAccountData),
        }
    }
}

/// The record of one minted benefit NFT; `nft_type` holds the code of an
/// `NFTType`.
#[derive(Debug, Clone, Copy)]
pub struct NFTMetadataAccount {
    pub mint: Address,
    pub owner: Address,
    pub nft_type: u8,
    pub level: u8,
    pub duration_days: u16,
    pub creation_time: i64,
    pub expiry_time: i64,
    pub is_active: bool,
    pub bump: u8,
}

/// An NFT attached to a card.
#[derive(Debug, Clone, Copy)]
pub struct NFTAttachmentAccount {
    pub nft_mint: Address,
    pub user_wallet: Address,
    pub card_id: [u8; 32],
    pub attached_at: i64,
    pub is_active: bool,
    pub bump: u8,
}

/// `a + b`, held within the range of `i64`.
pub open spec fn saturating_add_i64(a: i64, b: int) -> i64 {
    if a + b > i64::MAX {
        i64::MAX
    } else if a + b < i64::MIN {
        i64::MIN
    } else {
        (a + b) as i64
    }
}

impl NFTMetadataAccount {
    pub const SIZE: usize = 86;

    pub fn new(
        mint: Address,
        owner: Address,
        nft_type: NFTType,
        level: u8,
        duration_days: u16,
        creation_time: i64,
        bump: u8,
    ) -> (r: NFTMetadataAccount)
        requires
            creation_time + duration_days * SECONDS_PER_DAY <= i64::MAX,
        ensures
            r == (NFTMetadataAccount {
                mint,
                owner,
                nft_type: nft_type_code(nft_type),
                level,
                duration_days,
                creation_time,
                expiry_time: (creation_time + duration_days * SECONDS_PER_DAY) as i64,
                is_active: true,
                bump,
            }),
    {
        let expiry_time = creation_time + duration_days as i64 * SECONDS_PER_DAY;
        NFTMetadataAccount {
            mint,
            owner,
            nft_type: nft_type.to_u8(),
            level,
            duration_days,
            creation_time,
            expiry_time,
            is_active: true,
            bump,
        }
    }

    pub fn get_nft_type(&self) -> (r: Result<NFTType, ProgramError>)
        ensures
            match r {
                Ok(t) => self.nft_type <= 3 && nft_type_code(t) == self.nft_type,
                Err(e) => self.nft_type > 3 && e == ProgramError::InvalidAccountData,
            },
    {
        NFTType::from_u8(self.nft_type)
    }

    pub fn is_expired(&self, current_time: i64) -> (r: bool)
        ensures
            r == (current_time >= self.expiry_time),
    {
        current_time >= self.expiry_time
    }

    /// Lengthens the NFT's validity by `additional_days`, saturating.
    pub fn extend_duration(&mut self, additional_days: u16)
        ensures
            *final(self) == (NFTMetadataAccount {
                duration_days: if old(self).duration_days + additional_days > u16::MAX {
                    u16::MAX
                } else {
                    (old(self).duration_days + additional_days) as u16
                },
                expiry_time: saturating_add_i64(old(self).expiry_time, additional_days * SECONDS_PER_DAY),
                ..*old(self)
            }),
    {
        self.duration_days = self.duration_days.saturating_add(additional_days);
        let extension = additional_days as i64 * SECONDS_PER_DAY;
        self.expiry_time = if self.expiry_time > i64::MAX - extension {
            i64::MAX
        } else {
            self.expiry_time + extension
        };
    }

    /// Active and not expired at `now`.
    pub open spec fn usable_at(&self, now: i64) -> bool {
        self.is_active && now < self.expiry_time
    }
}

impl NFTAttachmentAccount {
    pub const SIZE: usize = 106;

    pub fn new(
        nft_mint: Address,
        user_wallet: Address,
        card_id: [u8; 32],
        attached_at: i64,
        bump: u8,
    ) -> (r: NFTAttachmentAccount)
        ensures
            r == (NFTAttachmentAccount { nft_mint, user_wallet, card_id, attached_at, is_active: true, bump }),
    {
        NFTAttachmentAccount { nft_mint, user_wallet, card_id, attached_at, is_active: true, bump }
    }
}

/// Validity of a newly minted NFT, in days.
pub const NFT_DURATION_DAYS: u16 = 365;
/// Price of one extra day of validity, in token base units.
pub const NFT_EXTENSION_PRICE_PER_DAY: u64 = 1_000_000;

/// Minting of benefit NFTs.
pub struct NFTMinter;

impl NFTMinter {
    /// The record of an NFT of tier `nft_type` (bronze to gold) minted at
    /// `now`: level one, valid for a year. The caller mints the token and
    /// collects `NFT_MINT_COST` when this succeeds.
    pub fn mint_nft(mint: Address, owner: Address, nft_type: u8, now: i64, bump: u8) -> (r: Result<NFTMetadataAccount, ProgramError>)
        ensures
            (nft_type < NFT_BRONZE || nft_type > NFT_GOLD) ==> r == Err::<NFTMetadataAccount, ProgramError>(
                ProgramError::Custom(FlexfiError::InvalidNFTType),
            ),
            NFT_BRONZE <= nft_type <= NFT_GOLD && now + NFT_DURATION_DAYS * SECONDS_PER_DAY > i64::MAX
                ==> r == Err::<NFTMetadataAccount, ProgramError>(ProgramError::Custom(FlexfiError::MathOverflow)),
            NFT_BRONZE <= nft_type <= NFT_GOLD && now + NFT_DURATION_DAYS * SECONDS_PER_DAY <= i64::MAX
                ==> r == Ok::<NFTMetadataAccount, ProgramError>(NFTMetadataAccount {
                mint,
                owner,
                nft_type,
                level: 1,
                duration_days: NFT_DURATION_DAYS,
                creation_time: now,
                expiry_time: (now + NFT_DURATION_DAYS * SECONDS_PER_DAY) as i64,
                is_active: true,
                bump,
            }),
    {
        if nft_type < NFT_BRONZE || nft_type > NFT_GOLD {
            return Err(ProgramError::Custom(FlexfiError::InvalidNFTType));
        }
        if now > i64::MAX - NFT_DURATION_DAYS as i64 * SECONDS_PER_DAY {
            return Err(ProgramError::Custom(FlexfiError::MathOverflow));
        }
        let t = NFTType::from_u8(nft_type)?;
        Ok(NFTMetadataAccount::new(mint, owner, t, 1, NFT_DURATION_DAYS, now, bump))
    }

    /// Whether the NFT can be used at `now`.
    pub fn is_nft_active(metadata: &NFTMetadataAccount, now: i64) -> (r: bool)
        ensures
            r == metadata.usable_at(now),
    {
        metadata.is_active && !metadata.is_expired(now)
    }

    /// Extends the NFT by `additional_days` on behalf of its owner and
    /// reactivates it; returns the price to collect (one token per day,
    /// saturating).
    pub fn extend_nft_duration(metadata: &mut NFTMetadataAccount, owner: &Address, additional_days: u16) -> (r: Result<u64, ProgramError>)
        ensures
            old(metadata).owner@ != owner@ ==> r == Err::<u64, ProgramError>(ProgramError::Custom(FlexfiError::Unauthorized))
                && *final(metadata) == *old(metadata),
            old(metadata).owner@ == owner@ ==> r == Ok::<u64, ProgramError>((additional_days * NFT_EXTENSION_PRICE_PER_DAY) as u64)
                && *final(metadata) == (NFTMetadataAccount {
                duration_days: if old(metadata).duration_days + additional_days > u16::MAX {
                    u16::MAX
                } else {
                    (old(metadata).duration_days + additional_days) as u16
                },
                expiry_time: saturating_add_i64(old(metadata).expiry_time, additional_days * SECONDS_PER_DAY),
                is_active: true,
                ..*old(metadata)
            }),
    {
        if !metadata.owner.same_as(owner) {
            return Err(ProgramError::Custom(FlexfiError::Unauthorized));
        }
        let cost = (additional_days as u64) * NFT_EXTENSION_PRICE_PER_DAY;
        metadata.extend_duration(additional_days);
        metadata.is_active = true;
        Ok(cost)
    }
}

/// Attachment of NFTs to cards.
pub struct NFTAttacher;

impl NFTAttacher {
    /// Attaches the NFT described by `metadata` to card `card_id` for
    /// `user`, who must own it; the NFT must be usable at `now`.
    pub fn attach_nft(
        metadata: &NFTMetadataAccount,
        nft_mint: Address,
        user: Address,
        card_id: [u8; 32],
        now: i64,
        bump: u8,
    ) -> (r: Result<NFTAttachmentAccount, ProgramError>)
        ensures
            metadata.owner@ != user@ ==> r == Err::<NFTAttachmentAccount, ProgramError>(
                ProgramError::Custom(FlexfiError::Unauthorized),
            ),
            metadata.owner@ == user@ && !metadata.usable_at(now) ==> r == Err::<NFTAttachmentAccount, ProgramError>(
                ProgramError::Custom(FlexfiError::NFTExpired),
            ),
            metadata.owner@ == user@ && metadata.usable_at(now) ==> r == Ok::<NFTAttachmentAccount, ProgramError>(
                NFTAttachmentAccount { nft_mint, user_wallet: user, card_id, attached_at: now, is_active: true, bump },
            ),
    {
        if !metadata.owner.same_as(&user) {
            return Err(ProgramError::Custom(FlexfiError::Unauthorized));
        }
        if !metadata.is_active || metadata.is_expired(now) {
            return Err(ProgramError::Custom(FlexfiError::NFTExpired));
        }
        Ok(NFTAttachmentAccount::new(nft_mint, user, card_id, now, bump))
    }

    /// Detaches an NFT on behalf of the user it was attached for, recording
    /// the time of detachment.
    pub fn detach_nft(attachment: &mut NFTAttachmentAccount, user: &Address, now: i64) -> (r: Result<(), ProgramError>)
        ensures
            old(attachment).user_wallet@ != user@ ==> r == Err::<(), ProgramError>(ProgramError::Custom(FlexfiError::Unauthorized))
                && *final(attachment) == *old(attachment),
            old(attachment).user_wallet@ == user@ ==> r is Ok && *final(attachment) == (NFTAttachmentAccount {
                is_active: false,
                attached_at: now,
                ..*old(attachment)
            }),
    {
        if !attachment.user_wallet.same_as(user) {
            return Err(ProgramError::Custom(FlexfiError::Unauthorized));
        }
        attachment.is_active = false;
        attachment.attached_at = now;
        Ok(())
    }
}

/// The NFT tier that counts for `borrower` at `now`: that of the given NFT
/// when the borrower owns it and it is usable, none otherwise.
pub open spec fn spec_effective_nft_type(nft: Option<NFTMetadataAccount>, borrower: Address, now: i64) -> u8 {
    match nft {
        Some(m) => if m.owner@ == borrower@ && m.usable_at(now) { m.nft_type } else { NFT_NONE },
        None => NFT_NONE,
    }
}

pub fn effective_nft_type(nft: &Option<NFTMetadataAccount>, borrower: &Address, now: i64) -> (r: u8)
    ensures
        r == spec_effective_nft_type(*nft, *borrower, now),
{
    match nft {
        Some(m) => {
            if !m.owner.same_as(borrower) || !m.is_active {
                NFT_NONE
            } else if m.is_expired(now) {
                NFT_NONE
            } else {
                m.nft_type
            }
        },
        None => NFT_NONE,
    }
}

#[derive(Debug, Clone, Copy, PartialEq, Eq, Structural)]
pub enum NFTPerk {
    ReducedFees,
    IncreasedCreditLimit,
    CashbackBoost,
    ExtendedPaymentTerms,
    PriorityProcessing,
    CustomDesign,
    VIP,
}

/// Whether an NFT of tier `t` at `level` grants `perk`.
pub open spec fn perk_enabled(perk: NFTPerk, t: NFTType, level: u8) -> bool {
    match perk {
        NFTPerk::ReducedFees => true,
        NFTPerk::IncreasedCreditLimit => match t {
            NFTType::NoNft => false,
            NFTType::Bronze => level >= 2,
            NFTType::Silver => true,
            NFTType::Gold => true,
        },
        NFTPerk::CashbackBoost => match t {
            NFTType::Gold => level >= 1,
            NFTType::Silver => level >= 3,
            _ => false,
        },
        NFTPerk::ExtendedPaymentTerms => match t {
            NFTType::Silver => level >= 3,
            NFTType::Gold => true,
            _ => false,
        },
        NFTPerk::PriorityProcessing => t == NFTType::Gold && level >= 3,
        NFTPerk::CustomDesign => t == NFTType::Gold,
        NFTPerk::VIP => t == NFTType::Gold && level >= 3,
    }
}

/// Fee reduction in basis points granted by tier `t` at `level`, at most 500.
pub open spec fn fee_reduction(t: NFTType, level: u8) -> u16 {
    let raw: int = match t {
        NFTType::NoNft => 0,
        NFTType::Bronze => level * 50,
        NFTType::Silver => 100 + level * 50,
        NFTType::Gold => 200 + level * 70,
    };
    if raw > 500 { 500 } else { raw as u16 }
}

/// Credit limit boost in basis points granted by tier `t` at `level`.
pub open spec fn credit_limit_boost(t: NFTType, level: u8) -> u16 {
    match t {
        NFTType::NoNft => 0,
        NFTType::Bronze => 0,
        NFTType::Silver => (level * 100) as u16,
        NFTType::Gold => (250 + level * 150) as u16,
    }
}

/// Perk and benefit queries on an attached NFT.
pub struct NFTPerkChecker;

impl NFTPerkChecker {
    /// Whether `perk` is in force for `user` through the NFT `nft_mint`
    /// attached by `attachment`, at `now`. An inactive attachment or an
    /// unusable NFT grants nothing; a mismatched attachment or owner is an
    /// error.
    pub fn check_perk(
        metadata: &NFTMetadataAccount,
        attachment: &NFTAttachmentAccount,
        nft_mint: &Address,
        user: &Address,
        now: i64,
        perk: NFTPerk,
    ) -> (r: Result<bool, ProgramError>)
        ensures
            !attachment.is_active ==> r == Ok::<bool, ProgramError>(false),
            attachment.is_active && !metadata.usable_at(now) ==> r == Ok::<bool, ProgramError>(false),
            attachment.is_active && metadata.usable_at(now) && attachment.nft_mint@ != nft_mint@
                ==> r == Err::<bool, ProgramError>(ProgramError::InvalidAccountData),
            attachment.is_active && metadata.usable_at(now) && attachment.nft_mint@ == nft_mint@
                && metadata.owner@ != user@ ==> r == Err::<bool, ProgramError>(ProgramError::Custom(FlexfiError::Unauthorized)),
            attachment.is_active && metadata.usable_at(now) && attachment.nft_mint@ == nft_mint@
                && metadata.owner@ == user@ ==> match r {
                Ok(b) => exists|t: NFTType| nft_type_code(t) == metadata.nft_type && b == perk_enabled(perk, t, metadata.level),
                Err(e) => metadata.nft_type > 3 && e == ProgramError::InvalidAccountData,
            },
    {
        if !attachment.is_active {
            return Ok(false);
        }
        if !metadata.is_active || metadata.is_expired(now) {
            return Ok(false);
        }
        if !attachment.nft_mint.same_as(nft_mint) {
            return Err(ProgramError::InvalidAccountData);
        }
        if !metadata.owner.same_as(user) {
            return Err(ProgramError::Custom(FlexfiError::Unauthorized));
        }
        let nft_type = metadata.get_nft_type()?;
        let level = metadata.level;
        let enabled = match perk {
            NFTPerk::ReducedFees => true,
            NFTPerk::IncreasedCreditLimit => match nft_type {
                NFTType::NoNft => false,
                NFTType::Bronze => level >= 2,
                NFTType::Silver => true,
                NFTType::Gold => true,
            },
            NFTPerk::CashbackBoost => match nft_type {
                NFTType::Gold => level >= 1,
                NFTType::Silver => level >= 3,
                _ => false,
            },
            NFTPerk::ExtendedPaymentTerms => match nft_type {
                NFTType::Silver => level >= 3,
                NFTType::Gold => true,
                _ => false,
            },
            NFTPerk::PriorityProcessing => nft_type == NFTType::Gold && level >= 3,
            NFTPerk::CustomDesign => nft_type == NFTType::Gold,
            NFTPerk::VIP => nft_type == NFTType::Gold && level >= 3,
        };
        Ok(enabled)
    }

    /// The fee reduction, in basis points, that the NFT grants at `now`:
    /// zero unless both the attachment and the NFT are in force.
    pub fn get_fee_reduction(metadata: &NFTMetadataAccount, attachment: &NFTAttachmentAccount, now: i64) -> (r: Result<u16, ProgramError>)
        ensures
            !(attachment.is_active && metadata.usable_at(now)) ==> r == Ok::<u16, ProgramError>(0),
            attachment.is_active && metadata.usable_at(now) ==> match r {
                Ok(v) => exists|t: NFTType| nft_type_code(t) == metadata.nft_type && v == fee_reduction(t, metadata.level),
                Err(e) => metadata.nft_type > 3 && e == ProgramError::InvalidAccountData,
            },
    {
        if !attachment.is_active || !metadata.is_active {
            return Ok(0);
        }
        if metadata.is_expired(now) {
            return Ok(0);
        }
        let nft_type = metadata.get_nft_type()?;
        let level = metadata.level as u16;
        let reduction: u16 = match nft_type {
            NFTType::NoNft => 0,
            NFTType::Bronze => level * 50,
            NFTType::Silver => 100 + level * 50,
            NFTType::Gold => 200 + level * 70,
        };
        Ok(if reduction > 500 { 500 } else { reduction })
    }

    /// The credit limit boost, in basis points, that the NFT grants at
    /// `now`: zero unless both the attachment and the NFT are in force.
    pub fn get_credit_limit_boost(metadata: &NFTMetadataAccount, attachment: &NFTAttachmentAccount, now: i64) -> (r: Result<u16, ProgramError>)
        ensures
            !(attachment.is_active && metadata.usable_at(now)) ==> r == Ok::<u16, ProgramError>(0),
            attachment.is_active && metadata.usable_at(now) ==> match r {
                Ok(v) => exists|t: NFTType| nft_type_code(t) == metadata.nft_type && v == credit_limit_boost(t, metadata.level),
                Err(e) => metadata.nft_type > 3 && e == ProgramError::InvalidAccountData,
            },
    {
        if !attachment.is_active || !metadata.is_active {
            return Ok(0);
        }
        if metadata.is_expired(now) {
            return Ok(0);
        }
        let nft_type = metadata.get_nft_type()?;
        let level = metadata.level as u16;
        let boost: u16 = match nft_type {
            NFTType::NoNft => 0,
            NFTType::Bronze => 0,
            NFTType::Silver => level * 100,
            NFTType::Gold => 250 + level * 150,
        };
        Ok(boost)
    }
}

} // verus!
