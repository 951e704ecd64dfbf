//! The installment loan engine: amortized buy-now-pay-later contracts,
//! their creation against a borrower's tier, and their payments.
use vstd::prelude::*;
use crate::address::Address;
use crate::card::{WalletAccount, spec_installment_allowed, is_installment_allowed_for_card};
use crate::constants::{
    get_card_config, get_nft_apr_bonus, spec_card_config, spec_nft_apr_bonus, MIN_BNPL_INSTALLMENTS,
    MAX_BNPL_INSTALLMENTS, MIN_PAYMENT_INTERVAL_DAYS, MAX_PAYMENT_INTERVAL_DAYS, SECONDS_PER_DAY,
    BPS_DENOMINATOR,
};
use crate::error::{FlexfiError, ProgramError};
use crate::nft::{NFTMetadataAccount, spec_effective_nft_type, effective_nft_type};
use crate::staking::{result_of, StakingAccount, StakingStatus, STATUS_ACTIVE, STATUS_LOCKED, STATUS_FROZEN, STATUS_CLOSED};

verus! {

pub const LOAN_ACTIVE: u8 = 0;
pub const LOAN_COMPLETED: u8 = 1;
pub const LOAN_DEFAULTED: u8 = 2;
pub const LOAN_CANCELLED: u8 = 3;
/// Months in a year: the APR accrues monthly over the installments.
pub const MONTHS_PER_YEAR: u64 = 12;

#[derive(Debug, Clone, Copy, PartialEq, Eq, Structural)]
pub enum BNPLStatus {
    Active,
    Completed,
    Defaulted,
    Cancelled,
}

pub open spec fn loan_status_code(s: BNPLStatus) -> u8 {
    match s {
        BNPLStatus::Active => 0,
        BNPLStatus::Completed => 1,
        BNPLStatus::Defaulted => 2,
        BNPLStatus::Cancelled => 3,
    }
}

impl BNPLStatus {
    pub fn to_u8(&self) -> (r: u8)
        ensures
            r == loan_status_code(*self),
    {
        match self {
            BNPLStatus::Active => 0,
            BNPLStatus::Completed => 1,
            BNPLStatus::Defaulted => 2,
            BNPLStatus::Cancelled => 3,
        }
    }

    pub fn from_u8(value: u8) -> (r: Result<BNPLStatus, ProgramError>)
        ensures
            match r {
                Ok(s) => value <= 3 && loan_status_code(s) == value,
                Err(e) => value > 3 && e == ProgramError::InvalidAccountData,
            },
    {
        match value {
            0 => Ok(BNPLStatus::Active),
            1 => Ok(BNPLStatus::Completed),
            2 => Ok(BNPLStatus::Defaulted),
            3 => Ok(BNPLStatus::Cancelled),
            _ => Err(ProgramError::InvalidAccountData),
        }
    }
}

/// An installment loan. `status` holds the code of a `BNPLStatus`; rates
/// are in basis points; the card and NFT tiers are those at creation.
#[derive(Debug, Clone, Copy)]
pub struct BNPLContractAccount {
    pub borrower: Address,
    pub merchant: Address,
    pub amount: u64,
    pub token_mint: Address,
    pub installments: u8,
    pub paid_installments: u8,
    pub next_payment_due: i64,
    pub payment_interval_days: u8,
    pub amount_per_installment: u64,
    pub status: u8,
    pub created_at: i64,
    pub last_payment_at: i64,
    pub fee_percentage: u16,
    pub apr_percentage: u16,
    pub card_type: u8,
    pub nft_type: u8,
    pub bump: u8,
}

/// The loan after one installment is paid at `now`, or `None` when the
/// counters or the due date would overflow. The last installment completes
/// the loan; any other moves the due date one interval forward.
pub open spec fn after_payment(c: BNPLContractAccount, now: i64) -> Option<BNPLContractAccount> {
    let paid = c.paid_installments + 1;
    let next_due = c.next_payment_due + c.payment_interval_days * SECONDS_PER_DAY;
    if paid > u8::MAX {
        None
    } else if paid >= c.installments {
        Some(BNPLContractAccount {
            paid_installments: paid as u8,
            last_payment_at: now,
            status: LOAN_COMPLETED,
            ..c
        })
    } else if next_due > i64::MAX {
        None
    } else {
        Some(BNPLContractAccount {
            paid_installments: paid as u8,
            last_payment_at: now,
            next_payment_due: next_due as i64,
            ..c
        })
    }
}

impl BNPLContractAccount {
    pub const SIZE: usize = 147;

    /// Installments paid never exceed the installments agreed, and an
    /// active loan still has one to pay.
    pub open spec fn wf(&self) -> bool {
        &&& self.paid_installments <= self.installments
        &&& self.status == LOAN_ACTIVE ==> self.paid_installments < self.installments
    }

    /// The status moves only out of `Active`, never back or sideways.
    pub open spec fn status_follows(&self, next: BNPLContractAccount) -> bool {
        next.status == self.status || self.status == LOAN_ACTIVE
    }

    pub fn new(
        borrower: Address,
        merchant: Address,
        amount: u64,
        token_mint: Address,
        installments: u8,
        payment_interval_days: u8,
        amount_per_installment: u64,
        fee_percentage: u16,
        apr_percentage: u16,
        card_type: u8,
        nft_type: u8,
        created_at: i64,
        next_payment_due: i64,
        bump: u8,
    ) -> (r: BNPLContractAccount)
        ensures
            r == (BNPLContractAccount {
                borrower,
                merchant,
                amount,
                token_mint,
                installments,
                paid_installments: 0,
                next_payment_due,
                payment_interval_days,
                amount_per_installment,
                status: LOAN_ACTIVE,
                created_at,
                last_payment_at: created_at,
                fee_percentage,
                apr_percentage,
                card_type,
                nft_type,
                bump,
            }),
            installments > 0 ==> r.wf(),
    {
        BNPLContractAccount {
            borrower,
            merchant,
            amount,
            token_mint,
            installments,
            paid_installments: 0,
            next_payment_due,
            payment_interval_days,
            amount_per_installment,
            status: BNPLStatus::Active.to_u8(),
            created_at,
            last_payment_at: created_at,
            fee_percentage,
            apr_percentage,
            card_type,
            nft_type,
            bump,
        }
    }

    pub fn get_status(&self) -> (r: Result<BNPLStatus, ProgramError>)
        ensures
            match r {
                Ok(s) => self.status <= 3 && loan_status_code(s) == self.status,
                Err(e) => self.status > 3 && e == ProgramError::InvalidAccountData,
            },
    {
        BNPLStatus::from_u8(self.status)
    }

    pub fn set_status(&mut self, status: BNPLStatus)
        ensures
            *final(self) == (BNPLContractAccount { status: loan_status_code(status), ..*old(self) }),
    {
        self.status = status.to_u8();
    }

    pub fn is_payment_due(&self, current_time: i64) -> (r: bool)
        ensures
            r == (current_time >= self.next_payment_due),
    {
        current_time >= self.next_payment_due
    }

    /// Records one installment paid at `current_time`; on overflow nothing
    /// changes.
    pub fn update_after_payment(&mut self, current_time: i64) -> (r: Result<(), ProgramError>)
        ensures
            match after_payment(*old(self), current_time) {
                Some(n) => r is Ok && *final(self) == n,
                None => r == Err::<(), ProgramError>(ProgramError::Custom(FlexfiError::MathOverflow))
                    && *final(self) == *old(self),
            },
            old(self).paid_installments < old(self).installments && r is Ok ==> final(self).wf(),
    {
        if self.paid_installments == u8::MAX {
            return Err(ProgramError::Custom(FlexfiError::MathOverflow));
        }
        let paid = self.paid_installments + 1;
        if paid >= self.installments {
            self.paid_installments = paid;
            self.last_payment_at = current_time;
            self.set_status(BNPLStatus::Completed);
        } else {
            let next_due = match self.next_payment_due.checked_add(
                self.payment_interval_days as i64 * SECONDS_PER_DAY,
            ) {
                Some(d) => d,
                None => return Err(ProgramError::Custom(FlexfiError::MathOverflow)),
            };
            self.paid_installments = paid;
            self.last_payment_at = current_time;
            self.next_payment_due = next_due;
        }
        Ok(())
    }

    /// What the unpaid installments still amount to, saturating.
    pub fn remaining_amount(&self) -> (r: u64)
        ensures
            self.paid_installments >= self.installments ==> r == 0,
            self.paid_installments < self.installments ==> r == if self.amount_per_installment * (
            self.installments - self.paid_installments) > u64::MAX {
                u64::MAX
            } else {
                (self.amount_per_installment * (self.installments - self.paid_installments)) as u64
            },
    {
        let remaining_installments = self.installments.saturating_sub(self.paid_installments);
        if remaining_installments == 0 {
            return 0;
        }
        match self.amount_per_installment.checked_mul(remaining_installments as u64) {
            Some(v) => v,
            None => u64::MAX,
        }
    }

    /// Pays the next installment on behalf of `borrower` at `now` and
    /// returns the amount the caller must transfer from the borrower to the
    /// platform. A loan whose installments are all paid is only marked
    /// completed, with nothing to transfer. Nothing changes on rejection.
    pub fn make_payment(&mut self, borrower: &Address, now: i64) -> (r: Result<u64, ProgramError>)
        ensures
            old(self).borrower@ != borrower@ ==> r == Err::<u64, ProgramError>(ProgramError::Custom(FlexfiError::Unauthorized)),
            old(self).borrower@ == borrower@ && old(self).status > 3 ==> r == Err::<u64, ProgramError>(ProgramError::InvalidAccountData),
            old(self).borrower@ == borrower@ && old(self).status <= 3 && old(self).status != LOAN_ACTIVE
                ==> r == Err::<u64, ProgramError>(ProgramError::Custom(FlexfiError::LoanNotActive)),
            old(self).borrower@ == borrower@ && old(self).status == LOAN_ACTIVE
                && old(self).paid_installments >= old(self).installments ==> r == Ok::<u64, ProgramError>(0)
                && *final(self) == (BNPLContractAccount { status: LOAN_COMPLETED, ..*old(self) }),
            old(self).borrower@ == borrower@ && old(self).status == LOAN_ACTIVE
                && old(self).paid_installments < old(self).installments ==> match after_payment(*old(self), now) {
                Some(n) => r == Ok::<u64, ProgramError>(old(self).amount_per_installment) && *final(self) == n,
                None => r == Err::<u64, ProgramError>(ProgramError::Custom(FlexfiError::MathOverflow)),
            },
            r is Err ==> *final(self) == *old(self),
            old(self).wf() ==> final(self).wf(),
            old(self).status_follows(*final(self)),
    {
        if !self.borrower.same_as(borrower) {
            return Err(ProgramError::Custom(FlexfiError::Unauthorized));
        }
        let status = self.get_status()?;
        if status != BNPLStatus::Active {
            return Err(ProgramError::Custom(FlexfiError::LoanNotActive));
        }
        if self.paid_installments >= self.installments {
            self.set_status(BNPLStatus::Completed);
            return Ok(0);
        }
        self.update_after_payment(now)?;
        Ok(self.amount_per_installment)
    }

    /// Cancels, on behalf of `borrower`, an active loan on which nothing has
    /// been paid yet.
    pub fn cancel(&mut self, borrower: &Address, now: i64) -> (r: Result<(), ProgramError>)
        ensures
            old(self).borrower@ != borrower@ ==> r == Err::<(), ProgramError>(ProgramError::Custom(FlexfiError::Unauthorized)),
            old(self).borrower@ == borrower@ && old(self).status > 3 ==> r == Err::<(), ProgramError>(ProgramError::InvalidAccountData),
            old(self).borrower@ == borrower@ && old(self).status <= 3 && old(self).status != LOAN_ACTIVE
                ==> r == Err::<(), ProgramError>(ProgramError::Custom(FlexfiError::LoanNotActive)),
            old(self).borrower@ == borrower@ && old(self).status == LOAN_ACTIVE && old(self).paid_installments > 0
                ==> r == Err::<(), ProgramError>(ProgramError::InvalidAccountData),
            old(self).borrower@ == borrower@ && old(self).status == LOAN_ACTIVE && old(self).paid_installments == 0
                ==> r is Ok && *final(self) == (BNPLContractAccount {
                status: LOAN_CANCELLED,
                last_payment_at: now,
                ..*old(self)
            }),
            r is Err ==> *final(self) == *old(self),
            old(self).wf() ==> final(self).wf(),
            old(self).status_follows(*final(self)),
    {
        if !self.borrower.same_as(borrower) {
            return Err(ProgramError::Custom(FlexfiError::Unauthorized));
        }
        let status = self.get_status()?;
        if status != BNPLStatus::Active {
            return Err(ProgramError::Custom(FlexfiError::LoanNotActive));
        }
        if self.paid_installments > 0 {
            return Err(ProgramError::InvalidAccountData);
        }
        self.set_status(BNPLStatus::Cancelled);
        self.last_payment_at = now;
        Ok(())
    }
}

/// The amounts of a loan: fee and interest on the principal, the total
/// owed and the fixed installment.
#[derive(Debug, Clone, Copy, PartialEq, Eq, Structural)]
pub struct InstallmentTerms {
    pub fee_percentage: u16,
    pub apr_percentage: u16,
    pub fee_amount: u64,
    pub apr_amount: u64,
    pub total_amount: u64,
    pub amount_per_installment: u64,
}

/// The terms of a loan of `amount` over `installments` installments:
/// fee = amount × fee / 10000; interest = amount × apr / 10000 ×
/// installments / 12 (each division rounding down, in this order);
/// total = amount + fee + interest; installment = total / installments,
/// the remainder absorbed. `None` where a step overflows `u64` or there
/// are no installments.
pub open spec fn terms_of(amount: u64, installments: u8, fee_bps: u16, apr_bps: u16) -> Option<InstallmentTerms> {
    let fee_product = amount * fee_bps;
    let apr_product = amount * apr_bps;
    let apr_scaled = (apr_product / 10000) * (installments as int);
    let fee = fee_product / 10000;
    let apr = apr_scaled / 12;
    let total = amount + fee + apr;
    if fee_product > u64::MAX || apr_product > u64::MAX || apr_scaled > u64::MAX || total > u64::MAX
        || installments == 0 {
        None
    } else {
        Some(InstallmentTerms {
            fee_percentage: fee_bps,
            apr_percentage: apr_bps,
            fee_amount: fee as u64,
            apr_amount: apr as u64,
            total_amount: total as u64,
            amount_per_installment: (total / (installments as int)) as u64,
        })
    }
}

/// The fee rate of a card tier for a loan of `installments` installments:
/// twelve-month loans have a rate of their own.
pub open spec fn fee_rate_for(card_type: u8, installments: u8) -> u16 {
    if installments == 12 {
        spec_card_config(card_type).bnpl_fee_12months
    } else {
        spec_card_config(card_type).bnpl_fee_percentage
    }
}

/// The APR of a card tier, raised by the bonus of an NFT tier.
pub open spec fn apr_rate_for(card_type: u8, nft_type: u8) -> u16 {
    (spec_card_config(card_type).apr_percentage + spec_nft_apr_bonus(nft_type)) as u16
}

impl InstallmentTerms {
    /// Computes the terms with checked arithmetic; any overflow is an error.
    pub fn compute(amount: u64, installments: u8, fee_percentage: u16, apr_percentage: u16) -> (r: Result<InstallmentTerms, ProgramError>)
        ensures
            match terms_of(amount, installments, fee_percentage, apr_percentage) {
                Some(t) => r == Ok::<InstallmentTerms, ProgramError>(t),
                None => r == Err::<InstallmentTerms, ProgramError>(ProgramError::Custom(FlexfiError::MathOverflow)),
            },
    {
        let overflow = ProgramError::Custom(FlexfiError::MathOverflow);
        let fee_product = match amount.checked_mul(fee_percentage as u64) {
            Some(v) => v,
            None => return Err(overflow),
        };
        let fee_amount = fee_product / BPS_DENOMINATOR;
        let apr_product = match amount.checked_mul(apr_percentage as u64) {
            Some(v) => v,
            None => return Err(overflow),
        };
        let apr_scaled = match (apr_product / BPS_DENOMINATOR).checked_mul(installments as u64) {
            Some(v) => v,
            None => return Err(overflow),
        };
        let apr_amount = apr_scaled / MONTHS_PER_YEAR;
        let with_fee = match amount.checked_add(fee_amount) {
            Some(v) => v,
            None => return Err(overflow),
        };
        let total_amount = match with_fee.checked_add(apr_amount) {
            Some(v) => v,
            None => return Err(overflow),
        };
        if installments == 0 {
            return Err(overflow);
        }
        let amount_per_installment = total_amount / (installments as u64);
        Ok(InstallmentTerms {
            fee_percentage,
            apr_percentage,
            fee_amount,
            apr_amount,
            total_amount,
            amount_per_installment,
        })
    }

    /// The terms for a borrower with card tier `card_type` and NFT tier
    /// `nft_type`.
    pub fn for_card(amount: u64, installments: u8, card_type: u8, nft_type: u8) -> (r: Result<InstallmentTerms, ProgramError>)
        ensures
            match terms_of(amount, installments, fee_rate_for(card_type, installments), apr_rate_for(card_type, nft_type)) {
                Some(t) => r == Ok::<InstallmentTerms, ProgramError>(t),
                None => r == Err::<InstallmentTerms, ProgramError>(ProgramError::Custom(FlexfiError::MathOverflow)),
            },
    {
        let card_config = get_card_config(card_type);
        let fee_percentage = if installments == 12 {
            card_config.bnpl_fee_12months
        } else {
            card_config.bnpl_fee_percentage
        };
        let apr_percentage = card_config.apr_percentage + get_nft_apr_bonus(nft_type);
        InstallmentTerms::compute(amount, installments, fee_percentage, apr_percentage)
    }
}

/// Floor division loses less than one unit per installment: the
/// installments together fall short of the total by less than their count.
pub proof fn lemma_installment_drift(amount: u64, installments: u8, fee_bps: u16, apr_bps: u16)
    requires
        terms_of(amount, installments, fee_bps, apr_bps) is Some,
    ensures
        ({
            let t = terms_of(amount, installments, fee_bps, apr_bps)->Some_0;
            t.amount_per_installment * installments <= t.total_amount
                < t.amount_per_installment * installments + installments
        }),
{
    let t = terms_of(amount, installments, fee_bps, apr_bps)->Some_0;
    let total = t.total_amount as int;
    let n = installments as int;
    assert(t.amount_per_installment == total / n);
    vstd::arithmetic::div_mod::lemma_fundamental_div_mod(total, n);
    assert(0 <= total % n < n) by {
        vstd::arithmetic::div_mod::lemma_mod_bound(total, n);
    }
}

/// Why a position and wallet do not support a loan of `loan_amount` for
/// `user`, if they do not: the loan needs as much collateral (1:1) in an
/// active or locked position of the user's own, and an active wallet.
pub open spec fn authorization_error(staking: StakingAccount, user: Address, wallet: WalletAccount, loan_amount: u64) -> Option<ProgramError> {
    if staking.owner@ != user@ {
        Some(ProgramError::Custom(FlexfiError::Unauthorized))
    } else if staking.status > 3 {
        Some(ProgramError::InvalidAccountData)
    } else if staking.status == STATUS_FROZEN || staking.status == STATUS_CLOSED {
        Some(ProgramError::Custom(FlexfiError::StakingFrozen))
    } else if staking.amount_staked < loan_amount {
        Some(ProgramError::Custom(FlexfiError::InsufficientStaking))
    } else if !wallet.is_active {
        Some(ProgramError::Custom(FlexfiError::WalletInactive))
    } else {
        None
    }
}

/// Eligibility checks for installment loans.
pub struct BNPLChecker;

impl BNPLChecker {
    pub fn check_bnpl_authorization(
        staking: &StakingAccount,
        user: &Address,
        wallet: &WalletAccount,
        loan_amount: u64,
    ) -> (r: Result<(), ProgramError>)
        ensures
            r == result_of(authorization_error(*staking, *user, *wallet, loan_amount)),
    {
        if !staking.owner.same_as(user) {
            return Err(ProgramError::Custom(FlexfiError::Unauthorized));
        }
        let status = staking.get_status()?;
        if status == StakingStatus::Frozen || status == StakingStatus::Closed {
            return Err(ProgramError::Custom(FlexfiError::StakingFrozen));
        }
        if staking.amount_staked < loan_amount {
            return Err(ProgramError::Custom(FlexfiError::InsufficientStaking));
        }
        if !wallet.is_active {
            return Err(ProgramError::Custom(FlexfiError::WalletInactive));
        }
        Ok(())
    }

    /// The largest loan the position supports: its whole balance (1:1).
    pub fn get_max_bnpl_amount(staking: &StakingAccount, user: &Address) -> (r: Result<u64, ProgramError>)
        ensures
            staking.owner@ != user@ ==> r == Err::<u64, ProgramError>(ProgramError::Custom(FlexfiError::Unauthorized)),
            staking.owner@ == user@ && staking.status > 3 ==> r == Err::<u64, ProgramError>(ProgramError::InvalidAccountData),
            staking.owner@ == user@ && staking.status <= 3 && staking.status != STATUS_ACTIVE && staking.status != STATUS_LOCKED
                ==> r == Err::<u64, ProgramError>(ProgramError::Custom(FlexfiError::StakingNotActive)),
            staking.owner@ == user@ && (staking.status == STATUS_ACTIVE || staking.status == STATUS_LOCKED)
                ==> r == Ok::<u64, ProgramError>(staking.amount_staked),
    {
        if !staking.owner.same_as(user) {
            return Err(ProgramError::Custom(FlexfiError::Unauthorized));
        }
        let status = staking.get_status()?;
        if status != StakingStatus::Active && status != StakingStatus::Locked {
            return Err(ProgramError::Custom(FlexfiError::StakingNotActive));
        }
        Ok(staking.amount_staked)
    }

    pub fn check_installments_for_card(card_type: u8, installments: u8) -> (r: Result<(), ProgramError>)
        ensures
            spec_installment_allowed(card_type, installments) ==> r is Ok,
            !spec_installment_allowed(card_type, installments) ==> r == Err::<(), ProgramError>(
                ProgramError::Custom(FlexfiError::InvalidInstallmentForCard),
            ),
    {
        if !is_installment_allowed_for_card(card_type, installments) {
            return Err(ProgramError::Custom(FlexfiError::InvalidInstallmentForCard));
        }
        Ok(())
    }
}

/// Why a loan with these parameters is refused, if it is.
pub open spec fn create_error(
    borrower: Address,
    amount: u64,
    installments: u8,
    payment_interval_days: u8,
    staking: StakingAccount,
    wallet: WalletAccount,
    nft: Option<NFTMetadataAccount>,
    now: i64,
) -> Option<ProgramError> {
    let nft_type = spec_effective_nft_type(nft, borrower, now);
    if installments < MIN_BNPL_INSTALLMENTS || installments > MAX_BNPL_INSTALLMENTS {
        Some(ProgramError::Custom(FlexfiError::InvalidInstallments))
    } else if payment_interval_days < MIN_PAYMENT_INTERVAL_DAYS || payment_interval_days > MAX_PAYMENT_INTERVAL_DAYS {
        Some(ProgramError::InvalidArgument)
    } else if authorization_error(staking, borrower, wallet, amount) is Some {
        authorization_error(staking, borrower, wallet, amount)
    } else if !spec_installment_allowed(wallet.card_type, installments) {
        Some(ProgramError::Custom(FlexfiError::InvalidInstallmentForCard))
    } else if terms_of(amount, installments, fee_rate_for(wallet.card_type, installments), apr_rate_for(wallet.card_type, nft_type)) is None {
        Some(ProgramError::Custom(FlexfiError::MathOverflow))
    } else if now + payment_interval_days * SECONDS_PER_DAY > i64::MAX {
        Some(ProgramError::Custom(FlexfiError::MathOverflow))
    } else {
        None
    }
}

/// The loan created when `create_error` finds nothing.
pub open spec fn created_loan(
    borrower: Address,
    merchant: Address,
    token_mint: Address,
    amount: u64,
    installments: u8,
    payment_interval_days: u8,
    wallet: WalletAccount,
    nft: Option<NFTMetadataAccount>,
    now: i64,
    bump: u8,
) -> BNPLContractAccount {
    let nft_type = spec_effective_nft_type(nft, borrower, now);
    let fee = fee_rate_for(wallet.card_type, installments);
    let apr = apr_rate_for(wallet.card_type, nft_type);
    let t = terms_of(amount, installments, fee, apr)->Some_0;
    BNPLContractAccount {
        borrower,
        merchant,
        amount,
        token_mint,
        installments,
        paid_installments: 0,
        next_payment_due: (now + payment_interval_days * SECONDS_PER_DAY) as i64,
        payment_interval_days,
        amount_per_installment: t.amount_per_installment,
        status: LOAN_ACTIVE,
        created_at: now,
        last_payment_at: now,
        fee_percentage: fee,
        apr_percentage: apr,
        card_type: wallet.card_type,
        nft_type,
        bump,
    }
}

/// Creation of installment loans.
pub struct BNPLContract;

impl BNPLContract {
    /// Creates a loan of `amount` from `merchant` to `borrower`, repaid in
    /// `installments` installments every `payment_interval_days` days. The
    /// installment count must be allowed by the borrower's card tier; the
    /// APR includes the bonus of the borrower's NFT when it is theirs and
    /// usable. The caller disburses `amount` to the merchant on success.
    pub fn create(
        borrower: Address,
        merchant: Address,
        token_mint: Address,
        amount: u64,
        installments: u8,
        payment_interval_days: u8,
        staking: &StakingAccount,
        wallet: &WalletAccount,
        nft: &Option<NFTMetadataAccount>,
        now: i64,
        bump: u8,
    ) -> (r: Result<BNPLContractAccount, ProgramError>)
        ensures
            match create_error(borrower, amount, installments, payment_interval_days, *staking, *wallet, *nft, now) {
                Some(e) => r == Err::<BNPLContractAccount, ProgramError>(e),
                None => r == Ok::<BNPLContractAccount, ProgramError>(
                    created_loan(borrower, merchant, token_mint, amount, installments, payment_interval_days, *wallet, *nft, now, bump),
                ),
            },
            r matches Ok(c) ==> c.wf(),
    {
        if installments < MIN_BNPL_INSTALLMENTS || installments > MAX_BNPL_INSTALLMENTS {
            return Err(ProgramError::Custom(FlexfiError::InvalidInstallments));
        }
        if payment_interval_days < MIN_PAYMENT_INTERVAL_DAYS || payment_interval_days > MAX_PAYMENT_INTERVAL_DAYS {
            return Err(ProgramError::InvalidArgument);
        }
        BNPLChecker::check_bnpl_authorization(staking, &borrower, wallet, amount)?;
        let card_type = wallet.card_type;
        BNPLChecker::check_installments_for_card(card_type, installments)?;
        let nft_type = effective_nft_type(nft, &borrower, now);
        let terms = InstallmentTerms::for_card(amount, installments, card_type, nft_type)?;
        let next_payment_due = match now.checked_add(payment_interval_days as i64 * SECONDS_PER_DAY) {
            Some(d) => d,
            None => return Err(ProgramError::Custom(FlexfiError::MathOverflow)),
        };
        Ok(BNPLContractAccount::new(
            borrower,
            merchant,
            amount,
            token_mint,
            installments,
            payment_interval_days,
            terms.amount_per_installment,
            terms.fee_percentage,
            terms.apr_percentage,
            card_type,
            nft_type,
            now,
            next_payment_due,
            bump,
        ))
    }
}

} // verus!
