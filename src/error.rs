//! Error classification shared by every ledger operation.
use vstd::prelude::*;

verus! {

/// Failures specific to the protocol's rules.
#[derive(Debug, Clone, Copy, PartialEq, Eq, Structural)]
pub enum FlexfiError {
    ProtocolPaused,
    AmountTooHigh,
    TooManyLoans,
    InsufficientCollateral,
    MathOverflow,
    InvalidInstallments,
    InvalidInstallmentForCard,
    LoanNotActive,
    LoanAlreadyPaid,
    GracePeriodNotExpired,
    Unauthorized,
    FeeTooHigh,
    AlreadyAtThisLevel,
    InvalidCardType,
    InvalidNFTType,
    NoYieldToClaim,
    InsufficientStaking,
    StakingNotActive,
    StakingFrozen,
    WalletInactive,
    NFTExpired,
    PaymentOverdue,
    InsufficientCollateralForAutoDebit,
}

/// The numeric code of each protocol failure, in declaration order.
pub open spec fn error_code(e: FlexfiError) -> u32 {
    match e {
        FlexfiError::ProtocolPaused => 0,
        FlexfiError::AmountTooHigh => 1,
        FlexfiError::TooManyLoans => 2,
        FlexfiError::InsufficientCollateral => 3,
        FlexfiError::MathOverflow => 4,
        FlexfiError::InvalidInstallments => 5,
        FlexfiError::InvalidInstallmentForCard => 6,
        FlexfiError::LoanNotActive => 7,
        FlexfiError::LoanAlreadyPaid => 8,
        FlexfiError::GracePeriodNotExpired => 9,
        FlexfiError::Unauthorized => 10,
        FlexfiError::FeeTooHigh => 11,
        FlexfiError::AlreadyAtThisLevel => 12,
        FlexfiError::InvalidCardType => 13,
        FlexfiError::InvalidNFTType => 14,
        FlexfiError::NoYieldToClaim => 15,
        FlexfiError::InsufficientStaking => 16,
        FlexfiError::StakingNotActive => 17,
        FlexfiError::StakingFrozen => 18,
        FlexfiError::WalletInactive => 19,
        FlexfiError::NFTExpired => 20,
        FlexfiError::PaymentOverdue => 21,
        FlexfiError::InsufficientCollateralForAutoDebit => 22,
    }
}

impl FlexfiError {
    /// The code under which this failure is reported to the host runtime.
    pub fn code(&self) -> (r: u32)
        ensures
            r == error_code(*self),
    {
        match self {
            FlexfiError::ProtocolPaused => 0,
            FlexfiError::AmountTooHigh => 1,
            FlexfiError::TooManyLoans => 2,
            FlexfiError::InsufficientCollateral => 3,
            FlexfiError::MathOverflow => 4,
            FlexfiError::InvalidInstallments => 5,
            FlexfiError::InvalidInstallmentForCard => 6,
            FlexfiError::LoanNotActive => 7,
            FlexfiError::LoanAlreadyPaid => 8,
            FlexfiError::GracePeriodNotExpired => 9,
            FlexfiError::Unauthorized => 10,
            FlexfiError::FeeTooHigh => 11,
            FlexfiError::AlreadyAtThisLevel => 12,
            FlexfiError::InvalidCardType => 13,
            FlexfiError::InvalidNFTType => 14,
            FlexfiError::NoYieldToClaim => 15,
            FlexfiError::InsufficientStaking => 16,
            FlexfiError::StakingNotActive => 17,
            FlexfiError::StakingFrozen => 18,
            FlexfiError::WalletInactive => 19,
            FlexfiError::NFTExpired => 20,
            FlexfiError::PaymentOverdue => 21,
            FlexfiError::InsufficientCollateralForAutoDebit => 22,
        }
    }
}

/// Every way an operation can be rejected: the host runtime's generic
/// failures, or one of the protocol's own.
#[derive(Debug, Clone, Copy, PartialEq, Eq, Structural)]
pub enum ProgramError {
    InvalidArgument,
    InvalidAccountData,
    InvalidInstructionData,
    InsufficientFunds,
    Custom(FlexfiError),
}

} // verus!
