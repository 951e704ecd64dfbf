//! Ledger and authorization engine for a card-linked credit protocol:
//! collateral positions, spend authorizations, installment loans, a
//! behavioural credit score, benefit tiers and yield tracking.
//!
//! Every operation is a deterministic transition on records passed in by
//! the caller; a rejected operation leaves them as they were, unless its
//! contract says otherwise. Token movements are left to the caller, which
//! performs the transfers each operation reports.
pub mod constants;
pub mod error;
pub mod address;
pub mod card;
pub mod staking;
pub mod score;
pub mod authorization;
pub mod nft;
pub mod bnpl;
pub mod repayment;
pub mod yields;
pub mod whitelist;
pub mod codec;
pub mod instruction;
