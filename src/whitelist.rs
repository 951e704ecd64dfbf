//! The whitelist capability check consumed by every user operation, and
//! the records behind it.
use vstd::prelude::*;
use crate::address::Address;
use crate::error::{FlexfiError, ProgramError};

verus! {

/// The whitelist's root record: its authority and the number of users on it.
#[derive(Debug, Clone, Copy)]
pub struct WhitelistAccount {
    pub authority: Address,
    pub is_active: bool,
    pub total_users: u64,
    pub bump: u8,
}

/// One user's whitelist record.
#[derive(Debug, Clone, Copy)]
pub struct UserWhitelistStatus {
    pub user_pubkey: Address,
    pub is_whitelisted: bool,
    pub whitelisted_at: i64,
    pub whitelisted_by: Address,
    pub bump: u8,
}

/// Whether a user is whitelisted, given the address of the status record
/// supplied, the address derived for that user, and the record's contents
/// (`None` when the record holds no data).
pub open spec fn spec_whitelisted(supplied: Address, derived: Address, status: Option<UserWhitelistStatus>) -> bool {
    supplied@ == derived@ && (status matches Some(s) && s.is_whitelisted)
}

pub fn check_user_whitelisted(supplied: &Address, derived: &Address, status: &Option<UserWhitelistStatus>) -> (r: bool)
    ensures
        r == spec_whitelisted(*supplied, *derived, *status),
{
    if !supplied.same_as(derived) {
        return false;
    }
    match status {
        Some(s) => s.is_whitelisted,
        None => false,
    }
}

/// Fails with `Unauthorized` unless the user is whitelisted.
pub fn require_whitelisted(supplied: &Address, derived: &Address, status: &Option<UserWhitelistStatus>) -> (r: Result<(), ProgramError>)
    ensures
        spec_whitelisted(*supplied, *derived, *status) ==> r is Ok,
        !spec_whitelisted(*supplied, *derived, *status) ==> r == Err::<(), ProgramError>(
            ProgramError::Custom(FlexfiError::Unauthorized),
        ),
{
    if !check_user_whitelisted(supplied, derived, status) {
        return Err(ProgramError::Custom(FlexfiError::Unauthorized));
    }
    Ok(())
}

impl WhitelistAccount {
    pub const SIZE: usize = 42;

    pub fn new(authority: Address, bump: u8) -> (r: WhitelistAccount)
        ensures
            r == (WhitelistAccount { authority, is_active: true, total_users: 0, bump }),
    {
        WhitelistAccount { authority, is_active: true, total_users: 0, bump }
    }

    /// Adds `user` on behalf of the whitelist's authority at `now` and
    /// returns the user's new record; the count of users grows by one.
    pub fn add_user(&mut self, authority: &Address, user: Address, now: i64, bump: u8) -> (r: Result<UserWhitelistStatus, ProgramError>)
        ensures
            old(self).authority@ != authority@ ==> r == Err::<UserWhitelistStatus, ProgramError>(
                ProgramError::Custom(FlexfiError::Unauthorized),
            ) && *final(self) == *old(self),
            old(self).authority@ == authority@ && old(self).total_users == u64::MAX
                ==> r == Err::<UserWhitelistStatus, ProgramError>(ProgramError::Custom(FlexfiError::MathOverflow))
                && *final(self) == *old(self),
            old(self).authority@ == authority@ && old(self).total_users < u64::MAX ==> r == Ok::<UserWhitelistStatus, ProgramError>(
                UserWhitelistStatus {
                    user_pubkey: user,
                    is_whitelisted: true,
                    whitelisted_at: now,
                    whitelisted_by: *authority,
                    bump,
                },
            ) && *final(self) == (WhitelistAccount { total_users: (old(self).total_users + 1) as u64, ..*old(self) }),
    {
        if !self.authority.same_as(authority) {
            return Err(ProgramError::Custom(FlexfiError::Unauthorized));
        }
        if self.total_users == u64::MAX {
            return Err(ProgramError::Custom(FlexfiError::MathOverflow));
        }
        self.total_users = self.total_users + 1;
        Ok(UserWhitelistStatus {
            user_pubkey: user,
            is_whitelisted: true,
            whitelisted_at: now,
            whitelisted_by: *authority,
            bump,
        })
    }

    /// Takes `user` off the whitelist on behalf of its authority; the count
    /// of users shrinks by one, never below zero.
    pub fn remove_user(&mut self, authority: &Address, status: &mut UserWhitelistStatus, user: &Address) -> (r: Result<(), ProgramError>)
        ensures
            old(self).authority@ != authority@ ==> r == Err::<(), ProgramError>(ProgramError::Custom(FlexfiError::Unauthorized)),
            old(self).authority@ == authority@ && old(status).user_pubkey@ != user@
                ==> r == Err::<(), ProgramError>(ProgramError::InvalidAccountData),
            old(self).authority@ == authority@ && old(status).user_pubkey@ == user@ ==> r is Ok
                && *final(status) == (UserWhitelistStatus { is_whitelisted: false, ..*old(status) })
                && *final(self) == (WhitelistAccount {
                total_users: if old(self).total_users == 0 { 0 } else { (old(self).total_users - 1) as u64 },
                ..*old(self)
            }),
            r is Err ==> *final(self) == *old(self) && *final(status) == *old(status),
    {
        if !self.authority.same_as(authority) {
            return Err(ProgramError::Custom(FlexfiError::Unauthorized));
        }
        if !status.user_pubkey.same_as(user) {
            return Err(ProgramError::InvalidAccountData);
        }
        status.is_whitelisted = false;
        self.total_users = self.total_users.saturating_sub(1);
        Ok(())
    }
}

impl UserWhitelistStatus {
    pub const SIZE: usize = 74;
}

} // verus!
