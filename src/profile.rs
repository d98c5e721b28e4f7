use vstd::prelude::*;
use crate::error::FlowTipError;
use crate::key::AccountKey;
use vstd::string::StringSliceAdditionalSpecFns;

verus! {

/// The longest handle, in bytes.
pub const MAX_HANDLE_LEN: usize = 32;

/// The bytes of a handle, in UTF-8.
pub open spec fn handle_bytes(handle: Seq<char>) -> Seq<u8> {
    vstd::utf8::encode_utf8(handle)
}

/// Why a handle cannot name a profile, or `None` where it can.
pub open spec fn handle_error(handle: Seq<char>) -> Option<FlowTipError> {
    if handle_bytes(handle).len() == 0 {
        Some(FlowTipError::HandleEmpty)
    } else if handle_bytes(handle).len() > MAX_HANDLE_LEN {
        Some(FlowTipError::HandleTooLong)
    } else {
        None
    }
}

/// The record of one registered creator.
pub struct CreatorProfile {
    /// Who registered the profile.
    pub owner: AccountKey,
    /// The unique handle, 1 to 32 bytes.
    pub handle: String,
    /// The token account that receives the creator's tips.
    pub usdc_ata: AccountKey,
    /// The bump seed that made the profile's address.
    pub bump: u8,
    /// The sum of all tips received.
    pub total_tips_received: u64,
    /// The number of tips received.
    pub tips_count: u64,
}

/// What a successful tip announces.
pub struct TipSent {
    pub creator: AccountKey,
    pub donor: AccountKey,
    pub amount: u64,
    pub handle: String,
}

/// A fresh profile: no tips yet.
pub open spec fn new_profile(owner: AccountKey, handle: String, usdc_ata: AccountKey, bump: u8) -> CreatorProfile {
    CreatorProfile { owner, handle, usdc_ata, bump, total_tips_received: 0, tips_count: 0 }
}

/// Whether one more tip of `amount` would carry either running total past `u64::MAX`.
pub open spec fn tip_overflows(p: CreatorProfile, amount: u64) -> bool {
    p.total_tips_received + amount > u64::MAX || p.tips_count + 1 > u64::MAX
}

/// The profile after one more tip of `amount`.
pub open spec fn tipped(p: CreatorProfile, amount: u64) -> CreatorProfile {
    CreatorProfile {
        total_tips_received: (p.total_tips_received + amount) as u64,
        tips_count: (p.tips_count + 1) as u64,
        ..p
    }
}

/// Why a tip of `amount` presenting `creator_account` cannot go to `p`, or
/// `None` where it can.
pub open spec fn tip_error(p: CreatorProfile, creator_account: AccountKey, amount: u64) -> Option<
    FlowTipError,
> {
    if amount == 0 {
        Some(FlowTipError::InvalidAmount)
    } else if p.usdc_ata@ != creator_account@ {
        Some(FlowTipError::AccountMismatch)
    } else {
        None
    }
}

/// Checks that a handle has between 1 and 32 bytes.
pub fn check_handle(handle: &str) -> (r: Result<(), FlowTipError>)
    ensures
        r is Ok <==> handle_error(handle@) is None,
        r matches Err(e) ==> handle_error(handle@) == Some(e),
{
    let n = handle.as_bytes().len();
    if n == 0 {
        Err(FlowTipError::HandleEmpty)
    } else if n > MAX_HANDLE_LEN {
        Err(FlowTipError::HandleTooLong)
    } else {
        Ok(())
    }
}

impl CreatorProfile {
    /// A profile with no tips, for a valid handle.
    pub fn new(owner: AccountKey, handle: String, usdc_ata: AccountKey, bump: u8) -> (r: Result<
        CreatorProfile,
        FlowTipError,
    >)
        ensures
            match handle_error(handle@) {
                Some(e) => r == Err::<CreatorProfile, FlowTipError>(e),
                None => r == Ok::<CreatorProfile, FlowTipError>(new_profile(owner, handle, usdc_ata, bump)),
            },
    {
        match check_handle(handle.as_str()) {
            Err(e) => Err(e),
            Ok(()) => Ok(
                CreatorProfile { owner, handle, usdc_ata, bump, total_tips_received: 0, tips_count: 0 },
            ),
        }
    }

    /// Checks a tip against this profile before any tokens move: the amount
    /// must be positive and the creator's token account the bound one.
    pub fn check_tip(&self, creator_account: &AccountKey, amount: u64) -> (r: Result<(), FlowTipError>)
        ensures
            r is Ok <==> tip_error(*self, *creator_account, amount) is None,
            r matches Err(e) ==> tip_error(*self, *creator_account, amount) == Some(e),
    {
        if amount == 0 {
            Err(FlowTipError::InvalidAmount)
        } else if !self.usdc_ata.same_as(creator_account) {
            Err(FlowTipError::AccountMismatch)
        } else {
            Ok(())
        }
    }

    /// Adds one tip of `amount` to the running totals, both or neither.
    pub fn record_tip(&mut self, amount: u64) -> (r: Result<(), FlowTipError>)
        ensures
            tip_overflows(*old(self), amount) ==> r == Err::<(), FlowTipError>(FlowTipError::MathOverflow)
                && *final(self) == *old(self),
            !tip_overflows(*old(self), amount) ==> r is Ok && *final(self) == tipped(*old(self), amount),
    {
        let total = self.total_tips_received.checked_add(amount);
        let count = self.tips_count.checked_add(1);
        match (total, count) {
            (Some(t), Some(c)) => {
                self.total_tips_received = t;
                self.tips_count = c;
                Ok(())
            },
            _ => Err(FlowTipError::MathOverflow),
        }
    }
}

} // verus!
