//! Notices of what an operation did.

use crate::pubkey::Pubkey;
use vstd::prelude::*;

verus! {

/// Shares were locked.
#[derive(Clone, Copy, Debug, PartialEq, Eq)]
pub struct LpLockEvent {
    /// The owner of the lock.
    pub user: Pubkey,
    /// The number of shares locked.
    pub amount: u64,
    /// The mint of the pool's shares.
    pub lp_mint: Pubkey,
    /// Whether the lock can never be released.
    pub locked_perm: bool,
}

/// A lock was released.
#[derive(Clone, Copy, Debug, PartialEq, Eq)]
pub struct LpUnlockEvent {
    /// The owner of the lock.
    pub user: Pubkey,
    /// The number of shares handed back.
    pub amount: u64,
    /// The mint of the pool's shares.
    pub lp_mint: Pubkey,
}

/// Fees were collected from a lock.
#[derive(Clone, Copy, Debug, PartialEq, Eq)]
pub struct CollectFeesEvent {
    /// The owner of the lock.
    pub user: Pubkey,
    /// The mint of the pool's shares.
    pub lp_mint: Pubkey,
    /// Fees paid out in the pool's first asset.
    pub token_0_amount: u64,
    /// Fees paid out in the pool's second asset.
    pub token_1_amount: u64,
}

} // verus!
