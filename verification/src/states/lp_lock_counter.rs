//! The registry of an owner's locks on one pool.

use crate::pubkey::Pubkey;
use vstd::prelude::*;

verus! {

/// The tag under which a registry is addressed.
pub const LP_LOCK_COUNTER_SEED: &'static str = "lp_lock_counter";

/// Counts the locks that an owner made on the shares of one pool, and the
/// shares that those locks still hold. There is one per owner and mint.
#[derive(Clone, Copy, Debug, PartialEq, Eq)]
pub struct LpLockCounter {
    /// The owner of the locks.
    pub user: Pubkey,
    /// The mint of the pool's shares.
    pub lp_mint: Pubkey,
    /// The number of locks ever made: the index of the latest one.
    pub total_lock_count: u64,
    /// The shares held by the locks that are not released.
    pub total_lock_amount: u64,
}

impl LpLockCounter {
    /// Bytes that the stored record takes.
    pub const LEN: usize = 8 + 32 + 32 + 8 + 8;

    /// Whether the record was never written: no owner stands in it.
    pub open spec fn is_vacant(&self) -> bool {
        self.user.spec_is_default()
    }
}

impl Default for LpLockCounter {
    fn default() -> (counter: LpLockCounter)
        ensures
            counter.is_vacant(),
            counter.lp_mint.spec_is_default(),
            counter.total_lock_count == 0,
            counter.total_lock_amount == 0,
    {
        LpLockCounter {
            user: Pubkey::default(),
            lp_mint: Pubkey::default(),
            total_lock_count: 0,
            total_lock_amount: 0,
        }
    }
}

} // verus!
