//! The record of one lock.

use crate::pubkey::Pubkey;
use vstd::prelude::*;

verus! {

/// The tag under which a lock record is addressed.
pub const USER_LOCK_SEED: &'static str = "user_lock";

/// Where a lock stands in its life.
#[derive(Clone, Copy, Debug, PartialEq, Eq, Structural)]
pub enum LockState {
    /// Held until its unlock time; fees can be collected.
    TimeLocked,
    /// Held for ever; fees can be collected.
    Permanent,
    /// Handed back. Nothing more can be done with it.
    Released,
}

/// One lock of pool shares. It is told from the owner's other locks on the
/// same mint by `lock_count`.
#[derive(Clone, Copy, Debug, PartialEq, Eq)]
pub struct UserLock {
    /// The bump of the record's address.
    pub bump: u8,
    /// The owner of the lock.
    pub user: Pubkey,
    /// The mint of the pool's shares.
    pub lp_mint: Pubkey,
    /// The index of this lock among the owner's locks on the mint.
    pub lock_count: u64,
    /// The shares in escrow that stand for what is left of the principal.
    pub lock_amount: u64,
    /// The time from which the lock can be released; 0 for a permanent lock.
    pub unlock_time: u64,
    /// What the principal was worth in the first asset when it was locked.
    pub principal_token_0: u64,
    /// What the principal was worth in the second asset when it was locked.
    pub principal_token_1: u64,
    /// The liquidity of the principal when it was locked. It never changes.
    pub principal_liquidity: u64,
    /// Whether the lock can never be released.
    pub is_locked_permanently: bool,
    /// Fees paid out so far in the first asset.
    pub token_0_fees_collected: u64,
    /// Fees paid out so far in the second asset.
    pub token_1_fees_collected: u64,
    /// Whether the lock was released.
    pub is_unlocked: bool,
    /// The time of the last change.
    pub last_updated: u64,
    /// The time at which the lock was made.
    pub created_at: u64,
}

impl UserLock {
    /// Bytes that the stored record takes.
    pub const LEN: usize = 8 + 1 + 32 + 32 + 8 + 8 + 8 + 8 + 8 + 8 + 1 + 8 + 8 + 1 + 8 + 8;

    /// What holds of every lock that was made by locking: a permanent lock
    /// has no unlock time, and indices start at one.
    pub open spec fn wf(&self) -> bool {
        &&& self.is_locked_permanently ==> self.unlock_time == 0
        &&& self.lock_count >= 1
    }

    /// Where the lock stands in its life.
    pub open spec fn spec_state(&self) -> LockState {
        if self.is_unlocked {
            LockState::Released
        } else if self.is_locked_permanently {
            LockState::Permanent
        } else {
            LockState::TimeLocked
        }
    }

    /// Where the lock stands in its life.
    #[verifier::when_used_as_spec(spec_state)]
    pub fn state(&self) -> (s: LockState)
        ensures
            s == self.spec_state(),
    {
        if self.is_unlocked {
            LockState::Released
        } else if self.is_locked_permanently {
            LockState::Permanent
        } else {
            LockState::TimeLocked
        }
    }

    /// The shares that the lock adds to its owner's locked total: what it
    /// holds, until it is released.
    pub open spec fn counted_amount(&self) -> nat {
        if self.is_unlocked {
            0
        } else {
            self.lock_amount as nat
        }
    }
}

impl Default for UserLock {
    fn default() -> (lock: UserLock)
        ensures
            lock.user.spec_is_default(),
            lock.lp_mint.spec_is_default(),
            lock.bump == 0,
            lock.lock_count == 0,
            lock.lock_amount == 0,
            lock.unlock_time == 0,
            lock.principal_token_0 == 0,
            lock.principal_token_1 == 0,
            lock.principal_liquidity == 0,
            !lock.is_locked_permanently,
            lock.token_0_fees_collected == 0,
            lock.token_1_fees_collected == 0,
            !lock.is_unlocked,
            lock.last_updated == 0,
            lock.created_at == 0,
    {
        UserLock {
            bump: 0,
            user: Pubkey::default(),
            lp_mint: Pubkey::default(),
            lock_count: 0,
            lock_amount: 0,
            unlock_time: 0,
            principal_token_0: 0,
            principal_token_1: 0,
            principal_liquidity: 0,
            is_locked_permanently: false,
            token_0_fees_collected: 0,
            token_1_fees_collected: 0,
            is_unlocked: false,
            last_updated: 0,
            created_at: 0,
        }
    }
}

} // verus!
