//! The operations on a lock.

pub mod collect_fees;
pub mod lock_lp;
pub mod unlock_lp;

pub use collect_fees::{
    collect_fees, settle_fees, withdraw_instruction, CollectFees, CollectedFees, FeeSettlement,
    Withdraw,
};
pub use lock_lp::{lock_lp, LockLp, Locked, MAX_LOCK_DURATION, MIN_LOCK_AMOUNT};
pub use unlock_lp::{unlock_lp, UnlockLp, Unlocked};
