//! The records that the program keeps, and the notices it gives.

pub mod events;
pub mod lock;
pub mod lp_lock_counter;
pub mod pool;

pub use events::{CollectFeesEvent, LpLockEvent, LpUnlockEvent};
pub use lock::{LockState, UserLock, USER_LOCK_SEED};
pub use lp_lock_counter::{LpLockCounter, LP_LOCK_COUNTER_SEED};
pub use pool::PoolState;
