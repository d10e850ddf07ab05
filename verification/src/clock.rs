//! The time of the block in which an operation runs.

use crate::error::{ErrorCode, LockError};
use vstd::prelude::*;

verus! {

/// The time in seconds that a reading of the clock stands for. A reading
/// that could not be had, or one from before the epoch, is refused.
pub open spec fn spec_block_timestamp(unix_timestamp: Option<i64>) -> Result<u64, LockError> {
    match unix_timestamp {
        None => Err(LockError::Code(ErrorCode::ClockUnavailable)),
        Some(seconds) => if seconds < 0 {
            Err(LockError::Code(ErrorCode::InvalidTimestamp))
        } else {
            Ok(seconds as u64)
        },
    }
}

/// The time in seconds that a reading of the clock stands for; `None` says
/// that the clock could not be read.
pub fn block_timestamp(unix_timestamp: Option<i64>) -> (r: Result<u64, LockError>)
    ensures
        r == spec_block_timestamp(unix_timestamp),
{
    match unix_timestamp {
        None => Err(LockError::Code(ErrorCode::ClockUnavailable)),
        Some(seconds) => if seconds < 0 {
            Err(LockError::Code(ErrorCode::InvalidTimestamp))
        } else {
            Ok(seconds as u64)
        },
    }
}

} // verus!
