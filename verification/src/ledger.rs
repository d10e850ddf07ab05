//! The registry and the locks it counts, taken together.
//!
//! Every operation touches one lock and the registry of its owner and mint.
//! Here the registry is held against all the locks of that owner and mint
//! at once: what it says is what they add up to, before and after every
//! operation.

use crate::error::{ErrorCode, LockError};
use crate::instructions::collect_fees::{spec_collect_fees, CollectFees};
use crate::instructions::lock_lp::{spec_lock_lp, LockLp};
use crate::instructions::unlock_lp::{spec_unlock_lp, UnlockLp};
use crate::states::{LpLockCounter, UserLock};
use vstd::prelude::*;

verus! {

/// The shares held by those of `locks` that are not released.
pub open spec fn locked_total(locks: Seq<UserLock>) -> nat
    decreases locks.len(),
{
    if locks.len() == 0 {
        0
    } else {
        locked_total(locks.drop_last()) + locks.last().counted_amount()
    }
}

/// The registry agrees with the locks of its owner and mint, given in the
/// order in which they were made: it has counted each of them, each bears
/// its index and the registry's owner and mint, and the registry's total is
/// what the locks that are not released hold. A registry that was never
/// written has no locks.
pub open spec fn consistent(counter: LpLockCounter, locks: Seq<UserLock>) -> bool {
    &&& counter.total_lock_count == locks.len()
    &&& counter.total_lock_amount == locked_total(locks)
    &&& counter.is_vacant() ==> locks.len() == 0
    &&& forall|i: int|
        0 <= i < locks.len() ==> {
            &&& (#[trigger] locks[i]).lock_count == i + 1
            &&& locks[i].user == counter.user
            &&& locks[i].lp_mint == counter.lp_mint
        }
}

/// Replacing one lock changes the total by the difference of what the two
/// locks count for.
pub proof fn lemma_locked_total_update(locks: Seq<UserLock>, i: int, lock: UserLock)
    requires
        0 <= i < locks.len(),
    ensures
        locked_total(locks.update(i, lock)) == locked_total(locks) - locks[i].counted_amount()
            + lock.counted_amount(),
        locks[i].counted_amount() <= locked_total(locks),
    decreases locks.len(),
{
    let updated = locks.update(i, lock);
    if i == locks.len() - 1 {
        assert(updated.drop_last() =~= locks.drop_last());
    } else {
        lemma_locked_total_update(locks.drop_last(), i, lock);
        assert(updated.drop_last() =~= locks.drop_last().update(i, lock));
    }
}

/// A registry that agrees with its locks still does after a locking, with
/// the new lock as the last of them. The registry presented has to be the
/// one of the owner and the mint, or vacant; and the owner's address is not
/// the one of all zeros, which is what marks a registry as vacant.
pub proof fn lemma_lock_keeps_registry(
    ctx: LockLp,
    amount: u64,
    lock_duration: u64,
    lock_permanent: bool,
    unix_timestamp: Option<i64>,
    locks: Seq<UserLock>,
)
    requires
        consistent(ctx.lp_lock_counter, locks),
        !ctx.lp_lock_counter.is_vacant() ==> ctx.lp_lock_counter.user == ctx.owner
            && ctx.lp_lock_counter.lp_mint == ctx.lp_mint,
        !ctx.owner.spec_is_default(),
    ensures
        match spec_lock_lp(ctx, amount, lock_duration, lock_permanent, unix_timestamp) {
            Ok((after, _)) => consistent(after.lp_lock_counter, locks.push(after.user_lp_lock)),
            Err(_) => true,
        },
{
    match spec_lock_lp(ctx, amount, lock_duration, lock_permanent, unix_timestamp) {
        Ok((after, _)) => {
            let grown = locks.push(after.user_lp_lock);
            assert(grown.drop_last() =~= locks);
            assert(grown.last() == after.user_lp_lock);
        },
        Err(_) => {},
    }
}

/// A registry that agrees with its locks still does after a collection of
/// fees from one of them, and the collection is not refused for a total that
/// is too small.
pub proof fn lemma_collect_keeps_registry(
    ctx: CollectFees,
    now: Option<i64>,
    locks: Seq<UserLock>,
    i: int,
)
    requires
        consistent(ctx.lp_lock_counter, locks),
        0 <= i < locks.len(),
        locks[i] == ctx.user_lp_lock,
    ensures
        match spec_collect_fees(ctx, now) {
            Ok((after, _)) => consistent(after.lp_lock_counter, locks.update(i, after.user_lp_lock)),
            Err(e) => e != LockError::Code(ErrorCode::UnderflowError),
        },
{
    lemma_locked_total_update(locks, i, ctx.user_lp_lock);
    match spec_collect_fees(ctx, now) {
        Ok((after, _)) => {
            lemma_locked_total_update(locks, i, after.user_lp_lock);
        },
        Err(_) => {},
    }
}

/// A registry that agrees with its locks still does after the release of
/// one of them, and the release is not refused for a total that is too
/// small.
pub proof fn lemma_unlock_keeps_registry(
    ctx: UnlockLp,
    unix_timestamp: Option<i64>,
    locks: Seq<UserLock>,
    i: int,
)
    requires
        consistent(ctx.lp_lock_counter, locks),
        0 <= i < locks.len(),
        locks[i] == ctx.user_lp_lock,
    ensures
        match spec_unlock_lp(ctx, unix_timestamp) {
            Ok((after, _)) => consistent(after.lp_lock_counter, locks.update(i, after.user_lp_lock)),
            Err(e) => e != LockError::Code(ErrorCode::UnderflowError),
        },
{
    lemma_locked_total_update(locks, i, ctx.user_lp_lock);
    match spec_unlock_lp(ctx, unix_timestamp) {
        Ok((after, _)) => {
            lemma_locked_total_update(locks, i, after.user_lp_lock);
        },
        Err(_) => {},
    }
}

} // verus!
