//! Lock accounting and fee settlement for liquidity-pool shares held in escrow.
//!
//! An owner of shares in a constant-product pool locks them for a time or
//! for ever. While they are locked, the owner can take out what the shares
//! have earned in fees, never the liquidity that was locked.

pub mod address;
pub mod clock;
pub mod curve;
pub mod error;
pub mod hash;
pub mod instruction;
pub mod instructions;
pub mod ledger;
pub mod lifecycle;
pub mod pubkey;
pub mod states;

use crate::error::LockError;
use crate::instructions::collect_fees::{
    spec_collect_fees, spec_release_of_fees, spec_withdraw_instruction, CollectFees, CollectedFees,
    WITHDRAW_ENTRY_POINT,
};
use crate::instructions::lock_lp::{spec_lock_lp, LockLp, Locked};
use crate::instructions::unlock_lp::{spec_unlock_lp, UnlockLp, Unlocked};
use crate::hash::spec_discriminator;
use crate::states::CollectFeesEvent;
use vstd::prelude::*;
use vstd::string::StringSliceAdditionalSpecFns;

verus! {

/// The tag under which the authority over every escrow vault is addressed.
pub const AUTH_SEED: &'static str = "lock_lp_auth_seed";

/// The tag under which the escrow vault of a lock is addressed.
pub const LP_LOCK_VAULT_SEED: &'static str = "lock_lp_vault";

/// Locks `amount` shares for `lock_duration` seconds from now. With a
/// duration of zero the lock can be released at once.
pub fn lock_lp(ctx: &mut LockLp, amount: u64, lock_duration: u64, unix_timestamp: Option<i64>) -> (r:
    Result<Locked, LockError>)
    ensures
        match spec_lock_lp(*old(ctx), amount, lock_duration, false, unix_timestamp) {
            Ok((after, locked)) => *final(ctx) == after && r == Ok::<Locked, LockError>(locked),
            Err(e) => *final(ctx) == *old(ctx) && r == Err::<Locked, LockError>(e),
        },
        r is Ok ==> final(ctx).user_lp_lock.wf(),
        r is Ok ==> unix_timestamp is Some && final(ctx).user_lp_lock.unlock_time
            == unix_timestamp->Some_0 + lock_duration,
        r is Ok ==> !final(ctx).user_lp_lock.is_locked_permanently,
{
    instructions::lock_lp::lock_lp(ctx, amount, lock_duration, false, unix_timestamp)
}

/// Locks `amount` shares for ever.
pub fn lock_lp_permanent(ctx: &mut LockLp, amount: u64, unix_timestamp: Option<i64>) -> (r: Result<
    Locked,
    LockError,
>)
    ensures
        match spec_lock_lp(*old(ctx), amount, 0, true, unix_timestamp) {
            Ok((after, locked)) => *final(ctx) == after && r == Ok::<Locked, LockError>(locked),
            Err(e) => *final(ctx) == *old(ctx) && r == Err::<Locked, LockError>(e),
        },
        r is Ok ==> final(ctx).user_lp_lock.wf(),
        r is Ok ==> final(ctx).user_lp_lock.unlock_time == 0,
        r is Ok ==> final(ctx).user_lp_lock.is_locked_permanently,
{
    instructions::lock_lp::lock_lp(ctx, amount, 0, true, unix_timestamp)
}

/// Releases a lock whose time has come.
pub fn unlock_lp(ctx: &mut UnlockLp, unix_timestamp: Option<i64>) -> (r: Result<Unlocked, LockError>)
    ensures
        match spec_unlock_lp(*old(ctx), unix_timestamp) {
            Ok((after, unlocked)) => *final(ctx) == after && r == Ok::<Unlocked, LockError>(unlocked),
            Err(e) => *final(ctx) == *old(ctx) && r == Err::<Unlocked, LockError>(e),
        },
{
    instructions::unlock_lp::unlock_lp(ctx, unix_timestamp)
}

/// Collects the fees that a lock has earned by now.
pub fn collect_fees(ctx: &mut CollectFees, unix_timestamp: Option<i64>) -> (r: Result<
    CollectedFees,
    LockError,
>)
    ensures
        match spec_collect_fees(*old(ctx), unix_timestamp) {
            Ok((after, s)) => {
                &&& *final(ctx) == after
                &&& r matches Ok(done)
                &&& done.release == spec_release_of_fees(*old(ctx), s.lp_tokens_to_burn)
                &&& done.withdraw@ == spec_withdraw_instruction(
                    *old(ctx),
                    spec_discriminator(WITHDRAW_ENTRY_POINT.spec_bytes()),
                    s.lp_tokens_to_burn,
                )
                &&& done.event == (CollectFeesEvent {
                    user: old(ctx).owner,
                    lp_mint: old(ctx).lp_mint,
                    token_0_amount: s.token_0_amount,
                    token_1_amount: s.token_1_amount,
                })
            },
            Err(e) => {
                &&& *final(ctx) == *old(ctx)
                &&& r matches Err(refusal)
                &&& refusal == e
            },
        },
{
    instructions::collect_fees::collect_fees(ctx, unix_timestamp)
}

} // verus!
