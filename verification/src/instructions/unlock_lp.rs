//! Releasing a lock.

use crate::clock::{block_timestamp, spec_block_timestamp};
use crate::error::{ErrorCode, LockError};
use crate::instruction::TokenTransfer;
use crate::pubkey::Pubkey;
use crate::states::{LockState, LpLockCounter, LpUnlockEvent, UserLock};
use vstd::prelude::*;

verus! {

/// The accounts of a release: their addresses, and of those that the program
/// reads or writes, what they hold.
#[derive(Clone, Copy, Debug, PartialEq, Eq)]
pub struct UnlockLp {
    /// The signer, who has to own the lock.
    pub owner: Pubkey,
    /// The authority over every escrow vault.
    pub lock_vault_authority: Pubkey,
    /// The owner's account of pool shares.
    pub owner_lp_token: Pubkey,
    /// The escrow vault of the lock.
    pub lp_lock_vault: Pubkey,
    /// The mint of the shares of the pool that is presented.
    pub pool_lp_mint: Pubkey,
    /// The mint of the pool's shares.
    pub lp_mint: Pubkey,
    /// The registry of the owner's locks on this mint.
    pub lp_lock_counter: LpLockCounter,
    /// The lock.
    pub user_lp_lock: UserLock,
}

/// What the caller has to do once a release is accepted.
#[derive(Clone, Copy, Debug, PartialEq, Eq)]
pub struct Unlocked {
    /// The shares to move from the escrow vault back to the owner: all that
    /// the lock still held.
    pub release: TokenTransfer,
    /// The notice to give.
    pub event: LpUnlockEvent,
}

/// What `unlock_lp` does to the accounts, and what it asks of the caller.
///
/// A permanent lock is never released, whoever asks and whenever, and no
/// lock is released twice. The lock has to be the signer's, and its time
/// has to have come. The pool and the lock have to be of the share mint
/// that is presented. The lock is then marked as
/// released, and its shares leave the registry's total.
pub open spec fn spec_unlock_lp(ctx: UnlockLp, unix_timestamp: Option<i64>) -> Result<
    (UnlockLp, Unlocked),
    LockError,
> {
    let lock = ctx.user_lp_lock;
    let counter = ctx.lp_lock_counter;
    if lock.is_locked_permanently {
        Err(LockError::Code(ErrorCode::LockIsPermanent))
    } else if lock.is_unlocked {
        Err(LockError::Code(ErrorCode::LockAlreadyUnlocked))
    } else if lock.user != ctx.owner {
        Err(LockError::ConstraintRaw)
    } else {
        match spec_block_timestamp(unix_timestamp) {
            Err(e) => Err(e),
            Ok(now) => if now < lock.unlock_time {
                Err(LockError::Code(ErrorCode::UnlockTimeNotReached))
            } else if ctx.pool_lp_mint != ctx.lp_mint || lock.lp_mint != ctx.lp_mint {
                Err(LockError::Code(ErrorCode::IncorrectLpMint))
            } else if counter.total_lock_amount < lock.lock_amount {
                Err(LockError::Code(ErrorCode::UnderflowError))
            } else {
                Ok(
                    (
                        UnlockLp {
                            lp_lock_counter: LpLockCounter {
                                total_lock_amount: (counter.total_lock_amount
                                    - lock.lock_amount) as u64,
                                ..counter
                            },
                            user_lp_lock: UserLock { is_unlocked: true, last_updated: now, ..lock },
                            ..ctx
                        },
                        Unlocked {
                            release: TokenTransfer {
                                from: ctx.lp_lock_vault,
                                to: ctx.owner_lp_token,
                                authority: ctx.lock_vault_authority,
                                mint: ctx.lp_mint,
                                amount: lock.lock_amount,
                            },
                            event: LpUnlockEvent {
                                user: lock.user,
                                amount: lock.lock_amount,
                                lp_mint: lock.lp_mint,
                            },
                        },
                    ),
                )
            },
        }
    }
}

/// Releases the lock.
///
/// On success the lock is marked as released, the registry no longer counts
/// its shares, and the caller is told to move the shares that the lock still
/// held from the escrow vault to the owner. On refusal nothing has changed.
pub fn unlock_lp(ctx: &mut UnlockLp, unix_timestamp: Option<i64>) -> (r: Result<Unlocked, LockError>)
    ensures
        match spec_unlock_lp(*old(ctx), unix_timestamp) {
            Ok((after, unlocked)) => *final(ctx) == after && r == Ok::<Unlocked, LockError>(unlocked),
            Err(e) => *final(ctx) == *old(ctx) && r == Err::<Unlocked, LockError>(e),
        },
        old(ctx).user_lp_lock.is_locked_permanently ==> r == Err::<Unlocked, LockError>(
            LockError::Code(ErrorCode::LockIsPermanent),
        ),
        !old(ctx).user_lp_lock.is_locked_permanently && old(ctx).user_lp_lock.is_unlocked ==> r
            == Err::<Unlocked, LockError>(LockError::Code(ErrorCode::LockAlreadyUnlocked)),
        r is Ok ==> old(ctx).user_lp_lock.spec_state() == LockState::TimeLocked,
        r is Ok ==> final(ctx).user_lp_lock.spec_state() == LockState::Released,
        r matches Ok(unlocked) ==> unlocked.release.amount == old(ctx).user_lp_lock.lock_amount,
        old(ctx).user_lp_lock.wf() ==> final(ctx).user_lp_lock.wf(),
{
    if ctx.user_lp_lock.is_locked_permanently {
        return Err(LockError::Code(ErrorCode::LockIsPermanent));
    }
    if ctx.user_lp_lock.is_unlocked {
        return Err(LockError::Code(ErrorCode::LockAlreadyUnlocked));
    }
    if !(ctx.user_lp_lock.user == ctx.owner) {
        return Err(LockError::ConstraintRaw);
    }
    let now = match block_timestamp(unix_timestamp) {
        Ok(now) => now,
        Err(e) => {
            return Err(e);
        },
    };
    if now < ctx.user_lp_lock.unlock_time {
        return Err(LockError::Code(ErrorCode::UnlockTimeNotReached));
    }
    if !(ctx.pool_lp_mint == ctx.lp_mint) || !(ctx.user_lp_lock.lp_mint == ctx.lp_mint) {
        return Err(LockError::Code(ErrorCode::IncorrectLpMint));
    }
    let total_lock_amount = match ctx.lp_lock_counter.total_lock_amount.checked_sub(
        ctx.user_lp_lock.lock_amount,
    ) {
        Some(total) => total,
        None => {
            return Err(LockError::Code(ErrorCode::UnderflowError));
        },
    };
    ctx.user_lp_lock.is_unlocked = true;
    ctx.user_lp_lock.last_updated = now;
    ctx.lp_lock_counter.total_lock_amount = total_lock_amount;
    Ok(
        Unlocked {
            release: TokenTransfer {
                from: ctx.lp_lock_vault,
                to: ctx.owner_lp_token,
                authority: ctx.lock_vault_authority,
                mint: ctx.lp_mint,
                amount: ctx.user_lp_lock.lock_amount,
            },
            event: LpUnlockEvent {
                user: ctx.user_lp_lock.user,
                amount: ctx.user_lp_lock.lock_amount,
                lp_mint: ctx.user_lp_lock.lp_mint,
            },
        },
    )
}

} // verus!
