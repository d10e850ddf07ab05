//! Locking shares of a pool.

use crate::clock::{block_timestamp, spec_block_timestamp};
use crate::curve::{
    floor_share, lemma_floor_share_fits, lemma_product_fits, spec_liquidity, CurveCalculator,
    RoundDirection,
};
use crate::error::{ErrorCode, LockError};
use crate::instruction::TokenTransfer;
use crate::pubkey::Pubkey;
use crate::states::{LpLockCounter, LpLockEvent, PoolState, UserLock};
use vstd::prelude::*;

verus! {

/// A lock has to hold more shares than this.
pub const MIN_LOCK_AMOUNT: u64 = 100;

/// A lock that is not permanent has to last less than this many seconds:
/// five years of 365 days.
pub const MAX_LOCK_DURATION: u64 = 157_680_000;

/// The accounts of a locking: their addresses, and of those that the program
/// reads or writes, what they hold.
#[derive(Clone, Copy, Debug, PartialEq, Eq)]
pub struct LockLp {
    /// The signer, who owns the shares and will own the lock.
    pub owner: Pubkey,
    /// The owner's account of pool shares.
    pub owner_lp_token: Pubkey,
    /// The escrow vault of the new lock.
    pub lp_lock_vault: Pubkey,
    /// The state of the pool.
    pub pool_state: PoolState,
    /// The mint of the shares to lock.
    pub lp_mint: Pubkey,
    /// The registry of the owner's locks on this mint; vacant before the
    /// owner's first lock.
    pub lp_lock_counter: LpLockCounter,
    /// The record of the new lock, to be written.
    pub user_lp_lock: UserLock,
    /// The bump of the record's address.
    pub user_lp_lock_bump: u8,
    /// The account presented as the pool's reserve of its first asset.
    pub token_0_vault: Pubkey,
    /// The account presented as the pool's reserve of its second asset.
    pub token_1_vault: Pubkey,
}

/// What the caller has to do once a locking is accepted.
#[derive(Clone, Copy, Debug, PartialEq, Eq)]
pub struct Locked {
    /// The shares to move from the owner into the escrow vault of the lock,
    /// which has to be made first.
    pub escrow: TokenTransfer,
    /// The notice to give.
    pub event: LpLockEvent,
}

/// The registry as a locking finds it: one that was never written is taken
/// into use for the owner and the mint, with nothing counted.
pub open spec fn opened_counter(counter: LpLockCounter, owner: Pubkey, lp_mint: Pubkey) -> LpLockCounter {
    if counter.is_vacant() {
        LpLockCounter { user: owner, lp_mint, total_lock_count: 0, total_lock_amount: 0 }
    } else {
        counter
    }
}

/// The time from which a lock made at `now` can be released: none for a
/// permanent lock.
pub open spec fn spec_unlock_time(now: u64, lock_duration: u64, lock_permanent: bool) -> int {
    if lock_permanent {
        0
    } else {
        now + lock_duration
    }
}

/// What `lock_lp` does to the accounts, and what it asks of the caller.
///
/// More than `MIN_LOCK_AMOUNT` shares have to be locked, for less than
/// `MAX_LOCK_DURATION` unless for ever. The pool has to be the one whose
/// shares are locked, the reserve accounts have to be the pool's, and the
/// shares have to stand for something of both assets. The lock is written
/// with the next index of the registry, the shares as its amount, what they
/// stand for as its principal, and the liquidity of that as the liquidity
/// locked; the registry counts one lock and that many shares more.
pub open spec fn spec_lock_lp(
    ctx: LockLp,
    amount: u64,
    lock_duration: u64,
    lock_permanent: bool,
    unix_timestamp: Option<i64>,
) -> Result<(LockLp, Locked), LockError> {
    let counter = opened_counter(ctx.lp_lock_counter, ctx.owner, ctx.lp_mint);
    let pool = ctx.pool_state;
    let principal_0 = floor_share(amount, pool.lp_supply, pool.total_token_0_amount);
    let principal_1 = floor_share(amount, pool.lp_supply, pool.total_token_1_amount);
    if amount <= MIN_LOCK_AMOUNT {
        Err(LockError::Code(ErrorCode::InitLpAmountTooLess))
    } else if !lock_permanent && lock_duration >= MAX_LOCK_DURATION {
        Err(LockError::Code(ErrorCode::LockDurationTooLong))
    } else if counter.total_lock_count == u64::MAX {
        Err(LockError::Code(ErrorCode::Overflow))
    } else {
        match spec_block_timestamp(unix_timestamp) {
            Err(e) => Err(e),
            Ok(now) => if pool.lp_mint != ctx.lp_mint {
                Err(LockError::Code(ErrorCode::IncorrectLpMint))
            } else if pool.token_0_vault != ctx.token_0_vault || pool.token_1_vault
                != ctx.token_1_vault {
                Err(LockError::RequireEqViolated)
            } else if pool.lp_supply == 0 {
                Err(LockError::Code(ErrorCode::ZeroTradingTokens))
            } else if principal_0 == 0 || principal_1 == 0 {
                Err(LockError::RequireGtViolated)
            } else if principal_0 > u64::MAX || principal_1 > u64::MAX || counter.total_lock_amount
                + amount > u64::MAX {
                Err(LockError::Code(ErrorCode::Overflow))
            } else {
                Ok(
                    (
                        LockLp {
                            lp_lock_counter: LpLockCounter {
                                total_lock_count: (counter.total_lock_count + 1) as u64,
                                total_lock_amount: (counter.total_lock_amount + amount) as u64,
                                ..counter
                            },
                            user_lp_lock: UserLock {
                                bump: ctx.user_lp_lock_bump,
                                user: ctx.owner,
                                lp_mint: ctx.lp_mint,
                                lock_count: (counter.total_lock_count + 1) as u64,
                                lock_amount: amount,
                                unlock_time: spec_unlock_time(now, lock_duration, lock_permanent) as u64,
                                principal_token_0: principal_0 as u64,
                                principal_token_1: principal_1 as u64,
                                principal_liquidity: spec_liquidity(principal_0, principal_1) as u64,
                                is_locked_permanently: lock_permanent,
                                token_0_fees_collected: 0,
                                token_1_fees_collected: 0,
                                is_unlocked: false,
                                last_updated: now,
                                created_at: now,
                            },
                            ..ctx
                        },
                        Locked {
                            escrow: TokenTransfer {
                                from: ctx.owner_lp_token,
                                to: ctx.lp_lock_vault,
                                authority: ctx.owner,
                                mint: ctx.lp_mint,
                                amount,
                            },
                            event: LpLockEvent {
                                user: ctx.owner,
                                amount,
                                lp_mint: ctx.lp_mint,
                                locked_perm: lock_permanent,
                            },
                        },
                    ),
                )
            },
        }
    }
}

/// Locks `amount` shares for `lock_duration` seconds from now, or for ever.
///
/// On success the record of the lock and the registry are written, and the
/// caller is told to move `amount` shares from the owner into the escrow
/// vault of the lock, whose index stands in the record. On refusal nothing
/// has changed.
pub fn lock_lp(
    ctx: &mut LockLp,
    amount: u64,
    lock_duration: u64,
    lock_permanent: bool,
    unix_timestamp: Option<i64>,
) -> (r: Result<Locked, LockError>)
    ensures
        match spec_lock_lp(*old(ctx), amount, lock_duration, lock_permanent, unix_timestamp) {
            Ok((after, locked)) => *final(ctx) == after && r == Ok::<Locked, LockError>(locked),
            Err(e) => *final(ctx) == *old(ctx) && r == Err::<Locked, LockError>(e),
        },
        r is Ok ==> final(ctx).user_lp_lock.wf(),
        r is Ok ==> (final(ctx).user_lp_lock.unlock_time == 0 <==> lock_permanent
            || unix_timestamp == Some(0i64) && lock_duration == 0),
{
    if amount <= MIN_LOCK_AMOUNT {
        return Err(LockError::Code(ErrorCode::InitLpAmountTooLess));
    }
    if !lock_permanent && lock_duration >= MAX_LOCK_DURATION {
        return Err(LockError::Code(ErrorCode::LockDurationTooLong));
    }
    let counter = if ctx.lp_lock_counter.user.is_default() {
        LpLockCounter {
            user: ctx.owner,
            lp_mint: ctx.lp_mint,
            total_lock_count: 0,
            total_lock_amount: 0,
        }
    } else {
        ctx.lp_lock_counter
    };
    let new_lock_count = match counter.total_lock_count.checked_add(1) {
        Some(count) => count,
        None => {
            return Err(LockError::Code(ErrorCode::Overflow));
        },
    };
    let now = match block_timestamp(unix_timestamp) {
        Ok(now) => now,
        Err(e) => {
            return Err(e);
        },
    };
    let unlock_time = if lock_permanent {
        0
    } else {
        now + lock_duration
    };
    let pool = ctx.pool_state;
    if !(pool.lp_mint == ctx.lp_mint) {
        return Err(LockError::Code(ErrorCode::IncorrectLpMint));
    }
    if !(pool.token_0_vault == ctx.token_0_vault) || !(pool.token_1_vault == ctx.token_1_vault) {
        return Err(LockError::RequireEqViolated);
    }
    proof {
        lemma_product_fits(amount, pool.total_token_0_amount);
        lemma_product_fits(amount, pool.total_token_1_amount);
        if pool.lp_supply > 0 {
            lemma_floor_share_fits(amount, pool.lp_supply, pool.total_token_0_amount);
            lemma_floor_share_fits(amount, pool.lp_supply, pool.total_token_1_amount);
        }
    }
    let results = match CurveCalculator::lp_tokens_to_trading_tokens(
        amount as u128,
        pool.lp_supply as u128,
        pool.total_token_0_amount as u128,
        pool.total_token_1_amount as u128,
        RoundDirection::Floor,
    ) {
        Some(amounts) => amounts,
        None => {
            return Err(LockError::Code(ErrorCode::ZeroTradingTokens));
        },
    };
    if results.token_0_amount == 0 || results.token_1_amount == 0 {
        return Err(LockError::RequireGtViolated);
    }
    if results.token_0_amount > u64::MAX as u128 || results.token_1_amount > u64::MAX as u128 {
        return Err(LockError::Code(ErrorCode::Overflow));
    }
    let principal_token_0 = results.token_0_amount as u64;
    let principal_token_1 = results.token_1_amount as u64;
    let principal_liquidity = CurveCalculator::liquidity_of(principal_token_0, principal_token_1);
    let total_lock_amount = match counter.total_lock_amount.checked_add(amount) {
        Some(total) => total,
        None => {
            return Err(LockError::Code(ErrorCode::Overflow));
        },
    };
    ctx.user_lp_lock = UserLock {
        bump: ctx.user_lp_lock_bump,
        user: ctx.owner,
        lp_mint: ctx.lp_mint,
        lock_count: new_lock_count,
        lock_amount: amount,
        unlock_time,
        principal_token_0,
        principal_token_1,
        principal_liquidity,
        is_locked_permanently: lock_permanent,
        token_0_fees_collected: 0,
        token_1_fees_collected: 0,
        is_unlocked: false,
        last_updated: now,
        created_at: now,
    };
    ctx.lp_lock_counter = LpLockCounter { total_lock_count: new_lock_count, total_lock_amount, ..counter };
    Ok(
        Locked {
            escrow: TokenTransfer {
                from: ctx.owner_lp_token,
                to: ctx.lp_lock_vault,
                authority: ctx.owner,
                mint: ctx.lp_mint,
                amount,
            },
            event: LpLockEvent {
                user: ctx.owner,
                amount,
                lp_mint: ctx.lp_mint,
                locked_perm: lock_permanent,
            },
        },
    )
}

} // verus!
