//! What holds of a lock over its life, across operations.

use crate::clock::spec_block_timestamp;
use crate::curve::{
    floor_share, is_integer_sqrt, lemma_floor_share_is_tight, lemma_isqrt_is,
    lemma_liquidity_fits, lemma_liquidity_zero, lemma_product_fits, spec_liquidity,
};
use crate::error::{ErrorCode, LockError};
use crate::instructions::collect_fees::{
    liquidity_of_shares, spec_collect_fees, spec_settle_fees, CollectFees,
};
use crate::instructions::lock_lp::{spec_lock_lp, LockLp};
use crate::instructions::unlock_lp::{spec_unlock_lp, UnlockLp, Unlocked};
use crate::states::{LockState, LpLockCounter, PoolState, UserLock};
use vstd::prelude::*;

verus! {

/// The accounts of a collection once it is over: changed as the collection
/// says if it was accepted, untouched if it was refused.
pub open spec fn after_collect_fees(ctx: CollectFees, now: Option<i64>) -> CollectFees {
    match spec_collect_fees(ctx, now) {
        Ok((after, _)) => after,
        Err(_) => ctx,
    }
}

/// The lock and its registry after a series of collections, each with
/// accounts and a time of its own. Each collection finds the lock and the
/// registry as the one before left them; whatever lock and registry stand in
/// the accounts given for it are not looked at.
pub open spec fn after_collections(
    lock: UserLock,
    counter: LpLockCounter,
    calls: Seq<(CollectFees, Option<i64>)>,
) -> (UserLock, LpLockCounter)
    decreases calls.len(),
{
    if calls.len() == 0 {
        (lock, counter)
    } else {
        let before = after_collections(lock, counter, calls.drop_last());
        let after = after_collect_fees(
            CollectFees { user_lp_lock: before.0, lp_lock_counter: before.1, ..calls.last().0 },
            calls.last().1,
        );
        (after.user_lp_lock, after.lp_lock_counter)
    }
}

/// What a collection of fees never changes in a lock: everything but the
/// shares it holds, the fees it has paid out and the time of its last
/// change.
pub open spec fn same_principal(before: UserLock, after: UserLock) -> bool {
    &&& after.principal_liquidity == before.principal_liquidity
    &&& after.principal_token_0 == before.principal_token_0
    &&& after.principal_token_1 == before.principal_token_1
    &&& after.bump == before.bump
    &&& after.user == before.user
    &&& after.lp_mint == before.lp_mint
    &&& after.lock_count == before.lock_count
    &&& after.unlock_time == before.unlock_time
    &&& after.is_locked_permanently == before.is_locked_permanently
    &&& after.is_unlocked == before.is_unlocked
    &&& after.created_at == before.created_at
}

/// After any number of collections, whatever the pool did in between, the
/// liquidity that was locked is what it was when the lock was made, and so
/// is every other mark of the principal. The lock holds no more shares than
/// before, and has paid out no less in fees.
pub proof fn lemma_collections_keep_principal(
    lock: UserLock,
    counter: LpLockCounter,
    calls: Seq<(CollectFees, Option<i64>)>,
)
    ensures
        same_principal(lock, after_collections(lock, counter, calls).0),
        after_collections(lock, counter, calls).0.lock_amount <= lock.lock_amount,
        after_collections(lock, counter, calls).0.token_0_fees_collected
            >= lock.token_0_fees_collected,
        after_collections(lock, counter, calls).0.token_1_fees_collected
            >= lock.token_1_fees_collected,
        after_collections(lock, counter, calls).0.spec_state() == lock.spec_state(),
    decreases calls.len(),
{
    if calls.len() > 0 {
        lemma_collections_keep_principal(lock, counter, calls.drop_last());
    }
}

/// Of two collections in a row, the second leaves the lock with no more
/// shares than the first did.
pub proof fn lemma_lock_amount_never_grows(
    lock: UserLock,
    counter: LpLockCounter,
    calls: Seq<(CollectFees, Option<i64>)>,
)
    requires
        calls.len() > 0,
    ensures
        after_collections(lock, counter, calls).0.lock_amount <= after_collections(
            lock,
            counter,
            calls.drop_last(),
        ).0.lock_amount,
{
}

/// A lock that was released stays released: a second release, whoever asks
/// for it, at whatever time and with whatever pool, is refused as already
/// done, and no collection of fees is accepted.
pub proof fn lemma_release_is_final(
    ctx: UnlockLp,
    unix_timestamp: Option<i64>,
    again: UnlockLp,
    later: Option<i64>,
    collect: CollectFees,
    now: Option<i64>,
)
    requires
        spec_unlock_lp(ctx, unix_timestamp) is Ok,
        again.user_lp_lock == spec_unlock_lp(ctx, unix_timestamp)->Ok_0.0.user_lp_lock,
        collect.user_lp_lock == again.user_lp_lock,
    ensures
        again.user_lp_lock.spec_state() == LockState::Released,
        spec_unlock_lp(again, later) == Err::<(UnlockLp, Unlocked), LockError>(
            LockError::Code(ErrorCode::LockAlreadyUnlocked),
        ),
        spec_collect_fees(collect, now) is Err,
{
}

/// A released lock is at its end: whoever asks, at whatever time and with
/// whatever pool, no release and no collection of fees is accepted for it.
/// Asked by its owner for the mint it is of, the collection is refused as
/// one from a released lock.
pub proof fn lemma_released_lock_is_at_its_end(
    release: UnlockLp,
    unix_timestamp: Option<i64>,
    collect: CollectFees,
    now: Option<i64>,
)
    requires
        release.user_lp_lock.spec_state() == LockState::Released,
        collect.user_lp_lock.spec_state() == LockState::Released,
    ensures
        spec_unlock_lp(release, unix_timestamp) is Err,
        spec_collect_fees(collect, now) is Err,
        collect.user_lp_lock.user == collect.owner && collect.user_lp_lock.lp_mint
            == collect.lp_mint ==> spec_collect_fees(collect, now)->Err_0 == LockError::Code(
            ErrorCode::LockAlreadyUnlocked,
        ),
{
}

/// A permanent lock is never released: whoever asks, whenever, released or
/// not and whatever the pool, the release is refused as one of a permanent
/// lock.
pub proof fn lemma_permanent_lock_stays(ctx: UnlockLp, unix_timestamp: Option<i64>)
    requires
        ctx.user_lp_lock.is_locked_permanently,
    ensures
        spec_unlock_lp(ctx, unix_timestamp) == Err::<(UnlockLp, Unlocked), LockError>(
            LockError::Code(ErrorCode::LockIsPermanent),
        ),
{
}

/// A lock that was made permanent stays so through any number of
/// collections of fees: after them, too, its release is refused as one of a
/// permanent lock.
pub proof fn lemma_permanent_lock_stays_after_collections(
    lock: UserLock,
    counter: LpLockCounter,
    calls: Seq<(CollectFees, Option<i64>)>,
    ctx: UnlockLp,
    unix_timestamp: Option<i64>,
)
    requires
        lock.is_locked_permanently,
        ctx.user_lp_lock == after_collections(lock, counter, calls).0,
    ensures
        spec_unlock_lp(ctx, unix_timestamp) == Err::<(UnlockLp, Unlocked), LockError>(
            LockError::Code(ErrorCode::LockIsPermanent),
        ),
{
    lemma_collections_keep_principal(lock, counter, calls);
}

/// The shares that the escrow vault of a lock holds, if every accepted
/// operation is followed by the movement of shares that it asks for: none
/// before the lock is made and after it is released, and in between what
/// the lock says it holds.
pub open spec fn escrowed(lock: UserLock) -> nat {
    lock.counted_amount()
}

/// What goes into escrow when a lock is made is what the lock says it
/// holds.
pub proof fn lemma_lock_fills_escrow(
    ctx: LockLp,
    amount: u64,
    lock_duration: u64,
    lock_permanent: bool,
    unix_timestamp: Option<i64>,
)
    requires
        spec_lock_lp(ctx, amount, lock_duration, lock_permanent, unix_timestamp) is Ok,
    ensures
        ({
            let (after, locked) = spec_lock_lp(
                ctx,
                amount,
                lock_duration,
                lock_permanent,
                unix_timestamp,
            )->Ok_0;
            locked.escrow.amount == amount && escrowed(after.user_lp_lock) == amount
        }),
{
}

/// What a collection takes out of escrow is held there, and what stays is
/// what the lock then says it holds.
pub proof fn lemma_collection_leaves_escrow_matched(ctx: CollectFees, now: Option<i64>)
    requires
        spec_collect_fees(ctx, now) is Ok,
    ensures
        ({
            let (after, settlement) = spec_collect_fees(ctx, now)->Ok_0;
            settlement.lp_tokens_to_burn <= escrowed(ctx.user_lp_lock) && escrowed(
                after.user_lp_lock,
            ) == escrowed(ctx.user_lp_lock) - settlement.lp_tokens_to_burn
        }),
{
}

/// A release takes out of escrow all that is held there, and nothing is
/// left.
pub proof fn lemma_release_empties_escrow(ctx: UnlockLp, unix_timestamp: Option<i64>)
    requires
        spec_unlock_lp(ctx, unix_timestamp) is Ok,
    ensures
        ({
            let (after, unlocked) = spec_unlock_lp(ctx, unix_timestamp)->Ok_0;
            unlocked.release.amount == escrowed(ctx.user_lp_lock) && escrowed(after.user_lp_lock) == 0
        }),
{
}

/// A lock that was just made has earned nothing: a collection from the pool
/// as the locking found it is refused for want of shares to burn, whenever
/// it is asked for.
pub proof fn lemma_fresh_lock_has_no_fees(
    ctx: LockLp,
    amount: u64,
    lock_duration: u64,
    lock_permanent: bool,
    unix_timestamp: Option<i64>,
    collect: CollectFees,
    now: Option<i64>,
)
    requires
        spec_lock_lp(ctx, amount, lock_duration, lock_permanent, unix_timestamp) is Ok,
        collect.user_lp_lock == spec_lock_lp(
            ctx,
            amount,
            lock_duration,
            lock_permanent,
            unix_timestamp,
        )->Ok_0.0.user_lp_lock,
        collect.owner == ctx.owner,
        collect.lp_mint == ctx.lp_mint,
        collect.pool_state == ctx.pool_state,
        collect.token_0_vault == ctx.token_0_vault,
        collect.token_1_vault == ctx.token_1_vault,
    ensures
        spec_collect_fees(collect, now) is Err,
        spec_collect_fees(collect, now)->Err_0 == LockError::Code(ErrorCode::ZeroLpTokensToBurn),
{
    let pool = ctx.pool_state;
    let principal_0 = floor_share(amount, pool.lp_supply, pool.total_token_0_amount);
    let principal_1 = floor_share(amount, pool.lp_supply, pool.total_token_1_amount);
    lemma_liquidity_fits(principal_0 as u64, principal_1 as u64);
    lemma_liquidity_zero(principal_0, principal_1);
    lemma_product_fits(principal_0 as u64, principal_1 as u64);
    let liquidity = spec_liquidity(principal_0, principal_1);
    let shares = amount as nat;
    assert((liquidity * shares) / liquidity == shares) by (nonlinear_arith)
        requires
            liquidity > 0,
    ;
}

/// A collection right after a collection, with the same accounts and from
/// the pool as the first one found it, is decided by the settlement of the
/// shares that the first one left, and by nothing else that the first one
/// has not already passed: it is refused as that settlement is refused, and
/// where that settlement finds fees, it pays them out unless the lock's
/// fee totals or the clock stand against it.
///
/// This says no more than that the settlement is handed on. It does not say
/// that the second collection finds nothing: with reserves of 1374 and
/// 743236227 behind 782 shares, a lock of 393 shares for a liquidity of
/// 387615 yields 93 shares at first and one more share right after.
pub proof fn lemma_second_collection_follows_settlement(
    ctx: CollectFees,
    now: Option<i64>,
    later: Option<i64>,
)
    requires
        spec_collect_fees(ctx, now) is Ok,
    ensures
        ({
            let first = after_collect_fees(ctx, now);
            let second = spec_collect_fees(first, later);
            match spec_settle_fees(
                first.user_lp_lock.lock_amount,
                ctx.user_lp_lock.principal_liquidity,
                ctx.pool_state,
            ) {
                Err(e) => second is Err && second->Err_0 == e,
                Ok(s) => match second {
                    Ok((_, paid)) => paid == s,
                    Err(e) => e == LockError::Code(ErrorCode::Overflow) || spec_block_timestamp(
                        later,
                    ) == Err::<u64, LockError>(e),
                },
            }
        }),
{
}

/// The liquidity of shares of a pool that holds as much of one asset as of
/// the other is what they stand for of either.
pub proof fn lemma_liquidity_of_even_pool(shares: u64, pool: PoolState)
    requires
        pool.total_token_0_amount == pool.total_token_1_amount,
    ensures
        liquidity_of_shares(shares, pool) == floor_share(
            shares,
            pool.lp_supply,
            pool.total_token_0_amount,
        ),
{
    let worth = floor_share(shares, pool.lp_supply, pool.total_token_0_amount);
    assert(is_integer_sqrt(worth * worth, worth)) by (nonlinear_arith);
    lemma_isqrt_is(worth * worth, worth);
}

/// In a pool that holds as much of one asset as of the other, the shares
/// that an accepted settlement leaves in the lock stand for no more than the
/// locked liquidity.
pub proof fn lemma_even_pool_leaves_no_excess(
    lock_amount: u64,
    principal_liquidity: u64,
    pool: PoolState,
)
    requires
        pool.total_token_0_amount == pool.total_token_1_amount,
        spec_settle_fees(lock_amount, principal_liquidity, pool) is Ok,
    ensures
        liquidity_of_shares(
            spec_settle_fees(lock_amount, principal_liquidity, pool)->Ok_0.updated_principal_lp_tokens,
            pool,
        ) <= principal_liquidity,
        liquidity_of_shares(
            spec_settle_fees(lock_amount, principal_liquidity, pool)->Ok_0.updated_principal_lp_tokens,
            pool,
        ) <= liquidity_of_shares(lock_amount, pool),
{
    let left = spec_settle_fees(
        lock_amount,
        principal_liquidity,
        pool,
    )->Ok_0.updated_principal_lp_tokens;
    lemma_liquidity_of_even_pool(lock_amount, pool);
    lemma_liquidity_of_even_pool(left, pool);
    let supply = pool.lp_supply as nat;
    let reserve = pool.total_token_0_amount as nat;
    let shares = lock_amount as nat;
    let principal = principal_liquidity as nat;
    let kept = left as nat;
    let worth = floor_share(lock_amount, pool.lp_supply, pool.total_token_0_amount);
    let kept_worth = floor_share(left, pool.lp_supply, pool.total_token_0_amount);
    lemma_floor_share_is_tight(shares, supply, reserve);
    lemma_floor_share_is_tight(kept, supply, reserve);
    // What is kept is the locked liquidity's part of the shares, rounded
    // down, and it is less than all of them.
    assert(kept == (principal * shares) / worth);
    assert(kept * worth <= principal * shares) by (nonlinear_arith)
        requires
            kept == (principal * shares) / worth,
            worth > 0,
    ;
    assert(principal < worth) by (nonlinear_arith)
        requires
            (principal * shares) / worth < shares,
            worth > 0,
    ;
    assert(kept_worth <= worth) by (nonlinear_arith)
        requires
            kept_worth * supply <= kept * reserve,
            shares * reserve < (worth + 1) * supply,
            kept < shares,
            supply > 0,
    ;
    if kept_worth > principal {
        assert(kept > 0) by (nonlinear_arith)
            requires
                kept_worth * supply <= kept * reserve,
                kept_worth > 0,
                supply > 0,
        ;
        // The worth of what is kept, times all the shares, is less than
        // what is kept times the worth of all and one more.
        assert(kept_worth * supply * shares <= kept * reserve * shares) by (nonlinear_arith)
            requires
                kept_worth * supply <= kept * reserve,
        ;
        assert(kept * (shares * reserve) < kept * ((worth + 1) * supply)) by (nonlinear_arith)
            requires
                shares * reserve < (worth + 1) * supply,
                kept > 0,
        ;
        assert(kept * reserve * shares == kept * (shares * reserve)) by (nonlinear_arith);
        assert(kept * ((worth + 1) * supply) == (kept * (worth + 1)) * supply)
            by (nonlinear_arith);
        assert(kept_worth * supply * shares == (kept_worth * shares) * supply)
            by (nonlinear_arith);
        assert(kept_worth * shares < kept * (worth + 1)) by (nonlinear_arith)
            requires
                (kept_worth * shares) * supply < (kept * (worth + 1)) * supply,
                supply > 0,
        ;
        assert((kept_worth * shares) * worth < (kept * (worth + 1)) * worth) by (nonlinear_arith)
            requires
                kept_worth * shares < kept * (worth + 1),
                worth > 0,
        ;
        assert((kept * (worth + 1)) * worth == (kept * worth) * (worth + 1)) by (nonlinear_arith);
        assert((kept * worth) * (worth + 1) <= (principal * shares) * (worth + 1))
            by (nonlinear_arith)
            requires
                kept * worth <= principal * shares,
        ;
        assert((kept_worth * shares) * worth == (kept_worth * worth) * shares)
            by (nonlinear_arith);
        assert((principal * shares) * (worth + 1) == (principal * (worth + 1)) * shares)
            by (nonlinear_arith);
        assert(kept_worth * worth < principal * (worth + 1)) by (nonlinear_arith)
            requires
                (kept_worth * worth) * shares < (principal * (worth + 1)) * shares,
                shares > 0,
        ;
        assert(false) by (nonlinear_arith)
            requires
                kept_worth * worth < principal * (worth + 1),
                kept_worth >= principal + 1,
                principal < worth,
        ;
    }
}

/// In a pool that holds as much of one asset as of the other, a collection
/// right after a collection, with the same accounts and from the pool as the
/// first one found it, is never accepted, whenever it is asked for. It is
/// refused because the shares that are left stand for no liquidity, for
/// less than the locked liquidity, or for it to the share; and, being
/// refused, it changes nothing.
pub proof fn lemma_nothing_left_to_collect(ctx: CollectFees, now: Option<i64>, later: Option<i64>)
    requires
        spec_collect_fees(ctx, now) is Ok,
        ctx.pool_state.total_token_0_amount == ctx.pool_state.total_token_1_amount,
    ensures
        spec_collect_fees(after_collect_fees(ctx, now), later) is Err,
        ({
            let refusal = spec_collect_fees(after_collect_fees(ctx, now), later)->Err_0;
            ||| refusal == LockError::Code(ErrorCode::ZeroLpTokensToBurn)
            ||| refusal == LockError::Code(ErrorCode::Overflow)
            ||| refusal == LockError::Code(ErrorCode::ZeroLiquidity)
        }),
        after_collect_fees(after_collect_fees(ctx, now), later) == after_collect_fees(ctx, now),
{
    let pool = ctx.pool_state;
    let lock = ctx.user_lp_lock;
    let left = after_collect_fees(ctx, now).user_lp_lock.lock_amount;
    lemma_even_pool_leaves_no_excess(lock.lock_amount, lock.principal_liquidity, pool);
    lemma_liquidity_of_even_pool(lock.lock_amount, pool);
    lemma_liquidity_of_even_pool(left, pool);
    let liquidity = liquidity_of_shares(left, pool);
    let worth = liquidity_of_shares(lock.lock_amount, pool);
    assert(liquidity * liquidity <= worth * worth) by (nonlinear_arith)
        requires
            liquidity <= worth,
    ;
    if liquidity > 0 {
        let principal = lock.principal_liquidity as nat;
        let kept = left as nat;
        assert((principal * kept) / liquidity >= kept) by (nonlinear_arith)
            requires
                liquidity <= principal,
                liquidity > 0,
        ;
    }
}

} // verus!
