use cpmm_lp_lock::instructions::collect_fees::CollectFees;
use cpmm_lp_lock::instructions::lock_lp::LockLp;
use cpmm_lp_lock::instructions::unlock_lp::UnlockLp;
use cpmm_lp_lock::pubkey::Pubkey;
use cpmm_lp_lock::states::{LpLockCounter, PoolState, UserLock};

fn registry_key(n: u8) -> Pubkey {
    Pubkey::new_from_array([n; 32])
}

fn registry_pool(reserve: u64) -> PoolState {
    PoolState {
        token_0_vault: registry_key(10),
        token_1_vault: registry_key(11),
        lp_mint: registry_key(2),
        lp_supply: 1_000_000,
        total_token_0_amount: reserve,
        total_token_1_amount: reserve,
    }
}

fn sum_of_active(locks: &[UserLock]) -> u64 {
    let mut sum = 0;
    for lock in locks {
        if !lock.is_unlocked {
            sum += lock.lock_amount;
        }
    }
    sum
}

fn make_lock(counter: &mut LpLockCounter, amount: u64, duration: u64, now: i64, reserve: u64) -> UserLock {
    let mut ctx = LockLp {
        owner: registry_key(1),
        owner_lp_token: registry_key(22),
        lp_lock_vault: registry_key(31),
        pool_state: registry_pool(reserve),
        lp_mint: registry_key(2),
        lp_lock_counter: *counter,
        user_lp_lock: UserLock::default(),
        user_lp_lock_bump: 255,
        token_0_vault: registry_key(10),
        token_1_vault: registry_key(11),
    };
    if duration == 0 {
        cpmm_lp_lock::lock_lp_permanent(&mut ctx, amount, Some(now)).unwrap();
    } else {
        cpmm_lp_lock::lock_lp(&mut ctx, amount, duration, Some(now)).unwrap();
    }
    *counter = ctx.lp_lock_counter;
    ctx.user_lp_lock
}

fn collect_from(counter: &mut LpLockCounter, lock: &mut UserLock, now: u64, reserve: u64) -> bool {
    let mut ctx = CollectFees {
        owner: registry_key(1),
        authority: registry_key(20),
        lock_vault_authority: registry_key(32),
        lp_lock_vault: registry_key(31),
        pool_id: registry_key(21),
        pool_state: registry_pool(reserve),
        owner_lp_token: registry_key(22),
        lp_mint: registry_key(2),
        lp_lock_counter: *counter,
        user_lp_lock: *lock,
        token_0_account: registry_key(23),
        token_1_account: registry_key(24),
        token_0_vault: registry_key(10),
        token_1_vault: registry_key(11),
        token_program: registry_key(25),
        token_program_2022: registry_key(26),
        vault_0_mint: registry_key(27),
        vault_1_mint: registry_key(28),
        memo_program: registry_key(29),
        raydium_cpmm_program: registry_key(30),
    };
    let accepted = cpmm_lp_lock::collect_fees(&mut ctx, Some(now as i64)).is_ok();
    *counter = ctx.lp_lock_counter;
    *lock = ctx.user_lp_lock;
    accepted
}

fn release(counter: &mut LpLockCounter, lock: &mut UserLock, now: i64) -> bool {
    let mut ctx = UnlockLp {
        owner: registry_key(1),
        lock_vault_authority: registry_key(32),
        owner_lp_token: registry_key(22),
        lp_lock_vault: registry_key(31),
        pool_lp_mint: registry_key(2),
        lp_mint: registry_key(2),
        lp_lock_counter: *counter,
        user_lp_lock: *lock,
    };
    let accepted = cpmm_lp_lock::unlock_lp(&mut ctx, Some(now)).is_ok();
    *counter = ctx.lp_lock_counter;
    *lock = ctx.user_lp_lock;
    accepted
}

#[test]
fn the_registry_total_is_the_sum_of_the_active_locks() {
    let mut counter = LpLockCounter::default();
    let mut locks: Vec<UserLock> = Vec::new();
    assert_eq!(counter.total_lock_amount, sum_of_active(&locks));

    locks.push(make_lock(&mut counter, 1_000, 3_600, 100, 1_000_000));
    assert_eq!(counter.total_lock_amount, sum_of_active(&locks));
    locks.push(make_lock(&mut counter, 5_000, 0, 110, 1_000_000));
    assert_eq!(counter.total_lock_amount, sum_of_active(&locks));
    locks.push(make_lock(&mut counter, 250, 10, 120, 1_050_000));
    assert_eq!(counter.total_lock_amount, 6_250);
    assert_eq!(counter.total_lock_count, 3);
    assert_eq!(locks[0].lock_count, 1);
    assert_eq!(locks[1].lock_count, 2);
    assert_eq!(locks[2].lock_count, 3);

    assert!(collect_from(&mut counter, &mut locks[0], 200, 1_100_000));
    assert_eq!(counter.total_lock_amount, sum_of_active(&locks));
    assert_eq!(counter.total_lock_amount, 909 + 5_000 + 250);
    assert!(collect_from(&mut counter, &mut locks[1], 210, 1_100_000));
    assert_eq!(counter.total_lock_amount, sum_of_active(&locks));
    assert!(!collect_from(&mut counter, &mut locks[1], 220, 1_100_000));
    assert_eq!(counter.total_lock_amount, sum_of_active(&locks));

    assert!(!release(&mut counter, &mut locks[0], 3_699));
    assert_eq!(counter.total_lock_amount, sum_of_active(&locks));
    assert!(release(&mut counter, &mut locks[0], 3_700));
    assert_eq!(counter.total_lock_amount, sum_of_active(&locks));
    assert!(!release(&mut counter, &mut locks[0], 3_701));
    assert!(!release(&mut counter, &mut locks[1], 1_000_000));
    assert_eq!(counter.total_lock_amount, sum_of_active(&locks));
    assert!(release(&mut counter, &mut locks[2], 130));
    assert_eq!(counter.total_lock_amount, sum_of_active(&locks));
    assert_eq!(counter.total_lock_amount, locks[1].lock_amount);
    assert_eq!(counter.total_lock_count, 3);

    assert!(!collect_from(&mut counter, &mut locks[0], 4_000, 2_000_000));
    assert!(collect_from(&mut counter, &mut locks[1], 4_000, 2_000_000));
    assert_eq!(counter.total_lock_amount, sum_of_active(&locks));
    assert_eq!(locks[1].principal_liquidity, 5_000);
    assert_eq!(locks[1].lock_amount, 2_500);
}

#[test]
fn collections_leave_the_principal_as_it_was_locked() {
    let mut counter = LpLockCounter::default();
    let mut lock = make_lock(&mut counter, 123_456, 3_600, 100, 1_000_000);
    let made = lock;
    let mut reserve: u64 = 1_000_000;
    let mut collected = 0;
    let mut round: u64 = 0;
    while round < 25 {
        reserve += 10_007 * round;
        let held = lock.lock_amount;
        if collect_from(&mut counter, &mut lock, 200 + round, reserve) {
            collected += 1;
            assert!(lock.lock_amount < held);
        } else {
            assert_eq!(lock.lock_amount, held);
        }
        assert_eq!(lock.principal_liquidity, made.principal_liquidity);
        assert_eq!(lock.principal_token_0, made.principal_token_0);
        assert_eq!(lock.principal_token_1, made.principal_token_1);
        assert_eq!(lock.unlock_time, made.unlock_time);
        assert_eq!(lock.created_at, made.created_at);
        round += 1;
    }
    assert!(collected > 10);
    assert_eq!(made.principal_liquidity, 123_456);
}

#[test]
fn a_lock_that_was_just_made_has_earned_nothing() {
    let mut reserve: u64 = 999_983;
    let mut amount: u64 = 101;
    while amount < 900_000 {
        let mut counter = LpLockCounter::default();
        let mut lock = make_lock(&mut counter, amount, 60, 5, reserve);
        let made = lock;
        assert!(!collect_from(&mut counter, &mut lock, 6, reserve));
        assert_eq!(lock, made);
        assert_eq!(counter.total_lock_amount, amount);
        amount = amount * 3 + 7;
        reserve += 1_000_003;
    }
}
