use cpmm_lp_lock::error::{ErrorCode, LockError};
use cpmm_lp_lock::instruction::{AccountMeta, TokenTransfer};
use cpmm_lp_lock::instructions::collect_fees::{
    settle_fees, withdraw_instruction, CollectFees, FeeSettlement, Withdraw, WITHDRAW_ENTRY_POINT,
};
use cpmm_lp_lock::pubkey::Pubkey;
use cpmm_lp_lock::states::{CollectFeesEvent, LpLockCounter, PoolState, UserLock};

fn fee_key(n: u8) -> Pubkey {
    Pubkey::new_from_array([n; 32])
}

fn grown_pool() -> PoolState {
    PoolState {
        token_0_vault: fee_key(10),
        token_1_vault: fee_key(11),
        lp_mint: fee_key(2),
        lp_supply: 1_000_000,
        total_token_0_amount: 1_100_000,
        total_token_1_amount: 1_100_000,
    }
}

fn thousand_share_lock() -> UserLock {
    UserLock {
        bump: 254,
        user: fee_key(1),
        lp_mint: fee_key(2),
        lock_count: 1,
        lock_amount: 1_000,
        unlock_time: 1_700_003_600,
        principal_token_0: 1_000,
        principal_token_1: 1_000,
        principal_liquidity: 1_000,
        is_locked_permanently: false,
        token_0_fees_collected: 0,
        token_1_fees_collected: 0,
        is_unlocked: false,
        last_updated: 1_700_000_000,
        created_at: 1_700_000_000,
    }
}

fn fee_accounts() -> CollectFees {
    CollectFees {
        owner: fee_key(1),
        authority: fee_key(20),
        lock_vault_authority: fee_key(32),
        lp_lock_vault: fee_key(31),
        pool_id: fee_key(21),
        pool_state: grown_pool(),
        owner_lp_token: fee_key(22),
        lp_mint: fee_key(2),
        lp_lock_counter: LpLockCounter {
            user: fee_key(1),
            lp_mint: fee_key(2),
            total_lock_count: 1,
            total_lock_amount: 1_000,
        },
        user_lp_lock: thousand_share_lock(),
        token_0_account: fee_key(23),
        token_1_account: fee_key(24),
        token_0_vault: fee_key(10),
        token_1_vault: fee_key(11),
        token_program: fee_key(25),
        token_program_2022: fee_key(26),
        vault_0_mint: fee_key(27),
        vault_1_mint: fee_key(28),
        memo_program: fee_key(29),
        raydium_cpmm_program: fee_key(30),
    }
}

fn refusal(e: ErrorCode) -> LockError {
    LockError::Code(e)
}

#[test]
fn growth_of_a_tenth_frees_ninety_one_shares() {
    let settlement = settle_fees(1_000, 1_000, &grown_pool());
    assert_eq!(
        settlement,
        Ok(FeeSettlement {
            updated_principal_lp_tokens: 909,
            lp_tokens_to_burn: 91,
            token_0_amount: 100,
            token_1_amount: 100,
        })
    );
}

#[test]
fn collect_fees_updates_lock_and_registry() {
    let mut ctx = fee_accounts();
    let done = cpmm_lp_lock::collect_fees(&mut ctx, Some(1_700_000_500)).unwrap();
    assert_eq!(
        done.release,
        TokenTransfer {
            from: fee_key(31),
            to: fee_key(22),
            authority: fee_key(32),
            mint: fee_key(2),
            amount: 91,
        }
    );
    assert_eq!(
        done.event,
        CollectFeesEvent {
            user: fee_key(1),
            lp_mint: fee_key(2),
            token_0_amount: 100,
            token_1_amount: 100
        }
    );
    assert_eq!(ctx.user_lp_lock.lock_amount, 909);
    assert_eq!(
        ctx.user_lp_lock,
        UserLock {
            lock_amount: 909,
            token_0_fees_collected: 100,
            token_1_fees_collected: 100,
            last_updated: 1_700_000_500,
            ..thousand_share_lock()
        }
    );
    assert_eq!(ctx.user_lp_lock.principal_liquidity, 1_000);
    assert_eq!(ctx.lp_lock_counter.total_lock_amount, 909);
    assert_eq!(ctx.lp_lock_counter.total_lock_count, 1);
    let untouched = CollectFees {
        user_lp_lock: thousand_share_lock(),
        lp_lock_counter: fee_accounts().lp_lock_counter,
        ..ctx
    };
    assert_eq!(untouched, fee_accounts());
}

#[test]
fn fees_can_be_collected_before_the_unlock_time() {
    let mut ctx = fee_accounts();
    assert!(1 < ctx.user_lp_lock.unlock_time);
    assert!(cpmm_lp_lock::collect_fees(&mut ctx, Some(1)).is_ok());
    assert_eq!(ctx.user_lp_lock.last_updated, 1);
}

#[test]
fn fees_can_be_collected_from_a_permanent_lock() {
    let mut ctx = fee_accounts();
    ctx.user_lp_lock.is_locked_permanently = true;
    ctx.user_lp_lock.unlock_time = 0;
    assert!(cpmm_lp_lock::collect_fees(&mut ctx, Some(5)).is_ok());
    assert_eq!(ctx.user_lp_lock.lock_amount, 909);
    assert!(ctx.user_lp_lock.is_locked_permanently);
}

#[test]
fn a_second_collection_without_growth_finds_nothing() {
    let mut ctx = fee_accounts();
    cpmm_lp_lock::collect_fees(&mut ctx, Some(10)).unwrap();
    let before = ctx;
    let r = cpmm_lp_lock::collect_fees(&mut ctx, Some(20));
    assert_eq!(r, Err(refusal(ErrorCode::ZeroLpTokensToBurn)));
    assert_eq!(ctx, before);
}

#[test]
fn a_second_collection_after_the_withdrawal_finds_nothing() {
    let mut ctx = fee_accounts();
    cpmm_lp_lock::collect_fees(&mut ctx, Some(10)).unwrap();
    ctx.pool_state.lp_supply -= 91;
    ctx.pool_state.total_token_0_amount -= 100;
    ctx.pool_state.total_token_1_amount -= 100;
    let before = ctx;
    let r = cpmm_lp_lock::collect_fees(&mut ctx, Some(20));
    assert_eq!(r, Err(refusal(ErrorCode::ZeroLpTokensToBurn)));
    assert_eq!(ctx, before);
}

#[test]
fn a_collection_right_after_locking_finds_nothing() {
    let mut ctx = fee_accounts();
    ctx.pool_state.total_token_0_amount = 1_000_000;
    ctx.pool_state.total_token_1_amount = 1_000_000;
    let before = ctx;
    let r = cpmm_lp_lock::collect_fees(&mut ctx, Some(20));
    assert_eq!(r, Err(refusal(ErrorCode::ZeroLpTokensToBurn)));
    assert_eq!(ctx, before);
}

#[test]
fn rounding_can_leave_a_second_collection_short_of_the_principal() {
    let pool = PoolState { lp_supply: 194, total_token_0_amount: 66, total_token_1_amount: 1_011, ..grown_pool() };
    assert_eq!(
        settle_fees(186, 180, &pool),
        Ok(FeeSettlement {
            updated_principal_lp_tokens: 135,
            lp_tokens_to_burn: 51,
            token_0_amount: 17,
            token_1_amount: 265,
        })
    );
    assert_eq!(settle_fees(135, 180, &pool), Err(refusal(ErrorCode::Overflow)));
}

#[test]
fn successive_collections_never_raise_the_lock_amount() {
    let mut ctx = fee_accounts();
    let mut last_amount = ctx.user_lp_lock.lock_amount;
    let mut reserve: u64 = 1_000_000;
    let mut round: u64 = 0;
    while round < 40 {
        reserve += 37_003 * (round % 3);
        ctx.pool_state.total_token_0_amount = reserve;
        ctx.pool_state.total_token_1_amount = reserve + round;
        let before = ctx;
        match cpmm_lp_lock::collect_fees(&mut ctx, Some(round as i64)) {
            Ok(done) => {
                assert!(done.release.amount > 0);
                assert_eq!(ctx.user_lp_lock.lock_amount + done.release.amount, last_amount);
            }
            Err(_) => assert_eq!(ctx, before),
        }
        assert!(ctx.user_lp_lock.lock_amount <= last_amount);
        assert_eq!(ctx.user_lp_lock.principal_liquidity, 1_000);
        assert_eq!(ctx.lp_lock_counter.total_lock_amount, ctx.user_lp_lock.lock_amount);
        last_amount = ctx.user_lp_lock.lock_amount;
        round += 1;
    }
    assert!(last_amount < 1_000);
}

#[test]
fn a_released_lock_yields_no_fees() {
    let mut ctx = fee_accounts();
    ctx.user_lp_lock.is_unlocked = true;
    let before = ctx;
    let r = cpmm_lp_lock::collect_fees(&mut ctx, Some(20));
    assert_eq!(r, Err(refusal(ErrorCode::LockAlreadyUnlocked)));
    assert_eq!(ctx, before);
}

#[test]
fn only_the_owner_of_the_lock_collects() {
    let mut ctx = fee_accounts();
    ctx.owner = fee_key(99);
    let before = ctx;
    assert_eq!(cpmm_lp_lock::collect_fees(&mut ctx, Some(20)), Err(LockError::ConstraintRaw));
    assert_eq!(ctx, before);
}

#[test]
fn the_lock_has_to_be_of_the_share_mint() {
    let mut ctx = fee_accounts();
    ctx.lp_mint = fee_key(3);
    ctx.pool_state.lp_mint = fee_key(3);
    assert_eq!(cpmm_lp_lock::collect_fees(&mut ctx, Some(20)), Err(LockError::ConstraintRaw));
}

#[test]
fn collection_from_another_pool_is_refused() {
    let mut ctx = fee_accounts();
    ctx.pool_state.lp_mint = fee_key(3);
    let before = ctx;
    let r = cpmm_lp_lock::collect_fees(&mut ctx, Some(20));
    assert_eq!(r, Err(refusal(ErrorCode::IncorrectLpMint)));
    assert_eq!(ctx, before);
}

#[test]
fn collection_with_foreign_reserve_accounts_is_refused() {
    let mut ctx = fee_accounts();
    ctx.token_0_vault = fee_key(12);
    let before = ctx;
    assert_eq!(cpmm_lp_lock::collect_fees(&mut ctx, Some(20)), Err(LockError::RequireEqViolated));
    assert_eq!(ctx, before);
    let mut ctx = fee_accounts();
    ctx.pool_state.token_1_vault = fee_key(12);
    assert_eq!(cpmm_lp_lock::collect_fees(&mut ctx, Some(20)), Err(LockError::RequireEqViolated));
}

#[test]
fn settlement_with_a_pool_without_shares_is_refused() {
    let pool = PoolState { lp_supply: 0, ..grown_pool() };
    assert_eq!(settle_fees(1_000, 1_000, &pool), Err(refusal(ErrorCode::ZeroTradingTokens)));
}

#[test]
fn settlement_of_shares_without_liquidity_is_refused() {
    let pool = PoolState { total_token_0_amount: 999, ..grown_pool() };
    assert_eq!(settle_fees(1_000, 1_000, &pool), Err(refusal(ErrorCode::ZeroLiquidity)));
    let pool = PoolState { total_token_1_amount: 0, ..grown_pool() };
    assert_eq!(settle_fees(1_000, 1_000, &pool), Err(refusal(ErrorCode::ZeroLiquidity)));
}

#[test]
fn settlement_of_shares_worth_less_than_the_principal_overflows() {
    let pool =
        PoolState { total_token_0_amount: 900_000, total_token_1_amount: 900_000, ..grown_pool() };
    assert_eq!(settle_fees(1_000, 1_000, &pool), Err(refusal(ErrorCode::Overflow)));
    let pool = PoolState { lp_supply: u64::MAX, total_token_0_amount: u64::MAX, total_token_1_amount: u64::MAX, ..grown_pool() };
    assert_eq!(settle_fees(u64::MAX, u64::MAX, &pool), Err(refusal(ErrorCode::ZeroLpTokensToBurn)));
    let pool = PoolState { lp_supply: 1_000, total_token_0_amount: 1, total_token_1_amount: 1, ..grown_pool() };
    assert_eq!(settle_fees(1_000, u64::MAX, &pool), Err(refusal(ErrorCode::Overflow)));
}

#[test]
fn settlement_of_a_value_beyond_128_bits_overflows() {
    let pool = PoolState { lp_supply: 1, total_token_0_amount: u64::MAX, total_token_1_amount: u64::MAX, ..grown_pool() };
    assert_eq!(settle_fees(u64::MAX, 1, &pool), Err(refusal(ErrorCode::Overflow)));
}

#[test]
fn settlement_without_growth_is_refused() {
    let pool = PoolState { total_token_0_amount: 1_000_000, total_token_1_amount: 1_000_000, ..grown_pool() };
    assert_eq!(settle_fees(1_000, 1_000, &pool), Err(refusal(ErrorCode::ZeroLpTokensToBurn)));
}

#[test]
fn settlement_of_fees_worth_nothing_of_an_asset_is_refused() {
    let pool = PoolState { lp_supply: 689, total_token_0_amount: 6, total_token_1_amount: 2_286, ..grown_pool() };
    assert_eq!(
        settle_fees(635, 80, &pool),
        Ok(FeeSettlement {
            updated_principal_lp_tokens: 498,
            lp_tokens_to_burn: 137,
            token_0_amount: 1,
            token_1_amount: 454,
        })
    );
    let pool = PoolState { lp_supply: 1_000_000, total_token_0_amount: 1_001_000, total_token_1_amount: 1_001_000, ..grown_pool() };
    assert_eq!(
        settle_fees(1_000, 1_000, &pool),
        Ok(FeeSettlement {
            updated_principal_lp_tokens: 999,
            lp_tokens_to_burn: 1,
            token_0_amount: 1,
            token_1_amount: 1,
        })
    );
    let pool = PoolState { lp_supply: 1_000_000, total_token_0_amount: 20_000, total_token_1_amount: 80_000_000, ..grown_pool() };
    assert_eq!(settle_fees(1_000, 1_255, &pool), Err(refusal(ErrorCode::ZeroTradingTokens)));
}

#[test]
fn fees_are_capped_by_the_reserves() {
    let pool = PoolState { lp_supply: 10, total_token_0_amount: 50, total_token_1_amount: 50, ..grown_pool() };
    assert_eq!(
        settle_fees(1_000, 100, &pool),
        Ok(FeeSettlement {
            updated_principal_lp_tokens: 20,
            lp_tokens_to_burn: 980,
            token_0_amount: 50,
            token_1_amount: 50,
        })
    );
}

#[test]
fn a_registry_total_below_the_lock_amount_underflows() {
    let mut ctx = fee_accounts();
    ctx.lp_lock_counter.total_lock_amount = 999;
    let before = ctx;
    let r = cpmm_lp_lock::collect_fees(&mut ctx, Some(20));
    assert_eq!(r, Err(refusal(ErrorCode::UnderflowError)));
    assert_eq!(ctx, before);
}

#[test]
fn fee_totals_beyond_64_bits_overflow() {
    let mut ctx = fee_accounts();
    ctx.user_lp_lock.token_0_fees_collected = u64::MAX - 99;
    let before = ctx;
    let r = cpmm_lp_lock::collect_fees(&mut ctx, Some(20));
    assert_eq!(r, Err(refusal(ErrorCode::Overflow)));
    assert_eq!(ctx, before);
    let mut ctx = fee_accounts();
    ctx.user_lp_lock.token_1_fees_collected = u64::MAX - 99;
    assert_eq!(cpmm_lp_lock::collect_fees(&mut ctx, Some(20)), Err(refusal(ErrorCode::Overflow)));
    let mut ctx = fee_accounts();
    ctx.user_lp_lock.token_0_fees_collected = u64::MAX - 100;
    ctx.user_lp_lock.token_1_fees_collected = u64::MAX - 100;
    assert!(cpmm_lp_lock::collect_fees(&mut ctx, Some(20)).is_ok());
    assert_eq!(ctx.user_lp_lock.token_0_fees_collected, u64::MAX);
}

#[test]
fn other_locks_stay_counted_in_the_registry() {
    let mut ctx = fee_accounts();
    ctx.lp_lock_counter.total_lock_count = 3;
    ctx.lp_lock_counter.total_lock_amount = 5_000;
    cpmm_lp_lock::collect_fees(&mut ctx, Some(20)).unwrap();
    assert_eq!(ctx.lp_lock_counter.total_lock_amount, 4_909);
    assert_eq!(ctx.lp_lock_counter.total_lock_count, 3);
}

#[test]
fn withdraw_arguments_are_three_little_endian_numbers() {
    let params = Withdraw {
        lp_token_amount: 0x0102_0304_0506_0708,
        minimum_token_0_amount: 1,
        minimum_token_1_amount: u64::MAX,
    };
    assert_eq!(
        params.to_bytes(),
        vec![8, 7, 6, 5, 4, 3, 2, 1, 1, 0, 0, 0, 0, 0, 0, 0, 255, 255, 255, 255, 255, 255, 255, 255]
    );
}

#[test]
fn withdraw_call_names_the_entry_point_by_its_digest() {
    assert_eq!(WITHDRAW_ENTRY_POINT, "global:withdraw");
    let mut ctx = fee_accounts();
    let done = cpmm_lp_lock::collect_fees(&mut ctx, Some(20)).unwrap();
    let mut expected: Vec<u8> = vec![183, 18, 70, 156, 148, 109, 161, 34];
    expected.extend_from_slice(&91u64.to_le_bytes());
    expected.extend_from_slice(&0u64.to_le_bytes());
    expected.extend_from_slice(&0u64.to_le_bytes());
    assert_eq!(done.withdraw.data, expected);
    assert_eq!(done.withdraw.data.len(), 32);
    assert_eq!(done.withdraw.program_id, fee_key(30));
}

#[test]
fn withdraw_call_names_the_accounts_in_the_pools_order() {
    let mut ctx = fee_accounts();
    let done = cpmm_lp_lock::collect_fees(&mut ctx, Some(20)).unwrap();
    let writable = |n: u8| AccountMeta { pubkey: fee_key(n), is_signer: false, is_writable: true };
    let readonly = |n: u8| AccountMeta { pubkey: fee_key(n), is_signer: false, is_writable: false };
    assert_eq!(
        done.withdraw.accounts,
        vec![
            AccountMeta { pubkey: fee_key(1), is_signer: true, is_writable: true },
            readonly(20),
            writable(21),
            writable(22),
            writable(23),
            writable(24),
            writable(10),
            writable(11),
            readonly(25),
            readonly(26),
            readonly(27),
            readonly(28),
            writable(2),
            readonly(29),
        ]
    );
}

#[test]
fn withdraw_instruction_puts_the_discriminator_first() {
    let ctx = fee_accounts();
    let ix = withdraw_instruction(&ctx, vec![9, 8, 7], 5);
    assert_eq!(&ix.data[..3], &[9, 8, 7]);
    assert_eq!(&ix.data[3..11], &5u64.to_le_bytes());
    assert_eq!(ix.data.len(), 27);
    assert_eq!(ix.accounts.len(), 14);
}

#[test]
fn account_metas_are_writable_or_read_only() {
    assert_eq!(
        AccountMeta::new(fee_key(5), true),
        AccountMeta { pubkey: fee_key(5), is_signer: true, is_writable: true }
    );
    assert_eq!(
        AccountMeta::new_readonly(fee_key(5), false),
        AccountMeta { pubkey: fee_key(5), is_signer: false, is_writable: false }
    );
}

#[test]
fn the_clock_is_looked_at_last_in_a_collection() {
    let mut ctx = fee_accounts();
    let before = ctx;
    assert_eq!(
        cpmm_lp_lock::collect_fees(&mut ctx, None),
        Err(refusal(ErrorCode::ClockUnavailable))
    );
    assert_eq!(
        cpmm_lp_lock::collect_fees(&mut ctx, Some(-1)),
        Err(refusal(ErrorCode::InvalidTimestamp))
    );
    assert_eq!(ctx, before);
    ctx.user_lp_lock.token_0_fees_collected = u64::MAX;
    assert_eq!(cpmm_lp_lock::collect_fees(&mut ctx, None), Err(refusal(ErrorCode::Overflow)));
    let mut ctx = fee_accounts();
    ctx.lp_lock_counter.total_lock_amount = 0;
    assert_eq!(
        cpmm_lp_lock::collect_fees(&mut ctx, Some(-1)),
        Err(refusal(ErrorCode::UnderflowError))
    );
    let mut ctx = fee_accounts();
    ctx.pool_state.total_token_0_amount = 1_000_000;
    ctx.pool_state.total_token_1_amount = 1_000_000;
    assert_eq!(
        cpmm_lp_lock::collect_fees(&mut ctx, None),
        Err(refusal(ErrorCode::ZeroLpTokensToBurn))
    );
    let mut ctx = fee_accounts();
    assert!(cpmm_lp_lock::collect_fees(&mut ctx, Some(0)).is_ok());
    assert_eq!(ctx.user_lp_lock.last_updated, 0);
}

#[test]
fn a_second_collection_from_an_even_pool_can_fall_short_of_the_principal() {
    let mut ctx = fee_accounts();
    ctx.pool_state.lp_supply = 2_000_000;
    ctx.user_lp_lock.principal_liquidity = 500;
    let done = cpmm_lp_lock::collect_fees(&mut ctx, Some(10)).unwrap();
    assert_eq!(done.release.amount, 91);
    assert_eq!(done.event.token_0_amount, 50);
    assert_eq!(ctx.user_lp_lock.lock_amount, 909);
    let before = ctx;
    assert_eq!(cpmm_lp_lock::collect_fees(&mut ctx, Some(11)), Err(refusal(ErrorCode::Overflow)));
    assert_eq!(ctx, before);
    ctx.pool_state.lp_supply -= 91;
    ctx.pool_state.total_token_0_amount -= 50;
    ctx.pool_state.total_token_1_amount -= 50;
    let before = ctx;
    assert_eq!(cpmm_lp_lock::collect_fees(&mut ctx, Some(12)), Err(refusal(ErrorCode::Overflow)));
    assert_eq!(ctx, before);
}

#[test]
fn a_second_collection_from_an_uneven_pool_can_find_one_more_share() {
    let pool = PoolState {
        lp_supply: 782,
        total_token_0_amount: 1_374,
        total_token_1_amount: 743_236_227,
        ..grown_pool()
    };
    assert_eq!(
        settle_fees(393, 387_615, &pool),
        Ok(FeeSettlement {
            updated_principal_lp_tokens: 300,
            lp_tokens_to_burn: 93,
            token_0_amount: 163,
            token_1_amount: 88_389_986,
        })
    );
    assert_eq!(
        settle_fees(300, 387_615, &pool),
        Ok(FeeSettlement {
            updated_principal_lp_tokens: 299,
            lp_tokens_to_burn: 1,
            token_0_amount: 1,
            token_1_amount: 950_429,
        })
    );
}

#[test]
fn second_collections_from_even_pools_are_never_accepted() {
    let mut supply: u64 = 3;
    while supply < 40_000_000 {
        let mut reserve: u64 = 5;
        while reserve < 4_000_000_000 {
            let mut principal: u64 = 1;
            while principal < 2_000_000 {
                let mut ctx = fee_accounts();
                ctx.pool_state.lp_supply = supply;
                ctx.pool_state.total_token_0_amount = reserve;
                ctx.pool_state.total_token_1_amount = reserve;
                ctx.user_lp_lock.principal_liquidity = principal;
                ctx.user_lp_lock.lock_amount = 777;
                if cpmm_lp_lock::collect_fees(&mut ctx, Some(1)).is_ok() {
                    let before = ctx;
                    let second = cpmm_lp_lock::collect_fees(&mut ctx, Some(2));
                    assert!(
                        second == Err(refusal(ErrorCode::ZeroLpTokensToBurn))
                            || second == Err(refusal(ErrorCode::Overflow))
                            || second == Err(refusal(ErrorCode::ZeroLiquidity))
                    );
                    assert_eq!(ctx, before);
                }
                principal = principal * 3 + 1;
            }
            reserve = reserve * 7 + 3;
        }
        supply = supply * 5 + 2;
    }
}
