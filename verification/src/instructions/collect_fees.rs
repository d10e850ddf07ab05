//! Collecting the fees that a lock has earned.
//!
//! A lock holds shares of a pool. As the pool earns fees, each share comes
//! to stand for more of the pool's assets, so fewer shares than the lock
//! holds stand for the liquidity that was locked. The shares in excess are
//! taken out of escrow and redeemed with the pool for the owner; the rest
//! stays locked.

use crate::clock::{block_timestamp, spec_block_timestamp};
use crate::curve::{
    floor_share, lemma_floor_share_fits, lemma_floor_share_is_tight, lemma_product_fits,
    spec_liquidity, CurveCalculator, RoundDirection,
};
use crate::error::{ErrorCode, LockError};
use crate::hash::{discriminator, spec_discriminator};
use crate::instruction::{AccountMeta, Instruction, InstructionView, TokenTransfer};
use crate::pubkey::Pubkey;
use crate::states::{CollectFeesEvent, LpLockCounter, PoolState, UserLock};
use vstd::bytes::{spec_u64_to_le_bytes, u64_to_le_bytes};
use vstd::prelude::*;
use vstd::string::StringSliceAdditionalSpecFns;

verus! {

/// The qualified name of the pool program's entry point that redeems shares.
pub const WITHDRAW_ENTRY_POINT: &'static str = "global:withdraw";

/// The arguments of the pool program's entry point that redeems shares.
#[derive(Clone, Copy, Debug, PartialEq, Eq, Structural)]
pub struct Withdraw {
    /// The number of shares to redeem.
    pub lp_token_amount: u64,
    /// The least of the first asset that the caller accepts.
    pub minimum_token_0_amount: u64,
    /// The least of the second asset that the caller accepts.
    pub minimum_token_1_amount: u64,
}

impl Withdraw {
    /// The arguments as the pool program reads them: the three numbers one
    /// after the other, each as eight bytes, lowest first.
    pub open spec fn spec_to_bytes(&self) -> Seq<u8> {
        spec_u64_to_le_bytes(self.lp_token_amount) + spec_u64_to_le_bytes(
            self.minimum_token_0_amount,
        ) + spec_u64_to_le_bytes(self.minimum_token_1_amount)
    }

    /// The arguments as the pool program reads them.
    pub fn to_bytes(&self) -> (bytes: Vec<u8>)
        ensures
            bytes@ == self.spec_to_bytes(),
    {
        let mut bytes = u64_to_le_bytes(self.lp_token_amount);
        let mut second = u64_to_le_bytes(self.minimum_token_0_amount);
        let mut third = u64_to_le_bytes(self.minimum_token_1_amount);
        bytes.append(&mut second);
        bytes.append(&mut third);
        bytes
    }
}

/// The accounts of a collection of fees: their addresses, and of those that
/// the program reads or writes, what they hold.
#[derive(Clone, Copy, Debug, PartialEq, Eq)]
pub struct CollectFees {
    /// The signer, who has to own the lock.
    pub owner: Pubkey,
    /// The authority over the pool's reserves and share mint.
    pub authority: Pubkey,
    /// The authority over every escrow vault.
    pub lock_vault_authority: Pubkey,
    /// The escrow vault of the lock.
    pub lp_lock_vault: Pubkey,
    /// The address of the pool.
    pub pool_id: Pubkey,
    /// The state of the pool.
    pub pool_state: PoolState,
    /// The owner's account of pool shares.
    pub owner_lp_token: Pubkey,
    /// The mint of the pool's shares.
    pub lp_mint: Pubkey,
    /// The registry of the owner's locks on this mint.
    pub lp_lock_counter: LpLockCounter,
    /// The lock.
    pub user_lp_lock: UserLock,
    /// The owner's account of the pool's first asset.
    pub token_0_account: Pubkey,
    /// The owner's account of the pool's second asset.
    pub token_1_account: Pubkey,
    /// The account presented as the pool's reserve of its first asset.
    pub token_0_vault: Pubkey,
    /// The account presented as the pool's reserve of its second asset.
    pub token_1_vault: Pubkey,
    /// The token program.
    pub token_program: Pubkey,
    /// The token program in its 2022 edition.
    pub token_program_2022: Pubkey,
    /// The mint of the pool's first asset.
    pub vault_0_mint: Pubkey,
    /// The mint of the pool's second asset.
    pub vault_1_mint: Pubkey,
    /// The memo program.
    pub memo_program: Pubkey,
    /// The pool's program.
    pub raydium_cpmm_program: Pubkey,
}

/// What a lock's shares have earned, in numbers.
#[derive(Clone, Copy, Debug, PartialEq, Eq, Structural)]
pub struct FeeSettlement {
    /// The shares that now stand for the locked liquidity, and stay locked.
    pub updated_principal_lp_tokens: u64,
    /// The shares in excess, which leave escrow and are redeemed.
    pub lp_tokens_to_burn: u64,
    /// What the shares in excess are worth in the pool's first asset.
    pub token_0_amount: u64,
    /// What the shares in excess are worth in the pool's second asset.
    pub token_1_amount: u64,
}

/// What the caller has to do once a collection is accepted.
#[derive(Debug, PartialEq, Eq)]
pub struct CollectedFees {
    /// The shares to move from the lock's escrow vault to the owner's
    /// account of shares, where the pool program burns them.
    pub release: TokenTransfer,
    /// The call into the pool program that redeems those shares. If it
    /// fails, the collection as a whole has failed.
    pub withdraw: Instruction,
    /// The notice to give.
    pub event: CollectFeesEvent,
}

/// The liquidity that `shares` of the pool stand for.
pub open spec fn liquidity_of_shares(shares: u64, pool: PoolState) -> nat {
    spec_liquidity(
        floor_share(shares, pool.lp_supply, pool.total_token_0_amount),
        floor_share(shares, pool.lp_supply, pool.total_token_1_amount),
    )
}

/// The shares that stand for `principal_liquidity` when `lock_amount` shares
/// stand for `liquidity`, rounded down.
pub open spec fn principal_shares(principal_liquidity: u64, lock_amount: u64, liquidity: nat) -> nat
    recommends
        liquidity > 0,
{
    (principal_liquidity as nat * lock_amount as nat) / liquidity
}

/// The lesser of two numbers.
pub open spec fn lesser(a: nat, b: nat) -> nat {
    if a <= b {
        a
    } else {
        b
    }
}

/// What `settle_fees` returns.
///
/// The shares of the lock are valued at the pool's present reserves. The
/// shares that stand for the locked liquidity at that value stay; those in
/// excess are the fees. The settlement is refused when the pool has no
/// shares, when the lock's shares stand for no liquidity, when they stand
/// for less than was locked, when nothing is in excess, and when what is in
/// excess is worth nothing of one of the assets.
pub open spec fn spec_settle_fees(
    lock_amount: u64,
    principal_liquidity: u64,
    pool: PoolState,
) -> Result<FeeSettlement, LockError> {
    let current_0 = floor_share(lock_amount, pool.lp_supply, pool.total_token_0_amount);
    let current_1 = floor_share(lock_amount, pool.lp_supply, pool.total_token_1_amount);
    let liquidity = liquidity_of_shares(lock_amount, pool);
    let updated = principal_shares(principal_liquidity, lock_amount, liquidity);
    let to_burn = (lock_amount - updated) as u64;
    let fee_0 = lesser(
        floor_share(to_burn, pool.lp_supply, pool.total_token_0_amount),
        pool.total_token_0_amount as nat,
    );
    let fee_1 = lesser(
        floor_share(to_burn, pool.lp_supply, pool.total_token_1_amount),
        pool.total_token_1_amount as nat,
    );
    if pool.lp_supply == 0 {
        Err(LockError::Code(ErrorCode::ZeroTradingTokens))
    } else if current_0 * current_1 > u128::MAX {
        Err(LockError::Code(ErrorCode::Overflow))
    } else if liquidity == 0 {
        Err(LockError::Code(ErrorCode::ZeroLiquidity))
    } else if updated > lock_amount {
        Err(LockError::Code(ErrorCode::Overflow))
    } else if updated == lock_amount {
        Err(LockError::Code(ErrorCode::ZeroLpTokensToBurn))
    } else if fee_0 == 0 || fee_1 == 0 {
        Err(LockError::Code(ErrorCode::ZeroTradingTokens))
    } else {
        Ok(
            FeeSettlement {
                updated_principal_lp_tokens: updated as u64,
                lp_tokens_to_burn: to_burn,
                token_0_amount: fee_0 as u64,
                token_1_amount: fee_1 as u64,
            },
        )
    }
}

/// Shares that stand for no less than the locked liquidity are not too few
/// for it: as long as the value of a share has not fallen since the lock
/// was made, no settlement is refused for want of shares.
pub proof fn lemma_principal_shares_suffice(lock_amount: u64, principal_liquidity: u64, pool: PoolState)
    requires
        liquidity_of_shares(lock_amount, pool) >= principal_liquidity,
        liquidity_of_shares(lock_amount, pool) > 0,
    ensures
        principal_shares(principal_liquidity, lock_amount, liquidity_of_shares(lock_amount, pool))
            <= lock_amount,
{
    let liquidity = liquidity_of_shares(lock_amount, pool);
    let principal = principal_liquidity as nat;
    let shares = lock_amount as nat;
    assert((principal * shares) / liquidity <= shares) by (nonlinear_arith)
        requires
            principal <= liquidity,
            liquidity > 0,
    ;
}

/// An accepted settlement takes no principal: the shares that stay are worth
/// no more than the locked liquidity at the value of the lock's shares, and
/// one share more would be worth more than it. Only shares beyond those
/// leave, and they are paid for at no more than what they are worth.
pub proof fn lemma_settlement_keeps_principal(
    lock_amount: u64,
    principal_liquidity: u64,
    pool: PoolState,
)
    requires
        spec_settle_fees(lock_amount, principal_liquidity, pool) is Ok,
    ensures
        ({
            let s = spec_settle_fees(lock_amount, principal_liquidity, pool)->Ok_0;
            let liquidity = liquidity_of_shares(lock_amount, pool);
            &&& s.updated_principal_lp_tokens * liquidity <= principal_liquidity * lock_amount
            &&& principal_liquidity * lock_amount < (s.updated_principal_lp_tokens + 1) * liquidity
            &&& s.updated_principal_lp_tokens + s.lp_tokens_to_burn == lock_amount
            &&& s.token_0_amount * pool.lp_supply <= s.lp_tokens_to_burn
                * pool.total_token_0_amount
            &&& s.token_1_amount * pool.lp_supply <= s.lp_tokens_to_burn
                * pool.total_token_1_amount
        }),
{
    let s = spec_settle_fees(lock_amount, principal_liquidity, pool)->Ok_0;
    let liquidity = liquidity_of_shares(lock_amount, pool);
    let product = principal_liquidity as nat * lock_amount as nat;
    let updated = product / liquidity;
    assert(updated * liquidity <= product && product < (updated + 1) * liquidity)
        by (nonlinear_arith)
        requires
            updated == product / liquidity,
            liquidity > 0,
    ;
    lemma_floor_share_is_tight(
        s.lp_tokens_to_burn as nat,
        pool.lp_supply as nat,
        pool.total_token_0_amount as nat,
    );
    lemma_floor_share_is_tight(
        s.lp_tokens_to_burn as nat,
        pool.lp_supply as nat,
        pool.total_token_1_amount as nat,
    );
    let exact_0 = floor_share(s.lp_tokens_to_burn, pool.lp_supply, pool.total_token_0_amount);
    let exact_1 = floor_share(s.lp_tokens_to_burn, pool.lp_supply, pool.total_token_1_amount);
    let supply = pool.lp_supply as nat;
    let fee_0 = s.token_0_amount as nat;
    let fee_1 = s.token_1_amount as nat;
    assert(fee_0 * supply <= exact_0 * supply) by (nonlinear_arith)
        requires
            fee_0 <= exact_0,
    ;
    assert(fee_1 * supply <= exact_1 * supply) by (nonlinear_arith)
        requires
            fee_1 <= exact_1,
    ;
}

/// Values the shares of a lock at the pool's present state and says how
/// many of them stand for the locked liquidity and how many are fees.
pub fn settle_fees(lock_amount: u64, principal_liquidity: u64, pool: &PoolState) -> (r: Result<
    FeeSettlement,
    LockError,
>)
    ensures
        r == spec_settle_fees(lock_amount, principal_liquidity, *pool),
        r matches Ok(s) ==> s.updated_principal_lp_tokens + s.lp_tokens_to_burn == lock_amount
            && s.lp_tokens_to_burn > 0 && 0 < s.token_0_amount <= pool.total_token_0_amount && 0
            < s.token_1_amount <= pool.total_token_1_amount,
{
    proof {
        lemma_product_fits(lock_amount, pool.total_token_0_amount);
        lemma_product_fits(lock_amount, pool.total_token_1_amount);
        lemma_product_fits(principal_liquidity, lock_amount);
        if pool.lp_supply > 0 {
            lemma_floor_share_fits(lock_amount, pool.lp_supply, pool.total_token_0_amount);
            lemma_floor_share_fits(lock_amount, pool.lp_supply, pool.total_token_1_amount);
        }
    }
    let current = match CurveCalculator::lp_tokens_to_trading_tokens(
        lock_amount as u128,
        pool.lp_supply as u128,
        pool.total_token_0_amount as u128,
        pool.total_token_1_amount as u128,
        RoundDirection::Floor,
    ) {
        Some(amounts) => amounts,
        None => {
            return Err(LockError::Code(ErrorCode::ZeroTradingTokens));
        },
    };
    let liquidity = match CurveCalculator::liquidity(current.token_0_amount, current.token_1_amount) {
        Some(liquidity) => liquidity,
        None => {
            return Err(LockError::Code(ErrorCode::Overflow));
        },
    };
    if liquidity == 0 {
        return Err(LockError::Code(ErrorCode::ZeroLiquidity));
    }
    let updated: u128 = (principal_liquidity as u128 * lock_amount as u128) / (liquidity as u128);
    if updated > lock_amount as u128 {
        return Err(LockError::Code(ErrorCode::Overflow));
    }
    let updated_principal_lp_tokens = updated as u64;
    let lp_tokens_to_burn = lock_amount - updated_principal_lp_tokens;
    if lp_tokens_to_burn == 0 {
        return Err(LockError::Code(ErrorCode::ZeroLpTokensToBurn));
    }
    proof {
        lemma_product_fits(lp_tokens_to_burn, pool.total_token_0_amount);
        lemma_product_fits(lp_tokens_to_burn, pool.total_token_1_amount);
        lemma_floor_share_fits(lp_tokens_to_burn, pool.lp_supply, pool.total_token_0_amount);
        lemma_floor_share_fits(lp_tokens_to_burn, pool.lp_supply, pool.total_token_1_amount);
    }
    let fees = match CurveCalculator::lp_tokens_to_trading_tokens(
        lp_tokens_to_burn as u128,
        pool.lp_supply as u128,
        pool.total_token_0_amount as u128,
        pool.total_token_1_amount as u128,
        RoundDirection::Floor,
    ) {
        Some(amounts) => amounts,
        None => {
            return Err(LockError::Code(ErrorCode::ZeroTradingTokens));
        },
    };
    let token_0_amount = if fees.token_0_amount <= pool.total_token_0_amount as u128 {
        fees.token_0_amount as u64
    } else {
        pool.total_token_0_amount
    };
    let token_1_amount = if fees.token_1_amount <= pool.total_token_1_amount as u128 {
        fees.token_1_amount as u64
    } else {
        pool.total_token_1_amount
    };
    if token_0_amount == 0 || token_1_amount == 0 {
        return Err(LockError::Code(ErrorCode::ZeroTradingTokens));
    }
    Ok(FeeSettlement { updated_principal_lp_tokens, lp_tokens_to_burn, token_0_amount, token_1_amount })
}

/// The accounts that the pool program's entry point expects, in its order:
/// the owner signs; what the redemption changes is writable.
pub open spec fn spec_withdraw_accounts(ctx: CollectFees) -> Seq<AccountMeta> {
    seq![
        AccountMeta { pubkey: ctx.user_lp_lock.user, is_signer: true, is_writable: true },
        AccountMeta { pubkey: ctx.authority, is_signer: false, is_writable: false },
        AccountMeta { pubkey: ctx.pool_id, is_signer: false, is_writable: true },
        AccountMeta { pubkey: ctx.owner_lp_token, is_signer: false, is_writable: true },
        AccountMeta { pubkey: ctx.token_0_account, is_signer: false, is_writable: true },
        AccountMeta { pubkey: ctx.token_1_account, is_signer: false, is_writable: true },
        AccountMeta { pubkey: ctx.token_0_vault, is_signer: false, is_writable: true },
        AccountMeta { pubkey: ctx.token_1_vault, is_signer: false, is_writable: true },
        AccountMeta { pubkey: ctx.token_program, is_signer: false, is_writable: false },
        AccountMeta { pubkey: ctx.token_program_2022, is_signer: false, is_writable: false },
        AccountMeta { pubkey: ctx.vault_0_mint, is_signer: false, is_writable: false },
        AccountMeta { pubkey: ctx.vault_1_mint, is_signer: false, is_writable: false },
        AccountMeta { pubkey: ctx.lp_mint, is_signer: false, is_writable: true },
        AccountMeta { pubkey: ctx.memo_program, is_signer: false, is_writable: false },
    ]
}

/// The call that redeems `lp_tokens_to_burn` shares with the pool program,
/// accepting whatever they fetch: the entry point's discriminator, then the
/// arguments.
pub open spec fn spec_withdraw_instruction(
    ctx: CollectFees,
    entry_point: Seq<u8>,
    lp_tokens_to_burn: u64,
) -> InstructionView {
    InstructionView {
        program_id: ctx.raydium_cpmm_program,
        accounts: spec_withdraw_accounts(ctx),
        data: entry_point + (Withdraw {
            lp_token_amount: lp_tokens_to_burn,
            minimum_token_0_amount: 0,
            minimum_token_1_amount: 0,
        }).spec_to_bytes(),
    }
}

/// Builds the call that redeems `lp_tokens_to_burn` shares with the pool
/// program, for the entry point with the given discriminator.
pub fn withdraw_instruction(ctx: &CollectFees, entry_point: Vec<u8>, lp_tokens_to_burn: u64) -> (ix:
    Instruction)
    ensures
        ix@ == spec_withdraw_instruction(*ctx, entry_point@, lp_tokens_to_burn),
{
    let params = Withdraw {
        lp_token_amount: lp_tokens_to_burn,
        minimum_token_0_amount: 0,
        minimum_token_1_amount: 0,
    };
    let mut data = entry_point;
    let mut arguments = params.to_bytes();
    data.append(&mut arguments);
    let accounts = vec![
        AccountMeta::new(ctx.user_lp_lock.user, true),
        AccountMeta::new_readonly(ctx.authority, false),
        AccountMeta::new(ctx.pool_id, false),
        AccountMeta::new(ctx.owner_lp_token, false),
        AccountMeta::new(ctx.token_0_account, false),
        AccountMeta::new(ctx.token_1_account, false),
        AccountMeta::new(ctx.token_0_vault, false),
        AccountMeta::new(ctx.token_1_vault, false),
        AccountMeta::new_readonly(ctx.token_program, false),
        AccountMeta::new_readonly(ctx.token_program_2022, false),
        AccountMeta::new_readonly(ctx.vault_0_mint, false),
        AccountMeta::new_readonly(ctx.vault_1_mint, false),
        AccountMeta::new(ctx.lp_mint, false),
        AccountMeta::new_readonly(ctx.memo_program, false),
    ];
    assert(accounts@ =~= spec_withdraw_accounts(*ctx));
    Instruction { program_id: ctx.raydium_cpmm_program, accounts, data }
}

/// The movement of the shares in excess out of escrow: to the owner's
/// account of shares, on the word of the authority over the vaults.
pub open spec fn spec_release_of_fees(ctx: CollectFees, lp_tokens_to_burn: u64) -> TokenTransfer {
    TokenTransfer {
        from: ctx.lp_lock_vault,
        to: ctx.owner_lp_token,
        authority: ctx.lock_vault_authority,
        mint: ctx.lp_mint,
        amount: lp_tokens_to_burn,
    }
}

/// What `collect_fees` does to the accounts, and the settlement it makes.
///
/// The lock has to be the signer's and of the share mint, and not released.
/// The pool has to be the one whose shares are locked, and the reserve
/// accounts have to be the pool's. Then the lock's shares are settled; the
/// shares in excess leave the lock and the registry's total, and the fees
/// are added to what the lock has paid out. No time has to have passed. The
/// time is looked at last, for the record: a clock that could not be read,
/// or a time before the epoch, is the refusal only where there is no other.
pub open spec fn spec_collect_fees(ctx: CollectFees, unix_timestamp: Option<i64>) -> Result<
    (CollectFees, FeeSettlement),
    LockError,
> {
    let lock = ctx.user_lp_lock;
    let counter = ctx.lp_lock_counter;
    let pool = ctx.pool_state;
    if lock.user != ctx.owner || lock.lp_mint != ctx.lp_mint {
        Err(LockError::ConstraintRaw)
    } else if lock.is_unlocked {
        Err(LockError::Code(ErrorCode::LockAlreadyUnlocked))
    } else if pool.lp_mint != ctx.lp_mint {
        Err(LockError::Code(ErrorCode::IncorrectLpMint))
    } else if pool.token_0_vault != ctx.token_0_vault || pool.token_1_vault != ctx.token_1_vault {
        Err(LockError::RequireEqViolated)
    } else {
        match spec_settle_fees(lock.lock_amount, lock.principal_liquidity, pool) {
            Err(e) => Err(e),
            Ok(s) => if counter.total_lock_amount < lock.lock_amount {
                Err(LockError::Code(ErrorCode::UnderflowError))
            } else if lock.token_0_fees_collected + s.token_0_amount > u64::MAX
                || lock.token_1_fees_collected + s.token_1_amount > u64::MAX {
                Err(LockError::Code(ErrorCode::Overflow))
            } else {
                match spec_block_timestamp(unix_timestamp) {
                    Err(e) => Err(e),
                    Ok(now) => Ok(
                        (
                            CollectFees {
                                lp_lock_counter: LpLockCounter {
                                    total_lock_amount: (counter.total_lock_amount
                                        - s.lp_tokens_to_burn) as u64,
                                    ..counter
                                },
                                user_lp_lock: UserLock {
                                    lock_amount: s.updated_principal_lp_tokens,
                                    token_0_fees_collected: (lock.token_0_fees_collected
                                        + s.token_0_amount) as u64,
                                    token_1_fees_collected: (lock.token_1_fees_collected
                                        + s.token_1_amount) as u64,
                                    last_updated: now,
                                    ..lock
                                },
                                ..ctx
                            },
                            s,
                        ),
                    ),
                }
            },
        }
    }
}

/// Collects the fees that the lock has earned by now.
///
/// On success the lock and the registry are updated, and the caller is told
/// which shares to take out of escrow and how to redeem them. On refusal
/// nothing has changed. Whatever happens, the liquidity that was locked
/// stays what it was, and the lock never holds more shares than before.
pub fn collect_fees(ctx: &mut CollectFees, unix_timestamp: Option<i64>) -> (r: Result<
    CollectedFees,
    LockError,
>)
    ensures
        match spec_collect_fees(*old(ctx), unix_timestamp) {
            Ok((after, s)) => {
                &&& *final(ctx) == after
                &&& r matches Ok(done)
                &&& done.release == spec_release_of_fees(*old(ctx), s.lp_tokens_to_burn)
                &&& done.withdraw@ == spec_withdraw_instruction(
                    *old(ctx),
                    spec_discriminator(WITHDRAW_ENTRY_POINT.spec_bytes()),
                    s.lp_tokens_to_burn,
                )
                &&& done.event == (CollectFeesEvent {
                    user: old(ctx).owner,
                    lp_mint: old(ctx).lp_mint,
                    token_0_amount: s.token_0_amount,
                    token_1_amount: s.token_1_amount,
                })
            },
            Err(e) => {
                &&& *final(ctx) == *old(ctx)
                &&& r matches Err(refusal)
                &&& refusal == e
            },
        },
        final(ctx).user_lp_lock.principal_liquidity == old(ctx).user_lp_lock.principal_liquidity,
        final(ctx).user_lp_lock.lock_amount <= old(ctx).user_lp_lock.lock_amount,
        r matches Ok(done) ==> done.release.amount > 0 && old(ctx).user_lp_lock.lock_amount
            == final(ctx).user_lp_lock.lock_amount + done.release.amount,
        old(ctx).user_lp_lock.wf() ==> final(ctx).user_lp_lock.wf(),
        final(ctx).user_lp_lock.spec_state() == old(ctx).user_lp_lock.spec_state(),
{
    if !(ctx.user_lp_lock.user == ctx.owner) || !(ctx.user_lp_lock.lp_mint == ctx.lp_mint) {
        return Err(LockError::ConstraintRaw);
    }
    if ctx.user_lp_lock.is_unlocked {
        return Err(LockError::Code(ErrorCode::LockAlreadyUnlocked));
    }
    if !(ctx.pool_state.lp_mint == ctx.lp_mint) {
        return Err(LockError::Code(ErrorCode::IncorrectLpMint));
    }
    if !(ctx.pool_state.token_0_vault == ctx.token_0_vault) || !(ctx.pool_state.token_1_vault
        == ctx.token_1_vault) {
        return Err(LockError::RequireEqViolated);
    }
    let settlement = match settle_fees(
        ctx.user_lp_lock.lock_amount,
        ctx.user_lp_lock.principal_liquidity,
        &ctx.pool_state,
    ) {
        Ok(settlement) => settlement,
        Err(e) => {
            return Err(e);
        },
    };
    if ctx.lp_lock_counter.total_lock_amount < ctx.user_lp_lock.lock_amount {
        return Err(LockError::Code(ErrorCode::UnderflowError));
    }
    let token_0_fees_collected = match ctx.user_lp_lock.token_0_fees_collected.checked_add(
        settlement.token_0_amount,
    ) {
        Some(sum) => sum,
        None => {
            return Err(LockError::Code(ErrorCode::Overflow));
        },
    };
    let token_1_fees_collected = match ctx.user_lp_lock.token_1_fees_collected.checked_add(
        settlement.token_1_amount,
    ) {
        Some(sum) => sum,
        None => {
            return Err(LockError::Code(ErrorCode::Overflow));
        },
    };
    let now = match block_timestamp(unix_timestamp) {
        Ok(now) => now,
        Err(e) => {
            return Err(e);
        },
    };
    let withdraw = withdraw_instruction(
        ctx,
        discriminator(WITHDRAW_ENTRY_POINT),
        settlement.lp_tokens_to_burn,
    );
    let event = CollectFeesEvent {
        user: ctx.owner,
        lp_mint: ctx.lp_mint,
        token_0_amount: settlement.token_0_amount,
        token_1_amount: settlement.token_1_amount,
    };
    ctx.lp_lock_counter.total_lock_amount = ctx.lp_lock_counter.total_lock_amount
        - ctx.user_lp_lock.lock_amount + settlement.updated_principal_lp_tokens;
    ctx.user_lp_lock.lock_amount = settlement.updated_principal_lp_tokens;
    ctx.user_lp_lock.token_0_fees_collected = token_0_fees_collected;
    ctx.user_lp_lock.token_1_fees_collected = token_1_fees_collected;
    ctx.user_lp_lock.last_updated = now;
    let release = TokenTransfer {
        from: ctx.lp_lock_vault,
        to: ctx.owner_lp_token,
        authority: ctx.lock_vault_authority,
        mint: ctx.lp_mint,
        amount: settlement.lp_tokens_to_burn,
    };
    Ok(CollectedFees { release, withdraw, event })
}

} // verus!
