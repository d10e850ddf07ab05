//! The curve calculator: what a number of pool shares is worth in the pool's
//! two assets, and the liquidity of a pair of amounts.
//!
//! Every quotient is an integer quotient of a 128-bit product, so that a
//! result is reproduced exactly wherever it is computed.

use vstd::prelude::*;

verus! {

/// The direction in which a quotient is rounded.
#[derive(Clone, Copy, Debug, PartialEq, Eq, Structural)]
pub enum RoundDirection {
    /// Towards zero: the quotient is never more than the exact value.
    Floor,
    /// Away from zero: the quotient is never less than the exact value.
    Ceiling,
}

/// The two asset amounts that a number of pool shares stands for.
#[derive(Clone, Copy, Debug, PartialEq, Eq, Structural)]
pub struct TradingTokenResult {
    /// Amount of the pool's first asset.
    pub token_0_amount: u128,
    /// Amount of the pool's second asset.
    pub token_1_amount: u128,
}

/// `numerator / denominator`, rounded as asked.
pub open spec fn rounded_div(numerator: nat, denominator: nat, round_direction: RoundDirection) -> nat
    recommends
        denominator > 0,
{
    match round_direction {
        RoundDirection::Floor => numerator / denominator,
        RoundDirection::Ceiling => if numerator % denominator == 0 {
            numerator / denominator
        } else {
            numerator / denominator + 1
        },
    }
}

/// The share of a reserve that `lp_token_amount` out of `lp_token_supply`
/// shares stands for.
pub open spec fn share_of_reserve(
    lp_token_amount: nat,
    lp_token_supply: nat,
    vault_amount: nat,
    round_direction: RoundDirection,
) -> nat
    recommends
        lp_token_supply > 0,
{
    rounded_div(lp_token_amount * vault_amount, lp_token_supply, round_direction)
}

/// What `shares` out of `lp_supply` stand for of a reserve, rounded down.
pub open spec fn floor_share(shares: u64, lp_supply: u64, reserve: u64) -> nat {
    share_of_reserve(shares as nat, lp_supply as nat, reserve as nat, RoundDirection::Floor)
}

/// What `CurveCalculator::lp_tokens_to_trading_tokens` returns: nothing for a
/// pool without shares or when a product leaves 128 bits, else each reserve
/// times the amount of shares, divided by the supply of shares.
pub open spec fn spec_lp_tokens_to_trading_tokens(
    lp_token_amount: u128,
    lp_token_supply: u128,
    token_0_vault_amount: u128,
    token_1_vault_amount: u128,
    round_direction: RoundDirection,
) -> Option<TradingTokenResult> {
    if lp_token_supply == 0 || lp_token_amount * token_0_vault_amount > u128::MAX
        || lp_token_amount * token_1_vault_amount > u128::MAX {
        None
    } else {
        Some(
            TradingTokenResult {
                token_0_amount: share_of_reserve(
                    lp_token_amount as nat,
                    lp_token_supply as nat,
                    token_0_vault_amount as nat,
                    round_direction,
                ) as u128,
                token_1_amount: share_of_reserve(
                    lp_token_amount as nat,
                    lp_token_supply as nat,
                    token_1_vault_amount as nat,
                    round_direction,
                ) as u128,
            },
        )
    }
}

/// The product of two 64-bit numbers fits in 128 bits.
pub proof fn lemma_product_fits(a: u64, b: u64)
    ensures
        a * b <= u128::MAX,
{
    assert(a * b <= 0xffff_ffff_ffff_ffff * 0xffff_ffff_ffff_ffff) by (nonlinear_arith)
        requires
            0 <= a <= 0xffff_ffff_ffff_ffff,
            0 <= b <= 0xffff_ffff_ffff_ffff,
    ;
    assert(0xffff_ffff_ffff_ffffu128 * 0xffff_ffff_ffff_ffffu128 <= u128::MAX) by (nonlinear_arith);
}

/// A share of a reserve is a quotient of a 128-bit product, so it fits in
/// 128 bits.
pub proof fn lemma_floor_share_fits(shares: u64, lp_supply: u64, reserve: u64)
    requires
        lp_supply > 0,
    ensures
        floor_share(shares, lp_supply, reserve) <= shares * reserve <= u128::MAX,
{
    lemma_product_fits(shares, reserve);
    let product = shares as nat * reserve as nat;
    let supply = lp_supply as nat;
    assert(product / supply <= product) by (nonlinear_arith)
        requires
            supply > 0,
    ;
}

/// Rounded down, a share of a reserve is never more than the exact share,
/// and less than one unit short of it.
pub proof fn lemma_floor_share_is_tight(lp_token_amount: nat, lp_token_supply: nat, vault_amount: nat)
    requires
        lp_token_supply > 0,
    ensures
        share_of_reserve(lp_token_amount, lp_token_supply, vault_amount, RoundDirection::Floor)
            * lp_token_supply <= lp_token_amount * vault_amount,
        lp_token_amount * vault_amount < (share_of_reserve(
            lp_token_amount,
            lp_token_supply,
            vault_amount,
            RoundDirection::Floor,
        ) + 1) * lp_token_supply,
{
    let product = lp_token_amount * vault_amount;
    let quotient = product / lp_token_supply;
    assert(quotient * lp_token_supply <= product && product < (quotient + 1) * lp_token_supply)
        by (nonlinear_arith)
        requires
            quotient == product / lp_token_supply,
            lp_token_supply > 0,
    ;
}

/// Rounded up, a share of a reserve is never less than the exact share, and
/// less than one unit beyond it.
pub proof fn lemma_ceiling_share_is_tight(
    lp_token_amount: nat,
    lp_token_supply: nat,
    vault_amount: nat,
)
    requires
        lp_token_supply > 0,
    ensures
        share_of_reserve(lp_token_amount, lp_token_supply, vault_amount, RoundDirection::Ceiling)
            * lp_token_supply >= lp_token_amount * vault_amount,
        share_of_reserve(lp_token_amount, lp_token_supply, vault_amount, RoundDirection::Ceiling)
            * lp_token_supply < lp_token_amount * vault_amount + lp_token_supply,
{
    let product = lp_token_amount * vault_amount;
    let quotient = product / lp_token_supply;
    let rest = product % lp_token_supply;
    assert(quotient * lp_token_supply + rest == product && rest < lp_token_supply && (quotient
        + 1) * lp_token_supply == quotient * lp_token_supply + lp_token_supply)
        by (nonlinear_arith)
        requires
            quotient == product / lp_token_supply,
            rest == product % lp_token_supply,
            lp_token_supply > 0,
    ;
}

/// `r` is the integer square root of `n`: the largest number whose square is
/// at most `n`.
pub open spec fn is_integer_sqrt(n: nat, r: nat) -> bool {
    r * r <= n && n < (r + 1) * (r + 1)
}

/// The integer square root of `n`.
pub open spec fn isqrt(n: nat) -> nat {
    choose|r: nat| is_integer_sqrt(n, r)
}

/// The liquidity of a pair of amounts: the integer square root of their
/// product, the geometric mean rounded down.
pub open spec fn spec_liquidity(amount_0: nat, amount_1: nat) -> nat {
    isqrt(amount_0 * amount_1)
}

/// A number has at most one integer square root.
pub proof fn lemma_integer_sqrt_unique(n: nat, r: nat, s: nat)
    requires
        is_integer_sqrt(n, r),
        is_integer_sqrt(n, s),
    ensures
        r == s,
{
    if r < s {
        assert((r + 1) * (r + 1) <= s * s) by (nonlinear_arith)
            requires
                r + 1 <= s,
        ;
    }
    if s < r {
        assert((s + 1) * (s + 1) <= r * r) by (nonlinear_arith)
            requires
                s + 1 <= r,
        ;
    }
}

/// Whatever meets the definition of the integer square root is `isqrt`.
pub proof fn lemma_isqrt_is(n: nat, r: nat)
    requires
        is_integer_sqrt(n, r),
    ensures
        isqrt(n) == r,
{
    lemma_integer_sqrt_unique(n, r, isqrt(n));
}

/// Every number has an integer square root, and `isqrt` is it.
pub proof fn lemma_isqrt_exists(n: nat)
    ensures
        is_integer_sqrt(n, isqrt(n)),
    decreases n,
{
    if n == 0 {
        assert(is_integer_sqrt(0, 0)) by (nonlinear_arith);
    } else {
        lemma_isqrt_exists((n - 1) as nat);
        let r = isqrt((n - 1) as nat);
        if (r + 1) * (r + 1) <= n {
            assert((r + 1) * (r + 1) < (r + 2) * (r + 2)) by (nonlinear_arith);
            assert(is_integer_sqrt(n, r + 1));
        } else {
            assert(is_integer_sqrt(n, r));
        }
    }
}

/// The liquidity of a pair is zero exactly when one of the amounts is zero.
pub proof fn lemma_liquidity_zero(amount_0: nat, amount_1: nat)
    ensures
        spec_liquidity(amount_0, amount_1) == 0 <==> (amount_0 == 0 || amount_1 == 0),
{
    let n = amount_0 * amount_1;
    lemma_isqrt_exists(n);
    if amount_0 == 0 || amount_1 == 0 {
        assert(n == 0) by (nonlinear_arith)
            requires
                n == amount_0 * amount_1,
                amount_0 == 0 || amount_1 == 0,
        ;
        assert(is_integer_sqrt(0, 0)) by (nonlinear_arith);
        lemma_isqrt_is(0, 0);
    } else {
        assert(n >= 1) by (nonlinear_arith)
            requires
                n == amount_0 * amount_1,
                amount_0 >= 1,
                amount_1 >= 1,
        ;
        if isqrt(n) == 0 {
            assert(n < 1) by (nonlinear_arith)
                requires
                    n < (0 + 1) * (0 + 1),
            ;
        }
    }
}

/// The liquidity of a pair of 64-bit amounts fits in 64 bits.
pub proof fn lemma_liquidity_fits(amount_0: u64, amount_1: u64)
    ensures
        spec_liquidity(amount_0 as nat, amount_1 as nat) <= u64::MAX,
{
    let n = amount_0 as nat * amount_1 as nat;
    let r = isqrt(n);
    lemma_isqrt_exists(n);
    lemma_product_fits(amount_0, amount_1);
    if r > u64::MAX {
        assert(r * r >= 0x1_0000_0000_0000_0000 * 0x1_0000_0000_0000_0000) by (nonlinear_arith)
            requires
                r >= 0x1_0000_0000_0000_0000,
        ;
        assert(0x1_0000_0000_0000_0000u128 * 0x1_0000_0000_0000_0000u128 > u128::MAX)
            by (nonlinear_arith);
    }
}

/// The integer square root of a 128-bit number, found by bisection.
pub fn integer_sqrt(n: u128) -> (r: u64)
    ensures
        is_integer_sqrt(n as nat, r as nat),
        r == isqrt(n as nat),
{
    let mut lo: u128 = 0;
    let mut hi: u128 = 0x1_0000_0000_0000_0000;
    assert(0x1_0000_0000_0000_0000u128 * 0x1_0000_0000_0000_0000u128 > u128::MAX) by (nonlinear_arith);
    while hi - lo > 1
        invariant
            lo < hi <= 0x1_0000_0000_0000_0000,
            lo * lo <= n,
            n < hi * hi,
        decreases hi - lo,
    {
        let mid: u128 = lo + (hi - lo) / 2;
        assert(mid * mid <= 0xffff_ffff_ffff_ffff * 0xffff_ffff_ffff_ffff) by (nonlinear_arith)
            requires
                mid <= 0xffff_ffff_ffff_ffff,
        ;
        assert(0xffff_ffff_ffff_ffffu128 * 0xffff_ffff_ffff_ffffu128 <= u128::MAX) by (nonlinear_arith);
        if mid * mid <= n {
            lo = mid;
        } else {
            hi = mid;
        }
    }
    proof {
        lemma_isqrt_is(n as nat, lo as nat);
    }
    lo as u64
}

/// `numerator / denominator`, rounded as asked.
fn div_rounded(numerator: u128, denominator: u128, round_direction: RoundDirection) -> (q: u128)
    requires
        denominator > 0,
    ensures
        q == rounded_div(numerator as nat, denominator as nat, round_direction),
{
    let floor: u128 = numerator / denominator;
    match round_direction {
        RoundDirection::Floor => floor,
        RoundDirection::Ceiling => {
            if numerator % denominator == 0 {
                floor
            } else {
                assert(floor < numerator) by (nonlinear_arith)
                    requires
                        floor == numerator / denominator,
                        numerator % denominator != 0,
                        denominator > 0,
                ;
                floor + 1
            }
        },
    }
}

/// The curve of a constant-product pool. It holds no state.
pub struct CurveCalculator {}

impl CurveCalculator {
    /// The amounts of the pool's two assets that `lp_token_amount` shares
    /// stand for, in a pool with `lp_token_supply` shares and the given
    /// reserves: each reserve times the amount of shares, divided by the
    /// supply. Nothing is returned for a pool without shares, or when a
    /// product does not fit in 128 bits.
    pub fn lp_tokens_to_trading_tokens(
        lp_token_amount: u128,
        lp_token_supply: u128,
        token_0_vault_amount: u128,
        token_1_vault_amount: u128,
        round_direction: RoundDirection,
    ) -> (r: Option<TradingTokenResult>)
        ensures
            r == spec_lp_tokens_to_trading_tokens(
                lp_token_amount,
                lp_token_supply,
                token_0_vault_amount,
                token_1_vault_amount,
                round_direction,
            ),
            lp_token_supply == 0 ==> r is None,
    {
        if lp_token_supply == 0 {
            return None;
        }
        match (
            lp_token_amount.checked_mul(token_0_vault_amount),
            lp_token_amount.checked_mul(token_1_vault_amount),
        ) {
            (Some(product_0), Some(product_1)) => Some(
                TradingTokenResult {
                    token_0_amount: div_rounded(product_0, lp_token_supply, round_direction),
                    token_1_amount: div_rounded(product_1, lp_token_supply, round_direction),
                },
            ),
            _ => None,
        }
    }

    /// The liquidity of a pair of 64-bit amounts: the integer square root of
    /// their product, which is zero when either amount is zero.
    pub fn liquidity_of(token_0_amount: u64, token_1_amount: u64) -> (l: u64)
        ensures
            l == spec_liquidity(token_0_amount as nat, token_1_amount as nat),
            l == 0 <==> (token_0_amount == 0 || token_1_amount == 0),
    {
        proof {
            lemma_product_fits(token_0_amount, token_1_amount);
            lemma_liquidity_zero(token_0_amount as nat, token_1_amount as nat);
        }
        integer_sqrt(token_0_amount as u128 * token_1_amount as u128)
    }

    /// The liquidity of a pair of amounts: the integer square root of their
    /// product, which is zero when either amount is zero. Nothing is
    /// returned when the product does not fit in 128 bits.
    pub fn liquidity(token_0_amount: u128, token_1_amount: u128) -> (r: Option<u64>)
        ensures
            r == (if token_0_amount * token_1_amount > u128::MAX {
                None
            } else {
                Some(spec_liquidity(token_0_amount as nat, token_1_amount as nat) as u64)
            }),
            r matches Some(l) ==> l == spec_liquidity(token_0_amount as nat, token_1_amount as nat)
                && (l == 0 <==> (token_0_amount == 0 || token_1_amount == 0)),
    {
        proof {
            lemma_liquidity_zero(token_0_amount as nat, token_1_amount as nat);
        }
        match token_0_amount.checked_mul(token_1_amount) {
            Some(product) => Some(integer_sqrt(product)),
            None => None,
        }
    }
}

} // verus!
