use vstd::prelude::*;

use crate::error::DefiError;

verus! {

/// Fee charged at pool creation, in basis points.
pub const FEE_BASIS_POINTS: u64 = 25;

/// Largest slippage a client should tolerate, in basis points.
pub const MAX_SLIPPAGE_BASIS_POINTS: u64 = 100;

/// Reward issued per thousand units deposited.
pub const REWARD_MULTIPLIER: u64 = 10;

/// Upper bound of any fee tier (10%).
pub const MAX_FEE_BASIS_POINTS: u64 = 1000;

/// Basis points in one whole unit.
pub const BASIS_POINT_SCALE: u64 = 10_000;

/// Divisor applied to a reward multiplier.
pub const REWARD_SCALE: u64 = 1000;

/// Volatility above which the high fee tier applies.
pub const VOLATILITY_THRESHOLD: u64 = 50;

/// Fee tier for volatile markets, in basis points.
pub const HIGH_VOLATILITY_FEE_BASIS_POINTS: u64 = 50;

/// Fee tier for calm markets, in basis points.
pub const LOW_VOLATILITY_FEE_BASIS_POINTS: u64 = 10;

/// `floor(amount * bp / 10000)`.
pub open spec fn fee_of(amount: int, bp: int) -> int {
    amount * bp / BASIS_POINT_SCALE as int
}

/// `floor((a + b) * multiplier / 1000)`.
pub open spec fn reward_of(a: int, b: int, multiplier: int) -> int {
    (a + b) * multiplier / REWARD_SCALE as int
}

/// The fee tier chosen for a volatility reading.
pub open spec fn tier_of(volatility: int) -> int {
    if volatility > VOLATILITY_THRESHOLD as int {
        HIGH_VOLATILITY_FEE_BASIS_POINTS as int
    } else {
        LOW_VOLATILITY_FEE_BASIS_POINTS as int
    }
}

/// Constant-product output: `floor(reserve_out * amount_in / (reserve_in + amount_in))`.
pub open spec fn swap_out_of(reserve_in: int, reserve_out: int, amount_in: int) -> int {
    reserve_out * amount_in / (reserve_in + amount_in)
}

/// Fee on `amount` at `fee_basis_points`, computed without overflow.
pub fn compute_fee(amount: u64, fee_basis_points: u64) -> (r: Result<u64, DefiError>)
    ensures
        fee_basis_points > MAX_FEE_BASIS_POINTS ==> r == Err::<u64, DefiError>(
            DefiError::InvalidParameter,
        ),
        fee_basis_points <= MAX_FEE_BASIS_POINTS ==> (r matches Ok(f) && f == fee_of(
            amount as int,
            fee_basis_points as int,
        ) && f <= amount),
{
    if fee_basis_points > MAX_FEE_BASIS_POINTS {
        return Err(DefiError::InvalidParameter);
    }
    proof {
        lemma_wide_product_fits(amount, fee_basis_points);
    }
    let product: u128 = (amount as u128) * (fee_basis_points as u128);
    let fee: u128 = product / (BASIS_POINT_SCALE as u128);
    proof {
        let a = amount as int;
        let bp = fee_basis_points as int;
        assert(a * bp <= a * 10000) by (nonlinear_arith)
            requires
                0 <= a,
                0 <= bp <= 1000,
        ;
        assert(a * bp / 10000 <= a) by (nonlinear_arith)
            requires
                0 <= a,
                a * bp <= a * 10000,
        ;
    }
    Ok(fee as u64)
}

/// Reward for a deposit of `amount_a` and `amount_b`, or `Overflow` where it
/// does not fit in 64 bits.
pub fn compute_reward(amount_a: u64, amount_b: u64, reward_multiplier: u64) -> (r: Result<
    u64,
    DefiError,
>)
    ensures
        reward_of(amount_a as int, amount_b as int, reward_multiplier as int) <= u64::MAX ==> r
            == Ok::<u64, DefiError>(
            reward_of(amount_a as int, amount_b as int, reward_multiplier as int) as u64,
        ),
        reward_of(amount_a as int, amount_b as int, reward_multiplier as int) > u64::MAX ==> r
            == Err::<u64, DefiError>(DefiError::Overflow),
{
    let sum: u128 = (amount_a as u128) + (amount_b as u128);
    let product = sum.checked_mul(reward_multiplier as u128);
    match product {
        None => {
            proof {
                let s = sum as int;
                let m = reward_multiplier as int;
                assert(s * m / 1000 > u64::MAX) by (nonlinear_arith)
                    requires
                        s * m > u128::MAX,
                ;
            }
            Err(DefiError::Overflow)
        },
        Some(p) => {
            let reward: u128 = p / (REWARD_SCALE as u128);
            if reward > (u64::MAX as u128) {
                Err(DefiError::Overflow)
            } else {
                Ok(reward as u64)
            }
        },
    }
}

/// Fee tier for a market volatility reading: a step at the threshold.
pub fn select_fee_tier(market_volatility: u64) -> (r: u64)
    ensures
        r == tier_of(market_volatility as int),
        r <= MAX_FEE_BASIS_POINTS,
{
    if market_volatility > VOLATILITY_THRESHOLD {
        HIGH_VOLATILITY_FEE_BASIS_POINTS
    } else {
        LOW_VOLATILITY_FEE_BASIS_POINTS
    }
}

/// Output of a swap against reserves `reserve_in` / `reserve_out` under the
/// constant-product curve; `InvalidParameter` when nothing is in the pool
/// and nothing comes in.
pub fn compute_swap_output(reserve_in: u64, reserve_out: u64, amount_in: u64) -> (r: Result<
    u64,
    DefiError,
>)
    ensures
        reserve_in as int + amount_in as int == 0 ==> r == Err::<u64, DefiError>(
            DefiError::InvalidParameter,
        ),
        reserve_in as int + amount_in as int > 0 ==> (r matches Ok(out) && out == swap_out_of(
            reserve_in as int,
            reserve_out as int,
            amount_in as int,
        ) && out <= reserve_out),
{
    let denominator: u128 = (reserve_in as u128) + (amount_in as u128);
    if denominator == 0 {
        return Err(DefiError::InvalidParameter);
    }
    proof {
        lemma_wide_product_fits(reserve_out, amount_in);
    }
    let numerator: u128 = (reserve_out as u128) * (amount_in as u128);
    let out: u128 = numerator / denominator;
    proof {
        lemma_swap_out_bounded(reserve_in as int, reserve_out as int, amount_in as int);
    }
    Ok(out as u64)
}

/// The product of two 64-bit values fits in 128 bits.
proof fn lemma_wide_product_fits(a: u64, b: u64)
    ensures
        a as int * b as int <= u128::MAX,
{
    assert(a as int * b as int <= u64::MAX as int * u64::MAX as int) by (nonlinear_arith)
        requires
            0 <= a <= u64::MAX,
            0 <= b <= u64::MAX,
    ;
}

/// The constant-product output never exceeds the reserve paid out of.
pub proof fn lemma_swap_out_bounded(reserve_in: int, reserve_out: int, amount_in: int)
    requires
        0 <= reserve_in,
        0 <= reserve_out,
        0 <= amount_in,
        reserve_in + amount_in > 0,
    ensures
        0 <= swap_out_of(reserve_in, reserve_out, amount_in) <= reserve_out,
{
    let d = reserve_in + amount_in;
    assert(reserve_out * amount_in <= reserve_out * d) by (nonlinear_arith)
        requires
            0 <= reserve_out,
            0 <= amount_in <= d,
    ;
    assert(reserve_out * amount_in / d <= reserve_out) by (nonlinear_arith)
        requires
            d > 0,
            0 <= reserve_out,
            reserve_out * amount_in <= reserve_out * d,
    ;
    assert(0 <= reserve_out * amount_in / d) by (nonlinear_arith)
        requires
            d > 0,
            0 <= reserve_out,
            0 <= amount_in,
    ;
}

/// The reward never decreases when either deposited amount grows: for deposits
/// `(a1, b1)` and `(a2, b2)` with `a1 <= a2` and `b1 <= b2`, the first reward
/// is at most the second, so whenever the larger one fits in 64 bits the
/// smaller one does too.
pub proof fn reward_is_monotone(a1: u64, b1: u64, a2: u64, b2: u64, reward_multiplier: u64)
    requires
        a1 <= a2,
        b1 <= b2,
    ensures
        reward_of(a1 as int, b1 as int, reward_multiplier as int) <= reward_of(
            a2 as int,
            b2 as int,
            reward_multiplier as int,
        ),
{
    let s1 = a1 as int + b1 as int;
    let s2 = a2 as int + b2 as int;
    let m = reward_multiplier as int;
    assert(s1 * m <= s2 * m) by (nonlinear_arith)
        requires
            0 <= s1 <= s2,
            0 <= m,
    ;
    assert(s1 * m / 1000 <= s2 * m / 1000) by (nonlinear_arith)
        requires
            s1 * m <= s2 * m,
    ;
}

} // verus!
