use vstd::prelude::*;

use crate::accounts::{
    mint_rewards, same_key, transfer_tokens, balance_change, Config, FeeAdjusted, Leg, LiquidityAdded,
    LiquidityRemoved, ProvideLiquidity, RemoveLiquidity, StakeTokens, SwapExecuted, SwapTokens,
    TokensStaked, UpdateParameters, Vault,
};
use crate::error::DefiError;
use crate::policy::{
    compute_fee, compute_reward, compute_swap_output, fee_of, reward_of, select_fee_tier,
    swap_out_of, tier_of, MAX_FEE_BASIS_POINTS, REWARD_MULTIPLIER,
};

verus! {

/// What the custody collaborator reported for one leg.
pub type Outcome = Result<(), DefiError>;

/// Result of a batch of `n` legs from leg `i` on, given the outcomes reported
/// in order: success when every leg succeeded, else the first failure. A leg
/// with no reported outcome did not run, and the report is refused.
pub open spec fn settle_from(outcomes: Seq<Outcome>, i: int, n: int) -> Outcome
    decreases n - i,
{
    if i >= n {
        Ok(())
    } else if i >= outcomes.len() {
        Err(DefiError::InvalidParameter)
    } else if outcomes[i] is Err {
        outcomes[i]
    } else {
        settle_from(outcomes, i + 1, n)
    }
}

/// A batch settles exactly when each of its `n` legs has a reported outcome
/// and every one of them succeeded.
pub proof fn lemma_settles_iff_all_ok(outcomes: Seq<Outcome>, i: int, n: int)
    requires
        0 <= i <= n,
        i <= outcomes.len(),
    ensures
        settle_from(outcomes, i, n) is Ok <==> (n <= outcomes.len() && forall|j: int|
            i <= j < n ==> outcomes[j] is Ok),
    decreases n - i,
{
    if i < n && i < outcomes.len() {
        if outcomes[i] is Ok {
            lemma_settles_iff_all_ok(outcomes, i + 1, n);
            if n <= outcomes.len() && forall|j: int| i + 1 <= j < n ==> outcomes[j] is Ok {
                assert forall|j: int| i <= j < n implies outcomes[j] is Ok by {
                    if j > i {
                        assert(i + 1 <= j < n);
                    }
                }
            }
        } else {
            assert(!(outcomes[i] is Ok));
        }
    }
}

/// The legs a batch commits: all of them when it settled, none otherwise.
pub open spec fn committed(legs: Seq<Leg>, settled: bool) -> Seq<Leg> {
    if settled {
        legs
    } else {
        Seq::empty()
    }
}

/// Settles a batch of `n` legs against the outcomes the custody reported.
pub fn settle(outcomes: &Vec<Outcome>, n: usize) -> (r: Outcome)
    ensures
        r == settle_from(outcomes@, 0, n as int),
{
    let mut i: usize = 0;
    while i < n
        invariant
            0 <= i <= n,
            settle_from(outcomes@, 0, n as int) == settle_from(outcomes@, i as int, n as int),
        decreases n - i,
    {
        if i >= outcomes.len() {
            return Err(DefiError::InvalidParameter);
        }
        if let Err(e) = outcomes[i] {
            return Err(e);
        }
        i = i + 1;
    }
    Ok(())
}

/// Reward for a deposit at the pool's multiplier; it always fits in 64 bits.
pub fn calculate_rewards(amount_a: u64, amount_b: u64) -> (r: u64)
    ensures
        r == reward_of(amount_a as int, amount_b as int, REWARD_MULTIPLIER as int),
{
    proof {
        let a = amount_a as int;
        let b = amount_b as int;
        assert((a + b) * 10 / 1000 <= u64::MAX) by (nonlinear_arith)
            requires
                0 <= a <= u64::MAX,
                0 <= b <= u64::MAX,
        ;
    }
    match compute_reward(amount_a, amount_b, REWARD_MULTIPLIER) {
        Ok(reward) => reward,
        Err(_) => 0,
    }
}

// ---- deposit ----

/// The legs of a deposit: both assets into the pool, then the reward out.
pub open spec fn provide_legs_of(acc: ProvideLiquidity, amount_a: u64, amount_b: u64) -> Seq<Leg> {
    seq![
        Leg::Transfer {
            source: acc.user_token_a,
            destination: acc.pool_token_a,
            authority: acc.user_authority,
            amount: amount_a,
        },
        Leg::Transfer {
            source: acc.user_token_b,
            destination: acc.pool_token_b,
            authority: acc.user_authority,
            amount: amount_b,
        },
        Leg::Mint {
            mint: acc.reward_mint,
            destination: acc.user_reward_account,
            authority: acc.reward_mint_authority,
            amount: reward_of(amount_a as int, amount_b as int, REWARD_MULTIPLIER as int) as u64,
        },
    ]
}

/// Outcome of a deposit given what the custody reported for its legs.
pub open spec fn provide_result(
    acc: ProvideLiquidity,
    amount_a: u64,
    amount_b: u64,
    outcomes: Seq<Outcome>,
) -> Result<LiquidityAdded, DefiError> {
    if amount_a == 0 || amount_b == 0 {
        Err(DefiError::InvalidParameter)
    } else {
        match settle_from(outcomes, 0, 3) {
            Err(e) => Err(e),
            Ok(_) => Ok(
                LiquidityAdded {
                    user: acc.user_authority,
                    token_a_amount: amount_a,
                    token_b_amount: amount_b,
                    reward_issued: reward_of(
                        amount_a as int,
                        amount_b as int,
                        REWARD_MULTIPLIER as int,
                    ) as u64,
                },
            ),
        }
    }
}

/// The legs the custody must run, as one batch, for a deposit.
pub fn provide_liquidity_legs(acc: &ProvideLiquidity, amount_a: u64, amount_b: u64) -> (r: Result<
    Vec<Leg>,
    DefiError,
>)
    ensures
        amount_a == 0 || amount_b == 0 ==> r is Err && r->Err_0 == DefiError::InvalidParameter,
        amount_a > 0 && amount_b > 0 ==> (r matches Ok(v) && v@ == provide_legs_of(
            *acc,
            amount_a,
            amount_b,
        )),
{
    if amount_a == 0 || amount_b == 0 {
        return Err(DefiError::InvalidParameter);
    }
    let reward = calculate_rewards(amount_a, amount_b);
    let legs = vec![
        transfer_tokens(acc.user_token_a, acc.pool_token_a, acc.user_authority, amount_a),
        transfer_tokens(acc.user_token_b, acc.pool_token_b, acc.user_authority, amount_b),
        mint_rewards(acc.reward_mint, acc.user_reward_account, acc.reward_mint_authority, reward),
    ];
    assert(legs@ =~= provide_legs_of(*acc, amount_a, amount_b));
    Ok(legs)
}

/// Decides a deposit from what the custody reported for its legs: success,
/// with the reward issued, only when every leg succeeded.
pub fn provide_liquidity(
    acc: &ProvideLiquidity,
    amount_a: u64,
    amount_b: u64,
    outcomes: &Vec<Outcome>,
) -> (r: Result<LiquidityAdded, DefiError>)
    ensures
        r == provide_result(*acc, amount_a, amount_b, outcomes@),
{
    if amount_a == 0 || amount_b == 0 {
        return Err(DefiError::InvalidParameter);
    }
    match settle(outcomes, 3) {
        Err(e) => Err(e),
        Ok(()) => Ok(
            LiquidityAdded {
                user: acc.user_authority,
                token_a_amount: amount_a,
                token_b_amount: amount_b,
                reward_issued: calculate_rewards(amount_a, amount_b),
            },
        ),
    }
}

/// A deposit whose first transfer succeeded and whose second failed reports
/// the second one's failure, and its batch commits no change to any balance.
pub proof fn provide_liquidity_is_atomic(
    acc: ProvideLiquidity,
    amount_a: u64,
    amount_b: u64,
    outcomes: Seq<Outcome>,
    account: crate::accounts::Key,
)
    requires
        amount_a > 0,
        amount_b > 0,
        outcomes.len() >= 2,
        outcomes[0] is Ok,
        outcomes[1] is Err,
    ensures
        provide_result(acc, amount_a, amount_b, outcomes) == Err::<LiquidityAdded, DefiError>(
            outcomes[1]->Err_0,
        ),
        balance_change(
            committed(
                provide_legs_of(acc, amount_a, amount_b),
                provide_result(acc, amount_a, amount_b, outcomes) is Ok,
            ),
            account,
        ) == 0,
{
    assert(settle_from(outcomes, 0, 3) == settle_from(outcomes, 1, 3));
    assert(settle_from(outcomes, 1, 3) == outcomes[1]);
    assert(balance_change(Seq::<Leg>::empty(), account) == 0);
}

// ---- withdrawal ----

/// The single leg of a withdrawal: the shares go back to the pool.
pub open spec fn remove_legs_of(acc: RemoveLiquidity, liquidity_amount: u64) -> Seq<Leg> {
    seq![
        Leg::Transfer {
            source: acc.user_lp_token,
            destination: acc.pool_lp_token,
            authority: acc.user_authority,
            amount: liquidity_amount,
        },
    ]
}

/// Outcome of a withdrawal given what the custody reported.
pub open spec fn remove_result(acc: RemoveLiquidity, liquidity_amount: u64, outcomes: Seq<Outcome>) -> Result<
    LiquidityRemoved,
    DefiError,
> {
    if liquidity_amount == 0 {
        Err(DefiError::InvalidParameter)
    } else {
        match settle_from(outcomes, 0, 1) {
            Err(e) => Err(e),
            Ok(_) => Ok(
                LiquidityRemoved { user: acc.user_authority, lp_tokens_burned: liquidity_amount },
            ),
        }
    }
}

/// The legs the custody must run for a withdrawal.
pub fn remove_liquidity_legs(acc: &RemoveLiquidity, liquidity_amount: u64) -> (r: Result<
    Vec<Leg>,
    DefiError,
>)
    ensures
        liquidity_amount == 0 ==> r is Err && r->Err_0 == DefiError::InvalidParameter,
        liquidity_amount > 0 ==> (r matches Ok(v) && v@ == remove_legs_of(*acc, liquidity_amount)),
{
    if liquidity_amount == 0 {
        return Err(DefiError::InvalidParameter);
    }
    let legs = vec![
        transfer_tokens(acc.user_lp_token, acc.pool_lp_token, acc.user_authority, liquidity_amount),
    ];
    assert(legs@ =~= remove_legs_of(*acc, liquidity_amount));
    Ok(legs)
}

/// Decides a withdrawal from what the custody reported for its leg.
pub fn remove_liquidity(acc: &RemoveLiquidity, liquidity_amount: u64, outcomes: &Vec<Outcome>) -> (r:
    Result<LiquidityRemoved, DefiError>)
    ensures
        r == remove_result(*acc, liquidity_amount, outcomes@),
{
    if liquidity_amount == 0 {
        return Err(DefiError::InvalidParameter);
    }
    match settle(outcomes, 1) {
        Err(e) => Err(e),
        Ok(()) => Ok(LiquidityRemoved { user: acc.user_authority, lp_tokens_burned: liquidity_amount }),
    }
}

// ---- swap ----

/// Amounts of a swap as priced against the pool's reserves.
#[derive(Clone, Copy, Debug, PartialEq, Eq, Structural)]
pub struct SwapQuote {
    /// Fee kept from the input.
    pub fee: u64,
    /// Input left after the fee; this is what enters the pool.
    pub amount_after_fee: u64,
    /// Output the constant-product curve gives for that input.
    pub amount_out: u64,
}

/// The quote of a swap at fee tier `fee_bp`: the fee comes off the input, the
/// rest is priced on the curve, and an output below `min_amount_out` is refused.
pub open spec fn swap_quote_of(
    fee_bp: u64,
    reserve_in: u64,
    reserve_out: u64,
    amount_in: u64,
    min_amount_out: u64,
) -> Result<SwapQuote, DefiError> {
    if amount_in == 0 || fee_bp > MAX_FEE_BASIS_POINTS {
        Err(DefiError::InvalidParameter)
    } else {
        let fee = fee_of(amount_in as int, fee_bp as int);
        let net = amount_in - fee;
        let out = swap_out_of(reserve_in as int, reserve_out as int, net);
        if out < min_amount_out {
            Err(DefiError::SlippageExceeded)
        } else {
            Ok(SwapQuote { fee: fee as u64, amount_after_fee: net as u64, amount_out: out as u64 })
        }
    }
}

/// The single leg of a swap: the input after the fee goes into the pool.
pub open spec fn swap_legs_of(acc: SwapTokens, quote: SwapQuote) -> Seq<Leg> {
    seq![
        Leg::Transfer {
            source: acc.user_input_token,
            destination: acc.swap_pool_token,
            authority: acc.user_authority,
            amount: quote.amount_after_fee,
        },
    ]
}

/// Outcome of a swap given what the custody reported.
pub open spec fn swap_result(
    acc: SwapTokens,
    fee_bp: u64,
    reserve_in: u64,
    reserve_out: u64,
    amount_in: u64,
    min_amount_out: u64,
    outcomes: Seq<Outcome>,
) -> Result<SwapExecuted, DefiError> {
    match swap_quote_of(fee_bp, reserve_in, reserve_out, amount_in, min_amount_out) {
        Err(e) => Err(e),
        Ok(q) => match settle_from(outcomes, 0, 1) {
            Err(e) => Err(e),
            Ok(_) => Ok(
                SwapExecuted {
                    user: acc.user_authority,
                    token_in: acc.user_input_token,
                    token_out: acc.user_output_token,
                    amount_in,
                    amount_out: q.amount_out,
                },
            ),
        },
    }
}

/// Prices a swap at the configured fee tier against the given reserves.
pub fn quote_swap(
    config: &Config,
    reserve_in: u64,
    reserve_out: u64,
    amount_in: u64,
    min_amount_out: u64,
) -> (r: Result<SwapQuote, DefiError>)
    ensures
        r == swap_quote_of(
            config.fee_basis_points,
            reserve_in,
            reserve_out,
            amount_in,
            min_amount_out,
        ),
{
    if amount_in == 0 {
        return Err(DefiError::InvalidParameter);
    }
    let fee = match compute_fee(amount_in, config.fee_basis_points) {
        Err(e) => return Err(e),
        Ok(f) => f,
    };
    proof {
        let a = amount_in as int;
        let bp = config.fee_basis_points as int;
        assert(a * bp / 10000 < a) by (nonlinear_arith)
            requires
                a > 0,
                0 <= bp <= 1000,
        ;
    }
    let amount_after_fee = amount_in - fee;
    let amount_out = match compute_swap_output(reserve_in, reserve_out, amount_after_fee) {
        Err(e) => return Err(e),
        Ok(o) => o,
    };
    if amount_out < min_amount_out {
        return Err(DefiError::SlippageExceeded);
    }
    Ok(SwapQuote { fee, amount_after_fee, amount_out })
}

/// The legs the custody must run for a swap; none when the quote is refused.
pub fn swap_tokens_legs(
    acc: &SwapTokens,
    config: &Config,
    reserve_in: u64,
    reserve_out: u64,
    amount_in: u64,
    min_amount_out: u64,
) -> (r: Result<Vec<Leg>, DefiError>)
    ensures
        match swap_quote_of(
            config.fee_basis_points,
            reserve_in,
            reserve_out,
            amount_in,
            min_amount_out,
        ) {
            Err(e) => r == Err::<Vec<Leg>, DefiError>(e),
            Ok(q) => r matches Ok(v) && v@ == swap_legs_of(*acc, q),
        },
{
    match quote_swap(config, reserve_in, reserve_out, amount_in, min_amount_out) {
        Err(e) => Err(e),
        Ok(q) => {
            let legs = vec![
                transfer_tokens(
                    acc.user_input_token,
                    acc.swap_pool_token,
                    acc.user_authority,
                    q.amount_after_fee,
                ),
            ];
            assert(legs@ =~= swap_legs_of(*acc, q));
            Ok(legs)
        },
    }
}

/// Decides a swap from what the custody reported for its leg; the event
/// carries the output computed from the reserves.
pub fn swap_tokens(
    acc: &SwapTokens,
    config: &Config,
    reserve_in: u64,
    reserve_out: u64,
    amount_in: u64,
    min_amount_out: u64,
    outcomes: &Vec<Outcome>,
) -> (r: Result<SwapExecuted, DefiError>)
    ensures
        r == swap_result(
            *acc,
            config.fee_basis_points,
            reserve_in,
            reserve_out,
            amount_in,
            min_amount_out,
            outcomes@,
        ),
{
    let q = match quote_swap(config, reserve_in, reserve_out, amount_in, min_amount_out) {
        Err(e) => return Err(e),
        Ok(q) => q,
    };
    match settle(outcomes, 1) {
        Err(e) => Err(e),
        Ok(()) => Ok(
            SwapExecuted {
                user: acc.user_authority,
                token_in: acc.user_input_token,
                token_out: acc.user_output_token,
                amount_in,
                amount_out: q.amount_out,
            },
        ),
    }
}

/// A swap whose floor lies above the output the curve gives fails with
/// `SlippageExceeded`, whatever the custody reports, and requests no leg.
pub proof fn slippage_moves_nothing(
    acc: SwapTokens,
    fee_bp: u64,
    reserve_in: u64,
    reserve_out: u64,
    amount_in: u64,
    min_amount_out: u64,
    outcomes: Seq<Outcome>,
)
    requires
        amount_in > 0,
        fee_bp <= MAX_FEE_BASIS_POINTS,
        min_amount_out > swap_out_of(
            reserve_in as int,
            reserve_out as int,
            amount_in - fee_of(amount_in as int, fee_bp as int),
        ),
    ensures
        swap_quote_of(fee_bp, reserve_in, reserve_out, amount_in, min_amount_out) == Err::<
            SwapQuote,
            DefiError,
        >(DefiError::SlippageExceeded),
        swap_result(acc, fee_bp, reserve_in, reserve_out, amount_in, min_amount_out, outcomes)
            == Err::<SwapExecuted, DefiError>(DefiError::SlippageExceeded),
{
}

/// A quote that succeeds never pays out more than the reserve it is paid from.
pub proof fn swap_quote_is_consistent(
    fee_bp: u64,
    reserve_in: u64,
    reserve_out: u64,
    amount_in: u64,
    min_amount_out: u64,
)
    ensures
        swap_quote_of(fee_bp, reserve_in, reserve_out, amount_in, min_amount_out) matches Ok(q)
            ==> q.amount_out <= reserve_out,
{
    if amount_in > 0 && fee_bp <= MAX_FEE_BASIS_POINTS {
        let a = amount_in as int;
        let bp = fee_bp as int;
        assert(a * bp / 10000 < a) by (nonlinear_arith)
            requires
                a > 0,
                0 <= bp <= 1000,
        ;
        assert(0 <= a * bp / 10000) by (nonlinear_arith)
            requires
                a > 0,
                0 <= bp <= 1000,
        ;
        crate::policy::lemma_swap_out_bounded(
            reserve_in as int,
            reserve_out as int,
            amount_in - fee_of(amount_in as int, fee_bp as int),
        );
    }
}

// ---- stake ----

/// Checks of a stake against the participant's record.
pub open spec fn stake_check(staked: u64, amount: u64) -> Outcome {
    if amount == 0 {
        Err(DefiError::InvalidParameter)
    } else if staked + amount > u64::MAX {
        Err(DefiError::Overflow)
    } else {
        Ok(())
    }
}

/// The single leg of a stake: the shares go into the vault.
pub open spec fn stake_legs_of(acc: StakeTokens, amount: u64) -> Seq<Leg> {
    seq![
        Leg::Transfer {
            source: acc.user_lp_token,
            destination: acc.vault_lp_token,
            authority: acc.user_authority,
            amount,
        },
    ]
}

/// Outcome of a stake given the record before it and what the custody reported.
pub open spec fn stake_result(acc: StakeTokens, staked: u64, amount: u64, outcomes: Seq<Outcome>) -> Result<
    TokensStaked,
    DefiError,
> {
    match stake_check(staked, amount) {
        Err(e) => Err(e),
        Ok(_) => match settle_from(outcomes, 0, 1) {
            Err(e) => Err(e),
            Ok(_) => Ok(TokensStaked { user: acc.user_authority, staked_amount: amount }),
        },
    }
}

/// The legs the custody must run for a stake; none when the record would overflow.
pub fn stake_tokens_legs(acc: &StakeTokens, vault: &Vault, amount: u64) -> (r: Result<
    Vec<Leg>,
    DefiError,
>)
    ensures
        match stake_check(vault.staked_amount, amount) {
            Err(e) => r == Err::<Vec<Leg>, DefiError>(e),
            Ok(_) => r matches Ok(v) && v@ == stake_legs_of(*acc, amount),
        },
{
    if amount == 0 {
        return Err(DefiError::InvalidParameter);
    }
    if vault.staked_amount.checked_add(amount).is_none() {
        return Err(DefiError::Overflow);
    }
    let legs = vec![transfer_tokens(acc.user_lp_token, acc.vault_lp_token, acc.user_authority, amount)];
    assert(legs@ =~= stake_legs_of(*acc, amount));
    Ok(legs)
}

/// Decides a stake from what the custody reported for its leg, and adds the
/// amount to the record only when the stake succeeds.
pub fn stake_tokens(acc: &StakeTokens, vault: &mut Vault, amount: u64, outcomes: &Vec<Outcome>) -> (r:
    Result<TokensStaked, DefiError>)
    ensures
        r == stake_result(*acc, old(vault).staked_amount, amount, outcomes@),
        r is Ok ==> final(vault).staked_amount == old(vault).staked_amount + amount,
        r is Err ==> *final(vault) == *old(vault),
{
    if amount == 0 {
        return Err(DefiError::InvalidParameter);
    }
    let total = match vault.staked_amount.checked_add(amount) {
        None => return Err(DefiError::Overflow),
        Some(t) => t,
    };
    match settle(outcomes, 1) {
        Err(e) => Err(e),
        Ok(()) => {
            vault.staked_amount = total;
            Ok(TokensStaked { user: acc.user_authority, staked_amount: amount })
        },
    }
}

// ---- parameters ----

/// Sets the fee tier from a volatility reading, when asked by the configured
/// authority; any other caller is refused and the configuration kept.
pub fn adjust_fee(config: &mut Config, acc: &UpdateParameters, market_volatility: u64) -> (r: Result<
    FeeAdjusted,
    DefiError,
>)
    ensures
        acc.authority@ != old(config).authority@ ==> r == Err::<FeeAdjusted, DefiError>(
            DefiError::Unauthorized,
        ) && *final(config) == *old(config),
        acc.authority@ == old(config).authority@ ==> r == Ok::<FeeAdjusted, DefiError>(
            FeeAdjusted { new_fee_basis_points: tier_of(market_volatility as int) as u64 },
        ) && final(config).fee_basis_points == tier_of(market_volatility as int)
            && final(config).authority == old(config).authority,
        acc.authority@ == old(config).authority@ ==> final(config).wf(),
        old(config).wf() ==> final(config).wf(),
{
    if !same_key(&acc.authority, &config.authority) {
        return Err(DefiError::Unauthorized);
    }
    let tier = select_fee_tier(market_volatility);
    config.fee_basis_points = tier;
    Ok(FeeAdjusted { new_fee_basis_points: tier })
}

} // verus!
