use solana_defi_flow::accounts::{
    Config, Key, Leg, ProvideLiquidity, RemoveLiquidity, StakeTokens, SwapTokens,
    UpdateParameters, Vault,
};
use solana_defi_flow::error::DefiError;
use solana_defi_flow::pool::{
    adjust_fee, calculate_rewards, provide_liquidity, provide_liquidity_legs, quote_swap,
    remove_liquidity, remove_liquidity_legs, settle, stake_tokens, stake_tokens_legs, swap_tokens,
    swap_tokens_legs, Outcome,
};

fn key(n: u8) -> Key {
    [n; 32]
}

fn deposit_accounts() -> ProvideLiquidity {
    ProvideLiquidity {
        user_token_a: key(1),
        user_token_b: key(2),
        pool_token_a: key(3),
        pool_token_b: key(4),
        reward_mint: key(5),
        user_reward_account: key(6),
        reward_mint_authority: key(7),
        user_authority: key(8),
    }
}

fn swap_accounts() -> SwapTokens {
    SwapTokens {
        user_input_token: key(1),
        swap_pool_token: key(2),
        user_output_token: key(3),
        user_authority: key(8),
    }
}

fn stake_accounts() -> StakeTokens {
    StakeTokens { user_lp_token: key(1), vault_lp_token: key(2), user_authority: key(8) }
}

fn all_ok(n: usize) -> Vec<Outcome> {
    vec![Ok(()); n]
}

#[test]
fn provide_liquidity_issues_reward() {
    let acc = deposit_accounts();
    let legs = provide_liquidity_legs(&acc, 1000, 2000).unwrap();
    assert_eq!(legs.len(), 3);
    match legs[2] {
        Leg::Mint { amount, destination, .. } => {
            assert_eq!(amount, 30);
            assert_eq!(destination, key(6));
        },
        _ => panic!("third leg must issue the reward"),
    }
    match legs[0] {
        Leg::Transfer { source, destination, amount, .. } => {
            assert_eq!((source, destination, amount), (key(1), key(3), 1000));
        },
        _ => panic!("first leg must move asset A"),
    }
    let event = provide_liquidity(&acc, 1000, 2000, &all_ok(3)).unwrap();
    assert_eq!(event.reward_issued, 30);
    assert_eq!(event.token_a_amount, 1000);
    assert_eq!(event.token_b_amount, 2000);
    assert_eq!(event.user, key(8));
    assert_eq!(calculate_rewards(1000, 2000), 30);
}

#[test]
fn provide_liquidity_second_leg_failure_is_reported() {
    let acc = deposit_accounts();
    let outcomes: Vec<Outcome> = vec![Ok(()), Err(DefiError::InsufficientBalance)];
    assert_eq!(
        provide_liquidity(&acc, 1000, 2000, &outcomes).map(|e| e.reward_issued),
        Err(DefiError::InsufficientBalance)
    );
}

#[test]
fn provide_liquidity_mint_failure_is_reported() {
    let acc = deposit_accounts();
    let outcomes: Vec<Outcome> = vec![Ok(()), Ok(()), Err(DefiError::Unauthorized)];
    assert_eq!(
        provide_liquidity(&acc, 1000, 2000, &outcomes).map(|e| e.reward_issued),
        Err(DefiError::Unauthorized)
    );
}

#[test]
fn provide_liquidity_incomplete_report_is_refused() {
    let acc = deposit_accounts();
    assert_eq!(
        provide_liquidity(&acc, 1000, 2000, &all_ok(2)).map(|e| e.reward_issued),
        Err(DefiError::InvalidParameter)
    );
}

#[test]
fn provide_liquidity_zero_amount_is_invalid() {
    let acc = deposit_accounts();
    assert_eq!(provide_liquidity_legs(&acc, 0, 5).map(|l| l.len()), Err(DefiError::InvalidParameter));
    assert_eq!(
        provide_liquidity(&acc, 5, 0, &all_ok(3)).map(|e| e.reward_issued),
        Err(DefiError::InvalidParameter)
    );
}

#[test]
fn settle_reports_first_failure() {
    let outcomes: Vec<Outcome> =
        vec![Ok(()), Err(DefiError::Unauthorized), Err(DefiError::InsufficientBalance)];
    assert_eq!(settle(&outcomes, 3), Err(DefiError::Unauthorized));
    assert_eq!(settle(&outcomes, 1), Ok(()));
    assert_eq!(settle(&all_ok(0), 0), Ok(()));
}

#[test]
fn remove_liquidity_round() {
    let acc = RemoveLiquidity { user_lp_token: key(1), pool_lp_token: key(2), user_authority: key(8) };
    assert_eq!(remove_liquidity_legs(&acc, 40).unwrap().len(), 1);
    let event = remove_liquidity(&acc, 40, &all_ok(1)).unwrap();
    assert_eq!(event.lp_tokens_burned, 40);
    let failed: Vec<Outcome> = vec![Err(DefiError::InsufficientBalance)];
    assert_eq!(
        remove_liquidity(&acc, 40, &failed).map(|e| e.lp_tokens_burned),
        Err(DefiError::InsufficientBalance)
    );
    assert_eq!(remove_liquidity_legs(&acc, 0).map(|l| l.len()), Err(DefiError::InvalidParameter));
}

#[test]
fn adjust_fee_then_swap_charges_new_tier() {
    let mut config = Config::new(key(9));
    assert_eq!(config.fee_basis_points, 25);
    let event = adjust_fee(&mut config, &UpdateParameters { authority: key(9) }, 75).unwrap();
    assert_eq!(event.new_fee_basis_points, 50);
    assert_eq!(config.fee_basis_points, 50);
    let quote = quote_swap(&config, 1_000_000, 1_000_000, 10_000, 0).unwrap();
    assert_eq!(quote.fee, 50);
    assert_eq!(quote.amount_after_fee, 9_950);
    // 1_000_000 * 9_950 / 1_009_950
    assert_eq!(quote.amount_out, 9_851);
}

#[test]
fn adjust_fee_low_volatility() {
    let mut config = Config::new(key(9));
    let event = adjust_fee(&mut config, &UpdateParameters { authority: key(9) }, 50).unwrap();
    assert_eq!(event.new_fee_basis_points, 10);
    assert_eq!(config.fee_basis_points, 10);
}

#[test]
fn adjust_fee_unauthorized_keeps_config() {
    let mut config = Config::new(key(9));
    let result = adjust_fee(&mut config, &UpdateParameters { authority: key(3) }, 75);
    assert_eq!(result, Err(DefiError::Unauthorized));
    assert_eq!(config.fee_basis_points, 25);
}

#[test]
fn swap_reports_computed_output() {
    let config = Config::new(key(9));
    let acc = swap_accounts();
    let legs = swap_tokens_legs(&acc, &config, 10_000, 20_000, 1_000, 1).unwrap();
    match legs[0] {
        Leg::Transfer { amount, destination, .. } => {
            // fee at 25 bp of 1000 is 2
            assert_eq!(amount, 998);
            assert_eq!(destination, key(2));
        },
        _ => panic!("a swap moves its input"),
    }
    let event = swap_tokens(&acc, &config, 10_000, 20_000, 1_000, 1, &all_ok(1)).unwrap();
    // 20_000 * 998 / 10_998
    assert_eq!(event.amount_out, 1_814);
    assert_eq!(event.amount_in, 1_000);
}

#[test]
fn swap_above_output_is_slippage() {
    let config = Config::new(key(9));
    let acc = swap_accounts();
    assert_eq!(
        swap_tokens_legs(&acc, &config, 10_000, 20_000, 1_000, 1_815).map(|l| l.len()),
        Err(DefiError::SlippageExceeded)
    );
    assert_eq!(
        swap_tokens(&acc, &config, 10_000, 20_000, 1_000, 1_815, &all_ok(1)).map(|e| e.amount_out),
        Err(DefiError::SlippageExceeded)
    );
    assert_eq!(
        swap_tokens(&acc, &config, 10_000, 20_000, 1_000, 1_814, &all_ok(1)).map(|e| e.amount_out),
        Ok(1_814)
    );
}

#[test]
fn swap_zero_input_is_invalid() {
    let config = Config::new(key(9));
    assert_eq!(quote_swap(&config, 10, 10, 0, 0), Err(DefiError::InvalidParameter));
}

#[test]
fn swap_failed_transfer_is_reported() {
    let config = Config::new(key(9));
    let acc = swap_accounts();
    let failed: Vec<Outcome> = vec![Err(DefiError::InsufficientBalance)];
    assert_eq!(
        swap_tokens(&acc, &config, 10_000, 20_000, 1_000, 0, &failed).map(|e| e.amount_out),
        Err(DefiError::InsufficientBalance)
    );
}

#[test]
fn stake_twice_then_overflow() {
    let acc = stake_accounts();
    let mut vault = Vault::new();
    assert_eq!(stake_tokens(&acc, &mut vault, 500, &all_ok(1)).unwrap().staked_amount, 500);
    assert_eq!(stake_tokens(&acc, &mut vault, 500, &all_ok(1)).unwrap().staked_amount, 500);
    assert_eq!(vault.staked_amount, 1000);
    assert_eq!(stake_tokens_legs(&acc, &vault, u64::MAX).map(|l| l.len()), Err(DefiError::Overflow));
    assert_eq!(
        stake_tokens(&acc, &mut vault, u64::MAX, &all_ok(1)).map(|e| e.staked_amount),
        Err(DefiError::Overflow)
    );
    assert_eq!(vault.staked_amount, 1000);
}

#[test]
fn stake_failed_transfer_keeps_record() {
    let acc = stake_accounts();
    let mut vault = Vault { staked_amount: 7 };
    let failed: Vec<Outcome> = vec![Err(DefiError::InsufficientBalance)];
    assert_eq!(
        stake_tokens(&acc, &mut vault, 5, &failed).map(|e| e.staked_amount),
        Err(DefiError::InsufficientBalance)
    );
    assert_eq!(vault.staked_amount, 7);
    assert_eq!(stake_tokens_legs(&acc, &vault, 0).map(|l| l.len()), Err(DefiError::InvalidParameter));
}
