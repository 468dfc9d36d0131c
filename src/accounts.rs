use vstd::prelude::*;

use crate::policy::{FEE_BASIS_POINTS, MAX_FEE_BASIS_POINTS};

verus! {

/// The 32-byte address of an account on the ledger.
pub type Key = [u8; 32];

/// Stake record of one participant.
#[derive(Clone, Copy, Debug, PartialEq, Eq, Structural)]
pub struct Vault {
    pub staked_amount: u64,
}

impl Vault {
    /// An empty stake record.
    pub fn new() -> (r: Vault)
        ensures
            r.staked_amount == 0,
    {
        Vault { staked_amount: 0 }
    }
}

/// Pool configuration: the current fee tier and the party allowed to change it.
#[derive(Clone, Copy, Debug)]
pub struct Config {
    pub fee_basis_points: u64,
    pub authority: Key,
}

impl Config {
    /// The fee tier stays within the cap.
    pub open spec fn wf(&self) -> bool {
        self.fee_basis_points <= MAX_FEE_BASIS_POINTS
    }

    /// A configuration at the default fee tier.
    pub fn new(authority: Key) -> (r: Config)
        ensures
            r.wf(),
            r.fee_basis_points == FEE_BASIS_POINTS,
            r.authority == authority,
    {
        Config { fee_basis_points: FEE_BASIS_POINTS, authority }
    }
}

/// One step of work handed to the custody collaborator.
#[derive(Clone, Copy, Debug)]
pub enum Leg {
    /// Move `amount` from `source` to `destination`, authorised by `authority`.
    Transfer { source: Key, destination: Key, authority: Key, amount: u64 },
    /// Issue `amount` new tokens of `mint` to `destination`, authorised by `authority`.
    Mint { mint: Key, destination: Key, authority: Key, amount: u64 },
}

/// Net change that the legs make to the balance held at `account`.
pub open spec fn balance_change(legs: Seq<Leg>, account: Key) -> int
    decreases legs.len(),
{
    if legs.len() == 0 {
        0
    } else {
        let rest = balance_change(legs.drop_last(), account);
        match legs.last() {
            Leg::Transfer { source, destination, amount, .. } => rest + (if destination
                == account {
                amount as int
            } else {
                0
            }) - (if source == account {
                amount as int
            } else {
                0
            }),
            Leg::Mint { destination, amount, .. } => rest + (if destination == account {
                amount as int
            } else {
                0
            }),
        }
    }
}

/// A transfer of `amount` from `from` to `to`.
pub fn transfer_tokens(from: Key, to: Key, authority: Key, amount: u64) -> (r: Leg)
    ensures
        r == (Leg::Transfer { source: from, destination: to, authority, amount }),
{
    Leg::Transfer { source: from, destination: to, authority, amount }
}

/// An issue of `amount` reward tokens of `mint` to `to`.
pub fn mint_rewards(mint: Key, to: Key, authority: Key, amount: u64) -> (r: Leg)
    ensures
        r == (Leg::Mint { mint, destination: to, authority, amount }),
{
    Leg::Mint { mint, destination: to, authority, amount }
}

/// Whether two keys are the same address.
pub fn same_key(a: &Key, b: &Key) -> (r: bool)
    ensures
        r == (a@ == b@),
{
    let mut i: usize = 0;
    while i < 32
        invariant
            0 <= i <= 32,
            a@.len() == 32,
            b@.len() == 32,
            forall|j: int| 0 <= j < i ==> a@[j] == b@[j],
        decreases 32 - i,
    {
        if a[i] != b[i] {
            return false;
        }
        i = i + 1;
    }
    assert(a@ =~= b@);
    true
}

/// Accounts of a deposit into the pool.
#[derive(Clone, Copy, Debug)]
pub struct ProvideLiquidity {
    pub user_token_a: Key,
    pub user_token_b: Key,
    pub pool_token_a: Key,
    pub pool_token_b: Key,
    pub reward_mint: Key,
    pub user_reward_account: Key,
    pub reward_mint_authority: Key,
    pub user_authority: Key,
}

/// Accounts of a withdrawal of pool shares.
#[derive(Clone, Copy, Debug)]
pub struct RemoveLiquidity {
    pub user_lp_token: Key,
    pub pool_lp_token: Key,
    pub user_authority: Key,
}

/// Accounts of a swap.
#[derive(Clone, Copy, Debug)]
pub struct SwapTokens {
    pub user_input_token: Key,
    pub swap_pool_token: Key,
    pub user_output_token: Key,
    pub user_authority: Key,
}

/// Accounts of a stake of pool shares into the vault.
#[derive(Clone, Copy, Debug)]
pub struct StakeTokens {
    pub user_lp_token: Key,
    pub vault_lp_token: Key,
    pub user_authority: Key,
}

/// The party asking to change the pool's parameters.
#[derive(Clone, Copy, Debug)]
pub struct UpdateParameters {
    pub authority: Key,
}

/// Accounts read when checking for impermanent loss.
#[derive(Clone, Copy, Debug)]
pub struct RebalanceLiquidity {
    pub pool_token_a: Key,
    pub pool_token_b: Key,
    pub price_feed: Key,
}

/// A completed deposit.
#[derive(Clone, Copy, Debug)]
pub struct LiquidityAdded {
    pub user: Key,
    pub token_a_amount: u64,
    pub token_b_amount: u64,
    pub reward_issued: u64,
}

/// A completed withdrawal.
#[derive(Clone, Copy, Debug)]
pub struct LiquidityRemoved {
    pub user: Key,
    pub lp_tokens_burned: u64,
}

/// A completed swap, with the amounts actually computed.
#[derive(Clone, Copy, Debug)]
pub struct SwapExecuted {
    pub user: Key,
    pub token_in: Key,
    pub token_out: Key,
    pub amount_in: u64,
    pub amount_out: u64,
}

/// A completed stake.
#[derive(Clone, Copy, Debug)]
pub struct TokensStaked {
    pub user: Key,
    pub staked_amount: u64,
}

/// A completed change of the fee tier.
#[derive(Clone, Copy, Debug, PartialEq, Eq, Structural)]
pub struct FeeAdjusted {
    pub new_fee_basis_points: u64,
}

} // verus!
