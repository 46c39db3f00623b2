//! Deposit and withdrawal planning.
//!
//! The surrounding environment reads pool, position and balance state fresh,
//! hands the plain values in, and receives back a plan: exactly which
//! liquidity to move and which share amount to mint or burn. The environment
//! then performs the token transfers and pool calls the plan names.

use crate::errors::BloomErrorCode;
use crate::math::{
    calculate_pool_token_mint_to_amount, calculate_remove_liquidity_amount,
    get_liquidity_from_token_a, spec_liquidity_from_token_a, spec_liquidity_quotient,
    spec_mint_amount, spec_remove_liquidity_amount,
};
use crate::wide::p192;
use crate::{position_in_range, spec_position_in_range};
use vstd::prelude::*;

verus! {

/// A fresh read of the pool's externally owned price state. It is read
/// before each decision and never cached across an external call boundary.
#[derive(Clone, Copy, Debug, PartialEq, Eq, Structural)]
pub struct PoolSnapshot {
    /// The current price as its square root in x64 fixed point.
    pub sqrt_price: u128,
    /// The current tick index.
    pub tick_current_index: i32,
}

/// A fresh read of the concentrated-liquidity position the vault owns.
#[derive(Clone, Copy, Debug, PartialEq, Eq, Structural)]
pub struct PositionSnapshot {
    pub tick_lower_index: i32,
    pub tick_upper_index: i32,
    /// The position's liquidity in the pool's internal unit.
    pub liquidity: u128,
    pub fee_owed_a: u64,
    pub fee_owed_b: u64,
}

/// The vault's idle token reserves awaiting deposit or received from
/// withdrawal, fees or a swap.
#[derive(Clone, Copy, Debug, PartialEq, Eq, Structural)]
pub struct VaultBalances {
    pub token_a: u64,
    pub token_b: u64,
}

/// What a deposit will do: the liquidity added to the position and the
/// share amount minted against it.
#[derive(Clone, Copy, Debug, PartialEq, Eq, Structural)]
pub struct AddLiquidityPlan {
    pub liquidity: u128,
    pub pool_token_mint_amount: u64,
}

/// Plans a deposit of a token-A amount into the vault's position.
///
/// The position must bracket the current tick; otherwise the deposit is
/// rejected upfront with `PositionOutOfRange` and nothing is mutated. On
/// success the plan carries the liquidity derived from the token-A amount
/// over [current price, upper bound) and the share amount minted for it,
/// computed against the supply and position liquidity before the deposit.
pub fn plan_add_liquidity(
    pool: &PoolSnapshot,
    position: &PositionSnapshot,
    sqrt_price_upper_x64: u128,
    token_a_amount_in: u64,
    pool_token_supply: u64,
) -> (r: Result<AddLiquidityPlan, BloomErrorCode>)
    requires
        spec_position_in_range(
            pool.tick_current_index,
            position.tick_lower_index,
            position.tick_upper_index,
        ) ==> {
            let liquidity = spec_liquidity_from_token_a(
                token_a_amount_in as u128,
                pool.sqrt_price,
                sqrt_price_upper_x64,
            );
            &&& pool.sqrt_price < sqrt_price_upper_x64
            &&& spec_liquidity_quotient(pool.sqrt_price, sqrt_price_upper_x64)
                * (token_a_amount_in as u128) < p192()
            &&& (pool_token_supply == 0 ==> liquidity <= u64::MAX)
            &&& (pool_token_supply > 0 ==> position.liquidity > 0 && spec_mint_amount(
                liquidity,
                position.liquidity as int,
                pool_token_supply as int,
            ) <= u64::MAX)
        },
    ensures
        match r {
            Ok(plan) => {
                &&& spec_position_in_range(
                    pool.tick_current_index,
                    position.tick_lower_index,
                    position.tick_upper_index,
                )
                &&& plan.liquidity == spec_liquidity_from_token_a(
                    token_a_amount_in as u128,
                    pool.sqrt_price,
                    sqrt_price_upper_x64,
                )
                &&& plan.pool_token_mint_amount == spec_mint_amount(
                    plan.liquidity as int,
                    position.liquidity as int,
                    pool_token_supply as int,
                )
            },
            Err(e) => !spec_position_in_range(
                pool.tick_current_index,
                position.tick_lower_index,
                position.tick_upper_index,
            ) && e == BloomErrorCode::PositionOutOfRange,
        },
{
    if !position_in_range(
        pool.tick_current_index,
        position.tick_lower_index,
        position.tick_upper_index,
    ) {
        return Err(BloomErrorCode::PositionOutOfRange);
    }
    let liquidity = get_liquidity_from_token_a(
        token_a_amount_in as u128,
        pool.sqrt_price,
        sqrt_price_upper_x64,
    );
    let pool_token_mint_amount = calculate_pool_token_mint_to_amount(
        liquidity,
        position.liquidity,
        pool_token_supply,
    );
    Ok(AddLiquidityPlan { liquidity, pool_token_mint_amount })
}

/// What a withdrawal will do: either nothing, or a liquidity decrease
/// together with a share burn.
#[derive(Clone, Copy, Debug, PartialEq, Eq, Structural)]
pub enum RemoveLiquidityPlan {
    /// The position is out of range: the withdrawal returns success with no
    /// effect, deliberately.
    NoEffect,
    /// Withdraw the proportional liquidity and burn the holder's full share
    /// balance.
    Withdraw { liquidity: u128, shares_to_burn: u64 },
}

/// Plans the redemption of a holder's entire share balance.
///
/// When the position is out of range the plan is a deliberate no-op that
/// still reports success. Otherwise it withdraws the holder's proportional
/// slice of the position liquidity, floored, and burns their whole share
/// balance.
pub fn plan_remove_liquidity(
    pool: &PoolSnapshot,
    position: &PositionSnapshot,
    user_pool_tokens_amount: u64,
    pool_token_supply: u64,
) -> (r: RemoveLiquidityPlan)
    requires
        spec_position_in_range(
            pool.tick_current_index,
            position.tick_lower_index,
            position.tick_upper_index,
        ) ==> 0 < pool_token_supply && user_pool_tokens_amount <= pool_token_supply,
    ensures
        match r {
            RemoveLiquidityPlan::NoEffect => !spec_position_in_range(
                pool.tick_current_index,
                position.tick_lower_index,
                position.tick_upper_index,
            ),
            RemoveLiquidityPlan::Withdraw { liquidity, shares_to_burn } => {
                &&& spec_position_in_range(
                    pool.tick_current_index,
                    position.tick_lower_index,
                    position.tick_upper_index,
                )
                &&& liquidity == spec_remove_liquidity_amount(
                    user_pool_tokens_amount as int,
                    pool_token_supply as int,
                    position.liquidity as int,
                )
                &&& liquidity <= position.liquidity
                &&& shares_to_burn == user_pool_tokens_amount
            },
        },
{
    if !position_in_range(
        pool.tick_current_index,
        position.tick_lower_index,
        position.tick_upper_index,
    ) {
        return RemoveLiquidityPlan::NoEffect;
    }
    let liquidity = calculate_remove_liquidity_amount(
        user_pool_tokens_amount,
        pool_token_supply,
        position.liquidity,
    );
    RemoveLiquidityPlan::Withdraw { liquidity, shares_to_burn: user_pool_tokens_amount }
}

} // verus!
