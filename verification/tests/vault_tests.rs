use bloom::errors::BloomErrorCode;
use bloom::vault::{
    plan_add_liquidity, plan_remove_liquidity, PoolSnapshot, PositionSnapshot,
    RemoveLiquidityPlan,
};

fn pool_at(tick: i32, sqrt_price: u128) -> PoolSnapshot {
    PoolSnapshot { sqrt_price, tick_current_index: tick }
}

fn position_over(lower: i32, upper: i32, liquidity: u128) -> PositionSnapshot {
    PositionSnapshot {
        tick_lower_index: lower,
        tick_upper_index: upper,
        liquidity,
        fee_owed_a: 0,
        fee_owed_b: 0,
    }
}

#[test]
fn add_liquidity_rejected_out_of_range() {
    let pool = pool_at(500, 1u128 << 64);
    let position = position_over(0, 100, 0);
    let r = plan_add_liquidity(&pool, &position, 1u128 << 65, 1000, 0);
    assert_eq!(r, Err(BloomErrorCode::PositionOutOfRange));
}

#[test]
fn add_liquidity_rejected_at_upper_bound() {
    // the range is half-open: the upper tick itself is out of range
    let pool = pool_at(100, 1u128 << 64);
    let position = position_over(0, 100, 0);
    let r = plan_add_liquidity(&pool, &position, 1u128 << 65, 1000, 0);
    assert_eq!(r, Err(BloomErrorCode::PositionOutOfRange));
}

#[test]
fn add_liquidity_first_deposit_mints_the_liquidity() {
    let pool = pool_at(50, 1u128 << 64);
    let position = position_over(0, 100, 0);
    let plan = plan_add_liquidity(&pool, &position, 1u128 << 65, 1000, 0).unwrap();
    assert_eq!(plan.liquidity, 2000);
    assert_eq!(plan.pool_token_mint_amount, 2000);
}

#[test]
fn add_liquidity_later_deposit_mints_proportionally() {
    let pool = pool_at(50, 1u128 << 64);
    let position = position_over(0, 100, 4000);
    // the deposit derives 2000 liquidity against a 4000-liquidity position
    // holding a supply of 600: it mints half the supply
    let plan = plan_add_liquidity(&pool, &position, 1u128 << 65, 1000, 600).unwrap();
    assert_eq!(plan.liquidity, 2000);
    assert_eq!(plan.pool_token_mint_amount, 300);
}

#[test]
fn remove_liquidity_out_of_range_is_a_no_op() {
    let pool = pool_at(-10, 1u128 << 64);
    let position = position_over(0, 100, 1000);
    let r = plan_remove_liquidity(&pool, &position, 10, 100);
    assert_eq!(r, RemoveLiquidityPlan::NoEffect);
}

#[test]
fn remove_liquidity_burns_the_full_share_balance() {
    let pool = pool_at(50, 1u128 << 64);
    let position = position_over(0, 100, 1000);
    let r = plan_remove_liquidity(&pool, &position, 10, 100);
    assert_eq!(
        r,
        RemoveLiquidityPlan::Withdraw { liquidity: 100, shares_to_burn: 10 }
    );
}
