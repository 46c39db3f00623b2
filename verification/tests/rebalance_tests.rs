use bloom::errors::BloomErrorCode;
use bloom::rebalance::{
    rebalance_begin, rebalance_step, RebalanceAction, RebalanceEvent, RebalanceState,
    MAX_SQRT_PRICE_X64, MIN_SQRT_PRICE_X64,
};
use bloom::vault::{PoolSnapshot, PositionSnapshot, VaultBalances};

fn pool_at(tick: i32, sqrt_price: u128) -> PoolSnapshot {
    PoolSnapshot { sqrt_price, tick_current_index: tick }
}

fn position_over(lower: i32, upper: i32, liquidity: u128) -> PositionSnapshot {
    PositionSnapshot {
        tick_lower_index: lower,
        tick_upper_index: upper,
        liquidity,
        fee_owed_a: 7,
        fee_owed_b: 3,
    }
}

#[test]
fn rebalance_in_range_reports_and_mutates_nothing() {
    let pool = pool_at(50, 1u128 << 64);
    let position = position_over(0, 100, 5000);
    let (state, action) = rebalance_begin(&pool, &position, -100, 200);
    // terminal at once: the only action is the observability report
    assert_eq!(state, RebalanceState::Done);
    assert_eq!(
        action,
        RebalanceAction::ReportInRange { tick_lower_index: 0, tick_upper_index: 100 }
    );
}

#[test]
fn rebalance_in_range_includes_the_lower_bound() {
    let pool = pool_at(0, 1u128 << 64);
    let position = position_over(0, 100, 5000);
    let (state, _action) = rebalance_begin(&pool, &position, -100, 200);
    assert_eq!(state, RebalanceState::Done);
}

#[test]
fn rebalance_at_upper_bound_is_out_of_range() {
    let pool = pool_at(100, 1u128 << 64);
    let position = position_over(0, 100, 5000);
    let (_state, action) = rebalance_begin(&pool, &position, 50, 200);
    assert_eq!(
        action,
        RebalanceAction::Withdraw { liquidity: 5000, min_token_a: 0, min_token_b: 0 }
    );
}

/// Drives a whole out-of-range rebalance against a recording pool stand-in
/// and checks the exact call order, with each step's inputs taken from the
/// most recently re-queried state.
#[test]
fn rebalance_out_of_range_sequences_all_steps_in_order() {
    let entry_sqrt_price = 3u128 << 63;
    let pool = pool_at(200, entry_sqrt_price);
    let old_position = position_over(0, 100, 5000);
    let mut log: Vec<RebalanceAction> = Vec::new();

    let (mut state, mut action) = rebalance_begin(&pool, &old_position, 150, 300);
    log.push(action);

    // the state after the swap, as the environment would re-query it
    let swapped_balances = VaultBalances { token_a: 1000, token_b: 100 };
    let swapped_pool = pool_at(201, 1u128 << 64);
    let sqrt_price_upper = 1u128 << 65;
    let opened = position_over(150, 300, 0);

    let mut fuel = 0;
    while state != RebalanceState::Done {
        let event = match action {
            RebalanceAction::Withdraw { .. } => RebalanceEvent::Withdrawn,
            RebalanceAction::CollectFees => RebalanceEvent::FeesCollected {
                balances: VaultBalances { token_a: 900, token_b: 140 },
            },
            RebalanceAction::ClosePosition => RebalanceEvent::PositionClosed,
            RebalanceAction::OpenPosition { .. } => {
                RebalanceEvent::PositionOpened { position: opened }
            }
            RebalanceAction::ComputeSwap { .. } => {
                RebalanceEvent::SwapComputed { amount: 40, a_to_b: false }
            }
            RebalanceAction::Swap { .. } => RebalanceEvent::Swapped {
                balances: swapped_balances,
                pool: swapped_pool,
                sqrt_price_upper_x64: sqrt_price_upper,
            },
            RebalanceAction::ComputeTokenDeltas { .. } => {
                RebalanceEvent::TokenDeltasComputed { token_max_a: 900, token_max_b: 50 }
            }
            RebalanceAction::Deposit { .. } => RebalanceEvent::Deposited {
                balances: VaultBalances { token_a: 100, token_b: 50 },
            },
            other => panic!("unexpected action {:?}", other),
        };
        let (next_state, next_action) = rebalance_step(state, event);
        state = next_state;
        action = next_action;
        log.push(action);
        fuel += 1;
        assert!(fuel < 20, "rebalance did not finish");
    }

    assert_eq!(
        log,
        vec![
            // withdraw 100% of the old position's liquidity
            RebalanceAction::Withdraw { liquidity: 5000, min_token_a: 0, min_token_b: 0 },
            RebalanceAction::CollectFees,
            RebalanceAction::ClosePosition,
            // open over the caller-supplied range
            RebalanceAction::OpenPosition { tick_lower_index: 150, tick_upper_index: 300 },
            // ratio sizing uses the re-fetched position's range at the entry price
            RebalanceAction::ComputeSwap {
                tick_lower_index: 150,
                tick_upper_index: 300,
                sqrt_price: entry_sqrt_price,
            },
            // the sized swap sells token B for token A, so the price limit is
            // the pool maximum and the amount is an exact input
            RebalanceAction::Swap {
                amount: 40,
                other_amount_threshold: 0,
                sqrt_price_limit: MAX_SQRT_PRICE_X64,
                amount_specified_is_input: true,
                a_to_b: false,
            },
            // liquidity is derived from the re-queried reserves and price:
            // sqrt prices 1.0 and 2.0 give two liquidity units per token-A unit
            RebalanceAction::ComputeTokenDeltas {
                liquidity: 2000,
                tick_current_index: 201,
                sqrt_price: 1u128 << 64,
            },
            RebalanceAction::Deposit { liquidity: 2000, token_max_a: 900, token_max_b: 50 },
            RebalanceAction::UpdateVaultPosition,
        ]
    );
}

#[test]
fn rebalance_swap_selling_token_a_uses_the_minimum_price_limit() {
    let pool = pool_at(200, 1u128 << 64);
    let old_position = position_over(0, 100, 5000);
    let (state, _action) = rebalance_begin(&pool, &old_position, 150, 300);
    let (state, _action) = rebalance_step(state, RebalanceEvent::Withdrawn);
    let (state, _action) = rebalance_step(
        state,
        RebalanceEvent::FeesCollected { balances: VaultBalances { token_a: 9, token_b: 9 } },
    );
    let (state, _action) = rebalance_step(state, RebalanceEvent::PositionClosed);
    let (state, _action) = rebalance_step(
        state,
        RebalanceEvent::PositionOpened { position: position_over(150, 300, 0) },
    );
    let (_state, action) = rebalance_step(
        state,
        RebalanceEvent::SwapComputed { amount: 25, a_to_b: true },
    );
    assert_eq!(
        action,
        RebalanceAction::Swap {
            amount: 25,
            other_amount_threshold: 0,
            sqrt_price_limit: MIN_SQRT_PRICE_X64,
            amount_specified_is_input: true,
            a_to_b: true,
        }
    );
}

#[test]
fn rebalance_fails_fatally_when_new_range_misses_current_tick() {
    let pool = pool_at(200, 1u128 << 64);
    let old_position = position_over(0, 100, 5000);
    let (state, _action) = rebalance_begin(&pool, &old_position, 300, 400);
    let (state, _action) = rebalance_step(state, RebalanceEvent::Withdrawn);
    let (state, _action) = rebalance_step(
        state,
        RebalanceEvent::FeesCollected { balances: VaultBalances { token_a: 9, token_b: 9 } },
    );
    let (state, _action) = rebalance_step(state, RebalanceEvent::PositionClosed);
    // the re-fetched position's range does not bracket the current tick
    let (state, action) = rebalance_step(
        state,
        RebalanceEvent::PositionOpened { position: position_over(300, 400, 0) },
    );
    assert_eq!(
        state,
        RebalanceState::Failed { error: BloomErrorCode::PositionOutOfRange }
    );
    assert_eq!(
        action,
        RebalanceAction::Abort { error: BloomErrorCode::PositionOutOfRange }
    );
}

#[test]
fn rebalance_fails_fatally_when_deltas_exceed_reserves() {
    let balances = VaultBalances { token_a: 1000, token_b: 100 };
    let pool = pool_at(201, 1u128 << 64);
    let (state, _action) = rebalance_step(
        RebalanceState::Swapping,
        RebalanceEvent::Swapped {
            balances,
            pool,
            sqrt_price_upper_x64: 1u128 << 65,
        },
    );
    // the curve asks for more of token B than the vault holds
    let (state, action) = rebalance_step(
        state,
        RebalanceEvent::TokenDeltasComputed { token_max_a: 900, token_max_b: 101 },
    );
    assert_eq!(state, RebalanceState::Failed { error: BloomErrorCode::Miscalculation });
    assert_eq!(action, RebalanceAction::Abort { error: BloomErrorCode::Miscalculation });
}

#[test]
fn error_messages_name_the_conditions() {
    assert_eq!(BloomErrorCode::PositionOutOfRange.message(), "Position Out Of Range");
    assert_eq!(BloomErrorCode::InvalidPoolTokenMint.message(), "Invalid Pool Token Mint");
    assert_eq!(BloomErrorCode::Miscalculation.message(), "Miscalculation");
}
