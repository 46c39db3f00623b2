//! The rebalance orchestrator.
//!
//! Rebalancing interleaves pool calls with decisions, so the decisions live
//! here as a state machine: each step takes the current state and the event
//! the environment reports back from the last pool call, and returns the
//! next state together with the next action to perform. The environment
//! performs each action against the pool, re-reads whatever the action
//! mutated, and hands the fresh values back in the next event — no value
//! read before a mutating call is ever reused past it.
//!
//! In range, the orchestrator finishes immediately with a report and no
//! mutating action. Out of range it sequences, in strict order: withdraw
//! the whole position liquidity, collect fees, close the position, open the
//! new one, re-check its range, size the swap, swap, and redeposit — and it
//! aborts the whole run on a range mismatch or on reserves short of what
//! the deposit needs.

use crate::errors::BloomErrorCode;
use crate::math::{
    spec_liquidity_from_token_a, spec_liquidity_quotient, try_get_liquidity_from_token_a,
};
use crate::vault::{PoolSnapshot, PositionSnapshot, VaultBalances};
use crate::wide::p192;
use crate::{position_in_range, spec_position_in_range};
use vstd::prelude::*;

verus! {

/// The smallest square-root price the pool accepts, in x64 fixed point:
/// the price limit of a swap that sells token A.
pub const MIN_SQRT_PRICE_X64: u128 = 4295048016;

/// The largest square-root price the pool accepts, in x64 fixed point:
/// the price limit of a swap that sells token B.
pub const MAX_SQRT_PRICE_X64: u128 = 79226673515401279992447579055;

/// The values a rebalance carries across steps: the pool state read once at
/// entry (no step before the swap moves the price) and the caller-supplied
/// new range.
#[derive(Clone, Copy, Debug, PartialEq, Eq, Structural)]
pub struct RebalanceContext {
    pub tick_current_index: i32,
    pub sqrt_price: u128,
    pub new_tick_lower_index: i32,
    pub new_tick_upper_index: i32,
}

/// What the environment must do next against the pool or the token
/// registry.
#[derive(Clone, Copy, Debug, PartialEq, Eq, Structural)]
pub enum RebalanceAction {
    /// No mutating call: report the position's range for observability.
    ReportInRange { tick_lower_index: i32, tick_upper_index: i32 },
    /// Decrease the position by this liquidity into the vault reserves.
    Withdraw { liquidity: u128, min_token_a: u64, min_token_b: u64 },
    /// Collect accrued fees into the vault reserves.
    CollectFees,
    /// Close the now-empty position.
    ClosePosition,
    /// Open a new position over this range.
    OpenPosition { tick_lower_index: i32, tick_upper_index: i32 },
    /// Compute the deposit ratio for this range at this price and size the
    /// single-shot swap from the current reserves.
    ComputeSwap { tick_lower_index: i32, tick_upper_index: i32, sqrt_price: u128 },
    /// Execute the sized swap against the pool.
    Swap {
        amount: u64,
        other_amount_threshold: u64,
        sqrt_price_limit: u128,
        amount_specified_is_input: bool,
        a_to_b: bool,
    },
    /// Ask the pool's curve for the maximum token amounts this liquidity
    /// change consumes at the current price.
    ComputeTokenDeltas { liquidity: u128, tick_current_index: i32, sqrt_price: u128 },
    /// Deposit the computed liquidity, capped by these token maxima.
    Deposit { liquidity: u128, token_max_a: u64, token_max_b: u64 },
    /// Point the vault's active-position reference at the new position.
    UpdateVaultPosition,
    /// Abort the whole invocation; nothing is retried.
    Abort { error: BloomErrorCode },
}

/// What the environment reports back after performing the last action.
#[derive(Clone, Copy, Debug, PartialEq, Eq, Structural)]
pub enum RebalanceEvent {
    /// The liquidity decrease completed.
    Withdrawn,
    /// Fees were collected; the vault reserves were re-read.
    FeesCollected { balances: VaultBalances },
    /// The old position was closed.
    PositionClosed,
    /// The new position was opened and re-fetched.
    PositionOpened { position: PositionSnapshot },
    /// The swap was sized from the deposit ratio.
    SwapComputed { amount: u64, a_to_b: bool },
    /// The swap executed; reserves and pool state were re-read, and the
    /// square-root price of the new range's upper tick is supplied.
    Swapped { balances: VaultBalances, pool: PoolSnapshot, sqrt_price_upper_x64: u128 },
    /// The pool's curve returned the maximum token amounts.
    TokenDeltasComputed { token_max_a: u64, token_max_b: u64 },
    /// The deposit completed; the vault reserves were re-read.
    Deposited { balances: VaultBalances },
}

/// Where a rebalance stands: which event it is waiting for, or how it
/// ended.
#[derive(Clone, Copy, Debug, PartialEq, Eq, Structural)]
pub enum RebalanceState {
    /// Waiting for the position withdrawal to complete.
    Withdrawing { ctx: RebalanceContext },
    /// Waiting for fee collection to complete.
    FeeCollecting { ctx: RebalanceContext },
    /// Waiting for the old position to close.
    Closing { ctx: RebalanceContext },
    /// Waiting for the new position to open.
    Opening { ctx: RebalanceContext },
    /// Waiting for the swap sizing computed from the deposit ratio.
    RatioComputing { ctx: RebalanceContext },
    /// Waiting for the swap to execute.
    Swapping,
    /// Waiting for the pool's curve to bound the deposit.
    DeltaComputing { liquidity: u128, balances: VaultBalances },
    /// Waiting for the deposit to complete.
    Depositing,
    /// The rebalance finished.
    Done,
    /// The rebalance aborted; the whole invocation fails with this error.
    Failed { error: BloomErrorCode },
}

/// The first decision of a rebalance, from fresh pool and position reads
/// and the caller-supplied new range.
pub open spec fn spec_rebalance_begin(
    pool: PoolSnapshot,
    position: PositionSnapshot,
    new_tick_lower_index: i32,
    new_tick_upper_index: i32,
) -> (RebalanceState, RebalanceAction) {
    if spec_position_in_range(
        pool.tick_current_index,
        position.tick_lower_index,
        position.tick_upper_index,
    ) {
        (
            RebalanceState::Done,
            RebalanceAction::ReportInRange {
                tick_lower_index: position.tick_lower_index,
                tick_upper_index: position.tick_upper_index,
            },
        )
    } else {
        (
            RebalanceState::Withdrawing {
                ctx: RebalanceContext {
                    tick_current_index: pool.tick_current_index,
                    sqrt_price: pool.sqrt_price,
                    new_tick_lower_index,
                    new_tick_upper_index,
                },
            },
            RebalanceAction::Withdraw {
                liquidity: position.liquidity,
                min_token_a: 0u64,
                min_token_b: 0u64,
            },
        )
    }
}

/// Which event each state is waiting for.
pub open spec fn spec_rebalance_accepts(
    state: RebalanceState,
    event: RebalanceEvent,
) -> bool {
    match (state, event) {
        (RebalanceState::Withdrawing { .. }, RebalanceEvent::Withdrawn) => true,
        (RebalanceState::FeeCollecting { .. }, RebalanceEvent::FeesCollected { .. }) => true,
        (RebalanceState::Closing { .. }, RebalanceEvent::PositionClosed) => true,
        (RebalanceState::Opening { .. }, RebalanceEvent::PositionOpened { .. }) => true,
        (RebalanceState::RatioComputing { .. }, RebalanceEvent::SwapComputed { .. }) => true,
        (RebalanceState::Swapping, RebalanceEvent::Swapped { .. }) => true,
        (
            RebalanceState::DeltaComputing { .. },
            RebalanceEvent::TokenDeltasComputed { .. },
        ) => true,
        (RebalanceState::Depositing, RebalanceEvent::Deposited { .. }) => true,
        _ => false,
    }
}

/// The transition relation: from a state and the event just reported, the
/// next state and the next action.
pub open spec fn spec_rebalance_step(
    state: RebalanceState,
    event: RebalanceEvent,
) -> (RebalanceState, RebalanceAction) {
    match (state, event) {
        (RebalanceState::Withdrawing { ctx }, RebalanceEvent::Withdrawn) => (
            RebalanceState::FeeCollecting { ctx },
            RebalanceAction::CollectFees,
        ),
        (
            RebalanceState::FeeCollecting { ctx },
            RebalanceEvent::FeesCollected { .. },
        ) => (RebalanceState::Closing { ctx }, RebalanceAction::ClosePosition),
        (RebalanceState::Closing { ctx }, RebalanceEvent::PositionClosed) => (
            RebalanceState::Opening { ctx },
            RebalanceAction::OpenPosition {
                tick_lower_index: ctx.new_tick_lower_index,
                tick_upper_index: ctx.new_tick_upper_index,
            },
        ),
        (
            RebalanceState::Opening { ctx },
            RebalanceEvent::PositionOpened { position },
        ) => {
            if !spec_position_in_range(
                ctx.tick_current_index,
                position.tick_lower_index,
                position.tick_upper_index,
            ) {
                (
                    RebalanceState::Failed { error: BloomErrorCode::PositionOutOfRange },
                    RebalanceAction::Abort { error: BloomErrorCode::PositionOutOfRange },
                )
            } else {
                (
                    RebalanceState::RatioComputing { ctx },
                    RebalanceAction::ComputeSwap {
                        tick_lower_index: position.tick_lower_index,
                        tick_upper_index: position.tick_upper_index,
                        sqrt_price: ctx.sqrt_price,
                    },
                )
            }
        },
        (
            RebalanceState::RatioComputing { .. },
            RebalanceEvent::SwapComputed { amount, a_to_b },
        ) => (
            RebalanceState::Swapping,
            RebalanceAction::Swap {
                amount,
                other_amount_threshold: 0u64,
                sqrt_price_limit: if a_to_b {
                    MIN_SQRT_PRICE_X64
                } else {
                    MAX_SQRT_PRICE_X64
                },
                amount_specified_is_input: true,
                a_to_b,
            },
        ),
        (
            RebalanceState::Swapping,
            RebalanceEvent::Swapped { balances, pool, sqrt_price_upper_x64 },
        ) => {
            if pool.sqrt_price >= sqrt_price_upper_x64 {
                (
                    RebalanceState::Failed { error: BloomErrorCode::PositionOutOfRange },
                    RebalanceAction::Abort { error: BloomErrorCode::PositionOutOfRange },
                )
            } else if spec_liquidity_quotient(pool.sqrt_price, sqrt_price_upper_x64)
                * (balances.token_a as u128) >= p192() {
                (
                    RebalanceState::Failed { error: BloomErrorCode::Miscalculation },
                    RebalanceAction::Abort { error: BloomErrorCode::Miscalculation },
                )
            } else {
                let liquidity = spec_liquidity_from_token_a(
                    balances.token_a as u128,
                    pool.sqrt_price,
                    sqrt_price_upper_x64,
                ) as u128;
                (
                    RebalanceState::DeltaComputing { liquidity, balances },
                    RebalanceAction::ComputeTokenDeltas {
                        liquidity,
                        tick_current_index: pool.tick_current_index,
                        sqrt_price: pool.sqrt_price,
                    },
                )
            }
        },
        (
            RebalanceState::DeltaComputing { liquidity, balances },
            RebalanceEvent::TokenDeltasComputed { token_max_a, token_max_b },
        ) => {
            if token_max_b > balances.token_b {
                (
                    RebalanceState::Failed { error: BloomErrorCode::Miscalculation },
                    RebalanceAction::Abort { error: BloomErrorCode::Miscalculation },
                )
            } else if token_max_a > balances.token_a {
                (
                    RebalanceState::Failed { error: BloomErrorCode::Miscalculation },
                    RebalanceAction::Abort { error: BloomErrorCode::Miscalculation },
                )
            } else {
                (
                    RebalanceState::Depositing,
                    RebalanceAction::Deposit { liquidity, token_max_a, token_max_b },
                )
            }
        },
        (RebalanceState::Depositing, RebalanceEvent::Deposited { .. }) => (
            RebalanceState::Done,
            RebalanceAction::UpdateVaultPosition,
        ),
        _ => (
            RebalanceState::Failed { error: BloomErrorCode::Miscalculation },
            RebalanceAction::Abort { error: BloomErrorCode::Miscalculation },
        ),
    }
}

/// Begins a rebalance from fresh pool and position reads.
///
/// In range, the run is already done and the only action is a report.
/// Out of range, the first action withdraws the position's whole liquidity.
pub fn rebalance_begin(
    pool: &PoolSnapshot,
    position: &PositionSnapshot,
    new_tick_lower_index: i32,
    new_tick_upper_index: i32,
) -> (r: (RebalanceState, RebalanceAction))
    ensures
        r == spec_rebalance_begin(*pool, *position, new_tick_lower_index, new_tick_upper_index),
{
    if position_in_range(
        pool.tick_current_index,
        position.tick_lower_index,
        position.tick_upper_index,
    ) {
        (
            RebalanceState::Done,
            RebalanceAction::ReportInRange {
                tick_lower_index: position.tick_lower_index,
                tick_upper_index: position.tick_upper_index,
            },
        )
    } else {
        (
            RebalanceState::Withdrawing {
                ctx: RebalanceContext {
                    tick_current_index: pool.tick_current_index,
                    sqrt_price: pool.sqrt_price,
                    new_tick_lower_index,
                    new_tick_upper_index,
                },
            },
            RebalanceAction::Withdraw {
                liquidity: position.liquidity,
                min_token_a: 0,
                min_token_b: 0,
            },
        )
    }
}

/// Advances a rebalance by one step: consumes the event the environment
/// reported for the last action and returns the next state and action.
pub fn rebalance_step(
    state: RebalanceState,
    event: RebalanceEvent,
) -> (r: (RebalanceState, RebalanceAction))
    requires
        spec_rebalance_accepts(state, event),
    ensures
        r == spec_rebalance_step(state, event),
{
    match (state, event) {
        (RebalanceState::Withdrawing { ctx }, RebalanceEvent::Withdrawn) => (
            RebalanceState::FeeCollecting { ctx },
            RebalanceAction::CollectFees,
        ),
        (
            RebalanceState::FeeCollecting { ctx },
            RebalanceEvent::FeesCollected { balances: _ },
        ) => (RebalanceState::Closing { ctx }, RebalanceAction::ClosePosition),
        (RebalanceState::Closing { ctx }, RebalanceEvent::PositionClosed) => (
            RebalanceState::Opening { ctx },
            RebalanceAction::OpenPosition {
                tick_lower_index: ctx.new_tick_lower_index,
                tick_upper_index: ctx.new_tick_upper_index,
            },
        ),
        (
            RebalanceState::Opening { ctx },
            RebalanceEvent::PositionOpened { position },
        ) => {
            if !position_in_range(
                ctx.tick_current_index,
                position.tick_lower_index,
                position.tick_upper_index,
            ) {
                (
                    RebalanceState::Failed { error: BloomErrorCode::PositionOutOfRange },
                    RebalanceAction::Abort { error: BloomErrorCode::PositionOutOfRange },
                )
            } else {
                (
                    RebalanceState::RatioComputing { ctx },
                    RebalanceAction::ComputeSwap {
                        tick_lower_index: position.tick_lower_index,
                        tick_upper_index: position.tick_upper_index,
                        sqrt_price: ctx.sqrt_price,
                    },
                )
            }
        },
        (
            RebalanceState::RatioComputing { ctx: _ },
            RebalanceEvent::SwapComputed { amount, a_to_b },
        ) => (
            RebalanceState::Swapping,
            RebalanceAction::Swap {
                amount,
                other_amount_threshold: 0,
                sqrt_price_limit: if a_to_b {
                    MIN_SQRT_PRICE_X64
                } else {
                    MAX_SQRT_PRICE_X64
                },
                amount_specified_is_input: true,
                a_to_b,
            },
        ),
        (
            RebalanceState::Swapping,
            RebalanceEvent::Swapped { balances, pool, sqrt_price_upper_x64 },
        ) => {
            if pool.sqrt_price >= sqrt_price_upper_x64 {
                (
                    RebalanceState::Failed { error: BloomErrorCode::PositionOutOfRange },
                    RebalanceAction::Abort { error: BloomErrorCode::PositionOutOfRange },
                )
            } else {
                match try_get_liquidity_from_token_a(
                    balances.token_a as u128,
                    pool.sqrt_price,
                    sqrt_price_upper_x64,
                ) {
                    None => (
                        RebalanceState::Failed { error: BloomErrorCode::Miscalculation },
                        RebalanceAction::Abort { error: BloomErrorCode::Miscalculation },
                    ),
                    Some(liquidity) => (
                        RebalanceState::DeltaComputing { liquidity, balances },
                        RebalanceAction::ComputeTokenDeltas {
                            liquidity,
                            tick_current_index: pool.tick_current_index,
                            sqrt_price: pool.sqrt_price,
                        },
                    ),
                }
            }
        },
        (
            RebalanceState::DeltaComputing { liquidity, balances },
            RebalanceEvent::TokenDeltasComputed { token_max_a, token_max_b },
        ) => {
            if token_max_b > balances.token_b {
                (
                    RebalanceState::Failed { error: BloomErrorCode::Miscalculation },
                    RebalanceAction::Abort { error: BloomErrorCode::Miscalculation },
                )
            } else if token_max_a > balances.token_a {
                (
                    RebalanceState::Failed { error: BloomErrorCode::Miscalculation },
                    RebalanceAction::Abort { error: BloomErrorCode::Miscalculation },
                )
            } else {
                (
                    RebalanceState::Depositing,
                    RebalanceAction::Deposit { liquidity, token_max_a, token_max_b },
                )
            }
        },
        (RebalanceState::Depositing, RebalanceEvent::Deposited { balances: _ }) => (
            RebalanceState::Done,
            RebalanceAction::UpdateVaultPosition,
        ),
        _ => (
            RebalanceState::Failed { error: BloomErrorCode::Miscalculation },
            RebalanceAction::Abort { error: BloomErrorCode::Miscalculation },
        ),
    }
}

/// In range, a rebalance performs no mutating call: it ends at once, and
/// its only action is the observability report of the position's range.
pub proof fn lemma_rebalance_in_range_is_noop(
    pool: PoolSnapshot,
    position: PositionSnapshot,
    new_tick_lower_index: i32,
    new_tick_upper_index: i32,
)
    requires
        spec_position_in_range(
            pool.tick_current_index,
            position.tick_lower_index,
            position.tick_upper_index,
        ),
    ensures
        spec_rebalance_begin(pool, position, new_tick_lower_index, new_tick_upper_index)
            == (
            RebalanceState::Done,
            (RebalanceAction::ReportInRange {
                tick_lower_index: position.tick_lower_index,
                tick_upper_index: position.tick_upper_index,
            }),
        ),
{
}

/// Out of range, a rebalance that receives well-formed events performs, in
/// strict order: withdraw the whole position liquidity, collect fees, close,
/// open the new range, size the swap at the entry price, swap with the
/// sized amount, bound the deposit by the curve at the re-queried price,
/// and deposit within the re-queried reserves — then marks the vault's new
/// position. Each action's inputs come from the latest event, never from a
/// value read before the preceding mutating call.
pub proof fn lemma_rebalance_out_of_range_trace(
    pool: PoolSnapshot,
    position: PositionSnapshot,
    new_tick_lower_index: i32,
    new_tick_upper_index: i32,
    fee_balances: VaultBalances,
    opened: PositionSnapshot,
    swap_amount: u64,
    a_to_b: bool,
    swapped_balances: VaultBalances,
    swapped_pool: PoolSnapshot,
    sqrt_price_upper_x64: u128,
    token_max_a: u64,
    token_max_b: u64,
    final_balances: VaultBalances,
)
    requires
        !spec_position_in_range(
            pool.tick_current_index,
            position.tick_lower_index,
            position.tick_upper_index,
        ),
        spec_position_in_range(
            pool.tick_current_index,
            opened.tick_lower_index,
            opened.tick_upper_index,
        ),
        swapped_pool.sqrt_price < sqrt_price_upper_x64,
        spec_liquidity_quotient(swapped_pool.sqrt_price, sqrt_price_upper_x64)
            * (swapped_balances.token_a as u128) < p192(),
        token_max_a <= swapped_balances.token_a,
        token_max_b <= swapped_balances.token_b,
    ensures
        ({
            let (s1, a1) = spec_rebalance_begin(
                pool,
                position,
                new_tick_lower_index,
                new_tick_upper_index,
            );
            let (s2, a2) = spec_rebalance_step(s1, RebalanceEvent::Withdrawn);
            let (s3, a3) = spec_rebalance_step(
                s2,
                RebalanceEvent::FeesCollected { balances: fee_balances },
            );
            let (s4, a4) = spec_rebalance_step(s3, RebalanceEvent::PositionClosed);
            let (s5, a5) = spec_rebalance_step(
                s4,
                RebalanceEvent::PositionOpened { position: opened },
            );
            let (s6, a6) = spec_rebalance_step(
                s5,
                RebalanceEvent::SwapComputed { amount: swap_amount, a_to_b },
            );
            let (s7, a7) = spec_rebalance_step(
                s6,
                RebalanceEvent::Swapped {
                    balances: swapped_balances,
                    pool: swapped_pool,
                    sqrt_price_upper_x64,
                },
            );
            let (s8, a8) = spec_rebalance_step(
                s7,
                RebalanceEvent::TokenDeltasComputed { token_max_a, token_max_b },
            );
            let (s9, a9) = spec_rebalance_step(
                s8,
                RebalanceEvent::Deposited { balances: final_balances },
            );
            let liquidity = spec_liquidity_from_token_a(
                swapped_balances.token_a as u128,
                swapped_pool.sqrt_price,
                sqrt_price_upper_x64,
            ) as u128;
            &&& a1 == (RebalanceAction::Withdraw {
                liquidity: position.liquidity,
                min_token_a: 0u64,
                min_token_b: 0u64,
            })
            &&& a2 == RebalanceAction::CollectFees
            &&& a3 == RebalanceAction::ClosePosition
            &&& a4 == (RebalanceAction::OpenPosition {
                tick_lower_index: new_tick_lower_index,
                tick_upper_index: new_tick_upper_index,
            })
            &&& a5 == (RebalanceAction::ComputeSwap {
                tick_lower_index: opened.tick_lower_index,
                tick_upper_index: opened.tick_upper_index,
                sqrt_price: pool.sqrt_price,
            })
            &&& a6 == (RebalanceAction::Swap {
                amount: swap_amount,
                other_amount_threshold: 0u64,
                sqrt_price_limit: if a_to_b {
                    MIN_SQRT_PRICE_X64
                } else {
                    MAX_SQRT_PRICE_X64
                },
                amount_specified_is_input: true,
                a_to_b,
            })
            &&& a7 == (RebalanceAction::ComputeTokenDeltas {
                liquidity,
                tick_current_index: swapped_pool.tick_current_index,
                sqrt_price: swapped_pool.sqrt_price,
            })
            &&& a8 == (RebalanceAction::Deposit { liquidity, token_max_a, token_max_b })
            &&& a9 == RebalanceAction::UpdateVaultPosition
            &&& s9 == RebalanceState::Done
        }),
{
}

} // verus!
