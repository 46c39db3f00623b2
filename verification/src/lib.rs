//! Core math and orchestration engine for an automated liquidity-provisioning
//! vault: depositors contribute two assets into a single concentrated-liquidity
//! position held in an external AMM pool, receive a fungible share token
//! proportional to their contribution, and a permissionless trigger rebalances
//! the position when the market price exits its configured range.
//!
//! The verified core covers the wide fixed-point liquidity formulas, the
//! proportional share mint/burn accounting, and the rebalance state machine
//! that sequences withdraw, close, reopen, swap and deposit. Account wiring,
//! wire-level dispatch and the pool's own curve implementation are external
//! collaborators and stay outside.

use vstd::prelude::*;

pub mod errors;
pub mod math;
pub mod rebalance;
pub mod vault;
pub mod wide;

verus! {

/// A tick range is in range for a current tick exactly on the half-open
/// interval: lower <= current < upper.
pub open spec fn spec_position_in_range(
    tick_index_current: i32,
    tick_index_lower: i32,
    tick_index_upper: i32,
) -> bool {
    tick_index_lower <= tick_index_current < tick_index_upper
}

/// Whether a position whose range is [lower, upper) brackets the current tick.
pub fn position_in_range(
    tick_index_current: i32,
    tick_index_lower: i32,
    tick_index_upper: i32,
) -> (r: bool)
    ensures
        r == spec_position_in_range(tick_index_current, tick_index_lower, tick_index_upper),
{
    if tick_index_current < tick_index_lower || tick_index_upper <= tick_index_current {
        return false;
    }
    true
}

} // verus!
