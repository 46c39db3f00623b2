//! Liquidity math engine and proportional share accounting.
//!
//! Converts between token amounts and the pool's internal liquidity unit over
//! a square-root price range, and links share-token supply to position
//! liquidity on deposit and withdrawal. Every formula is computed in
//! 256-bit-wide intermediates and narrowed only at the end; rounding is
//! always a floor, so it always favors the vault.

use crate::wide::{p128, p192, p64, wide_div_rem, wide_mul, wide_val, WORD};
use vstd::arithmetic::div_mod::{
    lemma_div_by_multiple, lemma_div_denominator, lemma_div_is_ordered,
    lemma_div_pos_is_pos, lemma_fundamental_div_mod, lemma_fundamental_div_mod_converse,
    lemma_mod_bound, lemma_multiply_divide_lt,
};
use vstd::prelude::*;

verus! {

/// The curve factor floor(lower * upper / (upper - lower)) over x64
/// fixed-point square-root prices.
pub open spec fn spec_liquidity_quotient(
    sqrt_price_lower_x64: u128,
    sqrt_price_upper_x64: u128,
) -> int
    recommends
        sqrt_price_lower_x64 < sqrt_price_upper_x64,
{
    (sqrt_price_lower_x64 * sqrt_price_upper_x64) / (sqrt_price_upper_x64
        - sqrt_price_lower_x64)
}

/// The liquidity obtainable from a token-A amount over a square-root price
/// range: floor(curve factor * amount / 2^64).
pub open spec fn spec_liquidity_from_token_a(
    amount: u128,
    sqrt_price_lower_x64: u128,
    sqrt_price_upper_x64: u128,
) -> int
    recommends
        sqrt_price_lower_x64 < sqrt_price_upper_x64,
{
    spec_liquidity_quotient(sqrt_price_lower_x64, sqrt_price_upper_x64) * amount / p64()
}

/// The liquidity obtainable from a token-A amount over a range, or `None`
/// exactly when the 256-bit intermediate would no longer fit the pool's
/// 128-bit liquidity unit after the final narrowing.
pub fn try_get_liquidity_from_token_a(
    amount: u128,
    sqrt_price_lower_x64: u128,
    sqrt_price_upper_x64: u128,
) -> (r: Option<u128>)
    requires
        sqrt_price_lower_x64 < sqrt_price_upper_x64,
    ensures
        match r {
            Some(v) => spec_liquidity_quotient(sqrt_price_lower_x64, sqrt_price_upper_x64)
                * amount < p192() && v == spec_liquidity_from_token_a(
                amount,
                sqrt_price_lower_x64,
                sqrt_price_upper_x64,
            ),
            None => spec_liquidity_quotient(sqrt_price_lower_x64, sqrt_price_upper_x64)
                * amount >= p192(),
        },
{
    let (n_hi, n_lo) = wide_mul(sqrt_price_lower_x64, sqrt_price_upper_x64);
    let diff = sqrt_price_upper_x64 - sqrt_price_lower_x64;
    let (q_hi, q_lo, _r) = wide_div_rem(n_hi, n_lo, diff);
    let ghost quotient: int = spec_liquidity_quotient(
        sqrt_price_lower_x64,
        sqrt_price_upper_x64,
    );
    let ghost total: int = quotient * amount;
    let (m_hi, m_lo) = wide_mul(q_lo, amount);
    proof {
        assert(total == (q_hi * amount + m_hi) * p128() + m_lo) by (nonlinear_arith)
            requires
                total == quotient * amount,
                quotient == q_hi * p128() + q_lo,
                q_lo * amount == m_hi * p128() + m_lo,
        ;
    }
    let top = match q_hi.checked_mul(amount) {
        Some(p) => match p.checked_add(m_hi) {
            Some(t) => t,
            None => {
                proof {
                    assert(total >= p192()) by (nonlinear_arith)
                        requires
                            total == (q_hi * amount + m_hi) * p128() + m_lo,
                            q_hi * amount + m_hi > u128::MAX,
                            m_lo >= 0,
                    ;
                }
                return None;
            },
        },
        None => {
            proof {
                assert(total >= p192()) by (nonlinear_arith)
                    requires
                        total == (q_hi * amount + m_hi) * p128() + m_lo,
                        q_hi * amount > u128::MAX,
                        m_hi >= 0,
                        m_lo >= 0,
                ;
            }
            return None;
        },
    };
    if top >= WORD {
        proof {
            assert(total >= p192()) by (nonlinear_arith)
                requires
                    total == (top as int) * p128() + m_lo,
                    top >= 0x1_0000_0000_0000_0000,
                    m_lo >= 0,
            ;
        }
        return None;
    }
    let liquidity = top * WORD + m_lo / WORD;
    proof {
        lemma_multiply_divide_lt(m_lo as int, WORD as int, WORD as int);
        lemma_fundamental_div_mod(m_lo as int, WORD as int);
        lemma_fundamental_div_mod_converse(
            total,
            p64(),
            liquidity as int,
            (m_lo % WORD) as int,
        );
    }
    Some(liquidity)
}

/// The liquidity obtainable from a token-A amount over a square-root price
/// range, for inputs whose 256-bit intermediate narrows back into the
/// 128-bit liquidity unit.
pub fn get_liquidity_from_token_a(
    amount: u128,
    sqrt_price_lower_x64: u128,
    sqrt_price_upper_x64: u128,
) -> (r: u128)
    requires
        sqrt_price_lower_x64 < sqrt_price_upper_x64,
        spec_liquidity_quotient(sqrt_price_lower_x64, sqrt_price_upper_x64) * amount
            < p192(),
    ensures
        r == spec_liquidity_from_token_a(amount, sqrt_price_lower_x64, sqrt_price_upper_x64),
{
    match try_get_liquidity_from_token_a(amount, sqrt_price_lower_x64, sqrt_price_upper_x64) {
        Some(liquidity) => liquidity,
        None => {
            proof {
                assert(false);
            }
            0
        },
    }
}

/// The token-A amount a liquidity value stands for over a square-root price
/// range: floor(liquidity * 2^64 * (upper - lower) / (lower * upper)).
pub open spec fn spec_token_a_from_liquidity(
    liquidity: int,
    sqrt_price_lower_x64: u128,
    sqrt_price_upper_x64: u128,
) -> int
    recommends
        0 < sqrt_price_lower_x64 < sqrt_price_upper_x64,
{
    liquidity * p64() * (sqrt_price_upper_x64 - sqrt_price_lower_x64)
        / (sqrt_price_lower_x64 * sqrt_price_upper_x64)
}

/// The token-A amount a liquidity value converts back to over a range: the
/// inverse derivation of `get_liquidity_from_token_a`, used to check a
/// computed liquidity against what the vault actually holds.
pub fn token_a_from_liquidity(
    liquidity: u128,
    sqrt_price_lower_x64: u128,
    sqrt_price_upper_x64: u128,
) -> (r: u128)
    requires
        0 < sqrt_price_lower_x64 < sqrt_price_upper_x64,
        liquidity * (sqrt_price_upper_x64 - sqrt_price_lower_x64) < p128(),
        spec_token_a_from_liquidity(
            liquidity as int,
            sqrt_price_lower_x64,
            sqrt_price_upper_x64,
        ) < p128(),
    ensures
        r == spec_token_a_from_liquidity(
            liquidity as int,
            sqrt_price_lower_x64,
            sqrt_price_upper_x64,
        ),
{
    let diff = sqrt_price_upper_x64 - sqrt_price_lower_x64;
    let (x_hi, x_lo) = wide_mul(liquidity, diff);
    proof {
        assert(x_hi == 0);
    }
    // shift the product left by one 64-bit word: multiply by 2^64
    let s_hi = x_lo / WORD;
    let s_lo = (x_lo % WORD) * WORD;
    proof {
        lemma_fundamental_div_mod(x_lo as int, WORD as int);
        lemma_multiply_divide_lt(x_lo as int, WORD as int, WORD as int);
        assert(wide_val(s_hi, s_lo) == x_lo * p64());
    }
    let (y_hi, y_lo, _r1) = wide_div_rem(s_hi, s_lo, sqrt_price_upper_x64);
    let (z_hi, z_lo, _r2) = wide_div_rem(y_hi, y_lo, sqrt_price_lower_x64);
    proof {
        lemma_div_denominator(
            x_lo * p64(),
            sqrt_price_upper_x64 as int,
            sqrt_price_lower_x64 as int,
        );
        assert(liquidity * diff * p64() == liquidity as int * p64() * diff)
            by (nonlinear_arith);
        assert(sqrt_price_upper_x64 * sqrt_price_lower_x64 == sqrt_price_lower_x64
            * sqrt_price_upper_x64) by (nonlinear_arith);
        assert(z_hi == 0);
    }
    z_lo
}

/// Converting a token-A amount to liquidity and back loses at most one unit:
/// over a range whose width is small against its bounds (the deposit plus
/// one whole price unit, scaled by the range width, stays within
/// lower * upper), the derived amount is the original or one less.
pub proof fn lemma_liquidity_round_trip(
    amount: u128,
    sqrt_price_lower_x64: u128,
    sqrt_price_upper_x64: u128,
)
    requires
        0 < sqrt_price_lower_x64 < sqrt_price_upper_x64,
        0 < amount,
        (amount + p64()) * (sqrt_price_upper_x64 - sqrt_price_lower_x64)
            <= sqrt_price_lower_x64 * sqrt_price_upper_x64,
    ensures
        amount - 1 <= spec_token_a_from_liquidity(
            spec_liquidity_from_token_a(amount, sqrt_price_lower_x64, sqrt_price_upper_x64),
            sqrt_price_lower_x64,
            sqrt_price_upper_x64,
        ) <= amount,
{
    let lo = sqrt_price_lower_x64 as int;
    let up = sqrt_price_upper_x64 as int;
    let a = amount as int;
    let width = up - lo;
    let bounds = lo * up;
    assert(bounds > 0) by (nonlinear_arith)
        requires
            bounds == lo * up,
            lo > 0,
            up > 0,
    ;
    let q = bounds / width;
    lemma_fundamental_div_mod(bounds, width);
    lemma_mod_bound(bounds, width);
    let s0 = bounds % width;
    lemma_div_pos_is_pos(bounds, width);
    let t = q * a;
    assert(t >= 0) by (nonlinear_arith)
        requires
            t == q * a,
            q >= 0,
            a > 0,
    ;
    lemma_fundamental_div_mod(t, p64());
    lemma_mod_bound(t, p64());
    let liq = t / p64();
    let s1 = t % p64();
    let x = liq * p64() * width;
    assert(x <= a * bounds) by (nonlinear_arith)
        requires
            x == liq * p64() * width,
            t == liq * p64() + s1,
            t == q * a,
            bounds == width * q + s0,
            s1 >= 0,
            s0 >= 0,
            width > 0,
            a > 0,
            q >= 0,
    ;
    lemma_div_is_ordered(x, a * bounds, bounds);
    lemma_div_by_multiple(a, bounds);
    assert(x >= (a - 1) * bounds) by (nonlinear_arith)
        requires
            x == liq * p64() * width,
            t == liq * p64() + s1,
            t == q * a,
            bounds == width * q + s0,
            0 <= s0 < width,
            0 <= s1 < p64(),
            (a + p64()) * width <= bounds,
            a > 0,
            width > 0,
    ;
    lemma_div_is_ordered((a - 1) * bounds, x, bounds);
    lemma_div_by_multiple(a - 1, bounds);
    assert(spec_token_a_from_liquidity(liq, sqrt_price_lower_x64, sqrt_price_upper_x64)
        == x / bounds);
}

/// The share amount to mint for a liquidity deposit: the first deposit
/// defines the unit, later deposits mint floor(supply * deposit / position).
pub open spec fn spec_mint_amount(
    liquidity_to_deposit: int,
    position_liquidity_before_deposit: int,
    pool_token_supply: int,
) -> int {
    if pool_token_supply == 0 {
        liquidity_to_deposit
    } else {
        pool_token_supply * liquidity_to_deposit / position_liquidity_before_deposit
    }
}

/// The share-token amount minted for a liquidity deposit, floored so that
/// supply never outruns the position.
pub fn calculate_pool_token_mint_to_amount(
    liquidity_to_deposit: u128,
    position_liquidity_before_deposit: u128,
    pool_token_supply: u64,
) -> (r: u64)
    requires
        pool_token_supply == 0 ==> liquidity_to_deposit <= u64::MAX,
        pool_token_supply > 0 ==> position_liquidity_before_deposit > 0,
        pool_token_supply > 0 ==> spec_mint_amount(
            liquidity_to_deposit as int,
            position_liquidity_before_deposit as int,
            pool_token_supply as int,
        ) <= u64::MAX,
    ensures
        r == spec_mint_amount(
            liquidity_to_deposit as int,
            position_liquidity_before_deposit as int,
            pool_token_supply as int,
        ),
{
    if pool_token_supply == 0 {
        return liquidity_to_deposit as u64;
    }
    let (n_hi, n_lo) = wide_mul(pool_token_supply as u128, liquidity_to_deposit);
    let (q_hi, q_lo, _rem) = wide_div_rem(n_hi, n_lo, position_liquidity_before_deposit);
    proof {
        assert(q_hi == 0);
    }
    q_lo as u64
}

/// The liquidity a share redemption withdraws:
/// floor(position * shares / supply).
pub open spec fn spec_remove_liquidity_amount(
    user_pool_tokens_amount: int,
    pool_token_supply: int,
    position_liquidity: int,
) -> int {
    position_liquidity * user_pool_tokens_amount / pool_token_supply
}

/// The position liquidity to withdraw when a holder redeems shares; floored,
/// and never more than the whole position.
pub fn calculate_remove_liquidity_amount(
    user_pool_tokens_amount: u64,
    pool_token_supply: u64,
    position_liquidity: u128,
) -> (r: u128)
    requires
        pool_token_supply > 0,
        user_pool_tokens_amount <= pool_token_supply,
    ensures
        r == spec_remove_liquidity_amount(
            user_pool_tokens_amount as int,
            pool_token_supply as int,
            position_liquidity as int,
        ),
        r <= position_liquidity,
{
    let (n_hi, n_lo) = wide_mul(position_liquidity, user_pool_tokens_amount as u128);
    let (q_hi, q_lo, _rem) = wide_div_rem(n_hi, n_lo, pool_token_supply as u128);
    proof {
        lemma_remove_liquidity_bounded(
            user_pool_tokens_amount as int,
            pool_token_supply as int,
            position_liquidity as int,
        );
        assert(q_hi == 0);
    }
    q_lo
}

/// Redeeming shares never withdraws more than the proportional slice:
/// with shares at most the supply, the result is at most the whole position.
/// Rounding is a floor, so it favors the vault, never the redeemer.
pub proof fn lemma_remove_liquidity_bounded(
    user_pool_tokens_amount: int,
    pool_token_supply: int,
    position_liquidity: int,
)
    requires
        0 <= user_pool_tokens_amount <= pool_token_supply,
        0 < pool_token_supply,
        0 <= position_liquidity,
    ensures
        spec_remove_liquidity_amount(
            user_pool_tokens_amount,
            pool_token_supply,
            position_liquidity,
        ) <= position_liquidity,
{
    assert(position_liquidity * user_pool_tokens_amount <= position_liquidity
        * pool_token_supply) by (nonlinear_arith)
        requires
            0 <= position_liquidity,
            user_pool_tokens_amount <= pool_token_supply,
    ;
    lemma_div_is_ordered(
        position_liquidity * user_pool_tokens_amount,
        position_liquidity * pool_token_supply,
        pool_token_supply,
    );
    lemma_div_by_multiple(position_liquidity, pool_token_supply);
}

/// The first deposit defines the unit: minting against an empty supply
/// returns exactly the deposited liquidity.
pub proof fn lemma_mint_first_deposit(liquidity_to_deposit: int, position_liquidity: int)
    ensures
        spec_mint_amount(liquidity_to_deposit, position_liquidity, 0)
            == liquidity_to_deposit,
{
}

/// A deposit of k times the existing position liquidity mints exactly k
/// times the existing share supply: proportional deposits dilute nobody.
pub proof fn lemma_mint_proportional_deposit(
    k: int,
    position_liquidity: int,
    pool_token_supply: int,
)
    requires
        0 <= k,
        0 < position_liquidity,
        0 < pool_token_supply,
    ensures
        spec_mint_amount(k * position_liquidity, position_liquidity, pool_token_supply)
            == k * pool_token_supply,
{
    assert(pool_token_supply * (k * position_liquidity) == (pool_token_supply * k)
        * position_liquidity) by (nonlinear_arith);
    lemma_div_by_multiple(pool_token_supply * k, position_liquidity);
    assert(pool_token_supply * k == k * pool_token_supply) by (nonlinear_arith);
}

/// Burning the entire outstanding supply withdraws exactly the whole
/// position liquidity: full redemption recovers the full position.
pub proof fn lemma_burn_full_redemption(pool_token_supply: int, position_liquidity: int)
    requires
        0 < pool_token_supply,
        0 <= position_liquidity,
    ensures
        spec_remove_liquidity_amount(
            pool_token_supply,
            pool_token_supply,
            position_liquidity,
        ) == position_liquidity,
{
    lemma_div_by_multiple(position_liquidity, pool_token_supply);
}

} // verus!
