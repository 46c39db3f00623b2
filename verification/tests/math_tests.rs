use bloom::math::{
    calculate_pool_token_mint_to_amount, calculate_remove_liquidity_amount,
    get_liquidity_from_token_a, token_a_from_liquidity, try_get_liquidity_from_token_a,
};

#[test]
fn calculate_pool_tokens_first_deposit() {
    let mint_to_amount = calculate_pool_token_mint_to_amount(192600016187, 192600016187, 0);
    assert_eq!(192600016187, mint_to_amount);
}

#[test]
fn calculate_pool_tokens_two_equal_deposits() {
    let mint_to_amount =
        calculate_pool_token_mint_to_amount(192600016187, 192600016187, 192600016187);
    assert_eq!(192600016187, mint_to_amount);
}

#[test]
fn calculate_pool_tokens_two_deposits_second_half_of_first() {
    let mint_to_amount =
        calculate_pool_token_mint_to_amount(98290094549, 196580189098, 196580189098);
    assert_eq!(98290094549, mint_to_amount);
}

#[test]
fn calculate_pool_tokens_three_deposits_first_and_third_equal_second_half_of_first() {
    let mint_to_amount =
        calculate_pool_token_mint_to_amount(196580189098, 294870283647, 294870283647);
    assert_eq!(196580189098, mint_to_amount);
}

#[test]
fn calculate_liquidity_removed() {
    let liquidity_removed = calculate_remove_liquidity_amount(10, 100, 1000);
    assert_eq!(100, liquidity_removed);
}

#[test]
fn mint_rounds_down_in_favor_of_the_vault() {
    // 100 * 1 / 3 = 33.33..: the minted amount is floored
    let mint_to_amount = calculate_pool_token_mint_to_amount(1, 3, 100);
    assert_eq!(33, mint_to_amount);
}

#[test]
fn mint_proportional_deposit_scales_supply() {
    // depositing three times the position liquidity mints three times the supply
    let mint_to_amount = calculate_pool_token_mint_to_amount(300, 100, 1000);
    assert_eq!(3000, mint_to_amount);
}

#[test]
fn burn_full_supply_recovers_whole_position() {
    let liquidity_removed = calculate_remove_liquidity_amount(100, 100, 987654321);
    assert_eq!(987654321, liquidity_removed);
}

#[test]
fn burn_rounds_down_in_favor_of_the_vault() {
    // 1000 * 1 / 3 = 333.33..: the withdrawal is floored
    let liquidity_removed = calculate_remove_liquidity_amount(1, 3, 1000);
    assert_eq!(333, liquidity_removed);
}

#[test]
fn liquidity_from_token_a_over_one_octave() {
    // sqrt prices 1.0 and 2.0 in x64 fixed point: the curve factor is 2^65,
    // so each token-A unit is worth exactly two liquidity units
    let liquidity = get_liquidity_from_token_a(1000, 1u128 << 64, 1u128 << 65);
    assert_eq!(liquidity, 2000);
}

#[test]
fn liquidity_from_token_a_overflow_is_reported() {
    // a one-unit-wide range makes the curve factor about 2^128; an amount of
    // 2^64 pushes the 256-bit intermediate past what the liquidity unit holds
    let r = try_get_liquidity_from_token_a(1u128 << 64, 1u128 << 64, (1u128 << 64) + 1);
    assert!(r.is_none());
}

#[test]
fn liquidity_round_trips_within_one_unit() {
    let amount: u128 = 1_000_000;
    let lower: u128 = 1u128 << 64;
    let upper: u128 = (1u128 << 64) + (1u128 << 44);
    let liquidity = get_liquidity_from_token_a(amount, lower, upper);
    assert_eq!(liquidity, 1_048_577_000_000);
    let back = token_a_from_liquidity(liquidity, lower, upper);
    assert!(back == amount || back == amount - 1);
    assert_eq!(back, 1_000_000);
}
