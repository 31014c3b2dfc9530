use taste_fun::config::BPS_DENOMINATOR;
use taste_fun::errors::ConsensusError;
use taste_fun::math::{calculate_buy_tokens, calculate_sell_sol, integer_sqrt};

#[test]
fn isqrt_zero() {
    assert_eq!(integer_sqrt(0), 0);
}

#[test]
fn isqrt_one() {
    assert_eq!(integer_sqrt(1), 1);
}

#[test]
fn isqrt_small_values() {
    assert_eq!(integer_sqrt(2), 1);
    assert_eq!(integer_sqrt(3), 1);
    assert_eq!(integer_sqrt(4), 2);
    assert_eq!(integer_sqrt(15), 3);
    assert_eq!(integer_sqrt(16), 4);
    assert_eq!(integer_sqrt(17), 4);
    assert_eq!(integer_sqrt(99), 9);
    assert_eq!(integer_sqrt(100), 10);
}

#[test]
fn isqrt_stake_values() {
    assert_eq!(integer_sqrt(1_000_000), 1_000);
    assert_eq!(integer_sqrt(10_000_000), 3_162);
    assert_eq!(integer_sqrt(100_000_000), 10_000);
}

#[test]
fn isqrt_largest_input() {
    assert_eq!(integer_sqrt(u64::MAX), 4_294_967_295);
}

#[test]
fn isqrt_square_bounds_hold_on_samples() {
    for n in [0u64, 1, 2, 5, 24, 25, 26, 1_000_000, 123_456_789, u64::MAX] {
        let r = integer_sqrt(n);
        assert!(r.checked_mul(r).map(|sq| sq <= n).unwrap_or(false) || n == 0);
        if r < u64::MAX {
            let next = r + 1;
            assert!(next.checked_mul(next).map(|sq| sq > n).unwrap_or(true));
        }
    }
}

#[test]
fn buy_tokens_zero_reserve_first_buy() {
    // The idealized first buy: with no base reserves the whole token
    // reserve is handed out, and nothing divides by zero.
    let tokens = calculate_buy_tokens(1_000_000, 800_000_000_000_000, 0, 100);
    assert_eq!(tokens, Ok(800_000_000_000_000));
}

#[test]
fn buy_tokens_exact_value_with_reserves() {
    // net = 1_000_000 * 9900 / 10000 = 990_000
    // tokens = 2_000_000 * 990_000 / (1_000_000 + 990_000) = 994_974
    let tokens = calculate_buy_tokens(1_000_000, 2_000_000, 1_000_000, 100);
    assert_eq!(tokens, Ok(994_974));
}

#[test]
fn buy_tokens_zero_amount_rejected() {
    assert_eq!(
        calculate_buy_tokens(0, 1_000_000, 1_000_000, 100),
        Err(ConsensusError::InvalidAmount)
    );
}

#[test]
fn buy_tokens_zero_token_reserves_rejected() {
    assert_eq!(
        calculate_buy_tokens(1_000_000, 0, 1_000_000, 100),
        Err(ConsensusError::InvalidAmount)
    );
}

#[test]
fn buy_tokens_division_by_zero_when_fee_consumes_everything() {
    // A 100% fee leaves no net input, and with empty reserves the curve's
    // divisor would be zero.
    assert_eq!(
        calculate_buy_tokens(1_000_000, 1_000_000, 0, BPS_DENOMINATOR),
        Err(ConsensusError::DivisionByZero)
    );
}

#[test]
fn sell_sol_exact_value() {
    // gross = 1_000_000 * 500_000 / (2_000_000 + 500_000) = 200_000
    // net = 200_000 * 9900 / 10000 = 198_000
    let sol = calculate_sell_sol(500_000, 2_000_000, 1_000_000, 100);
    assert_eq!(sol, Ok(198_000));
}

#[test]
fn sell_sol_zero_amount_rejected() {
    assert_eq!(
        calculate_sell_sol(0, 2_000_000, 1_000_000, 100),
        Err(ConsensusError::InvalidAmount)
    );
}

#[test]
fn sell_sol_zero_sol_reserves_rejected() {
    assert_eq!(
        calculate_sell_sol(500_000, 2_000_000, 0, 100),
        Err(ConsensusError::InvalidAmount)
    );
}

#[test]
fn sell_never_exceeds_reserves() {
    let sol = calculate_sell_sol(u64::MAX, 1, 7_777, 0).unwrap();
    assert!(sol <= 7_777);
}

#[test]
fn round_trip_is_lossy_on_formulas() {
    // Buy, then sell the bought amount back against the updated reserves:
    // the seller gets back no more than was paid in.
    let sol_in: u64 = 1_000_000;
    let tr: u64 = 2_000_000;
    let sr: u64 = 1_000_000;
    let fee: u16 = 100;
    let bought = calculate_buy_tokens(sol_in, tr, sr, fee).unwrap();
    let net_base =
        (sol_in as u128 * (BPS_DENOMINATOR - fee) as u128 / BPS_DENOMINATOR as u128) as u64;
    let new_sr = sr + net_base;
    let new_tr = tr - bought;
    let sol_back = calculate_sell_sol(bought, new_tr, new_sr, fee).unwrap();
    assert!(sol_back <= sol_in);
}
