//! Arithmetic kernel: integer square root and the constant-product
//! bonding-curve buy/sell formulas, all in checked integer arithmetic.

use vstd::prelude::*;
use vstd::arithmetic::div_mod::{
    lemma_div_is_ordered, lemma_div_multiples_vanish, lemma_fundamental_div_mod, lemma_mod_bound,
};

use crate::config::BPS_DENOMINATOR;
use crate::errors::ConsensusError;

verus! {

/// Mathematical integer square root: the largest `r` with `r * r <= n`.
pub open spec fn isqrt(n: nat) -> nat
    decreases n,
{
    if n == 0 {
        0
    } else {
        let r = isqrt((n - 1) as nat);
        if (r + 1) * (r + 1) <= n {
            r + 1
        } else {
            r
        }
    }
}

/// `isqrt(n)` is the unique integer whose square is at most `n` while the
/// next square exceeds `n`.
pub proof fn lemma_isqrt_bounds(n: nat)
    ensures
        isqrt(n) * isqrt(n) <= n,
        n < (isqrt(n) + 1) * (isqrt(n) + 1),
    decreases n,
{
    if n == 0 {
        assert(isqrt(0) == 0);
        assert(n < (isqrt(n) + 1) * (isqrt(n) + 1)) by (nonlinear_arith)
            requires
                n == 0,
                isqrt(n) == 0,
        ;
    } else {
        lemma_isqrt_bounds((n - 1) as nat);
        let r = isqrt((n - 1) as nat);
        assert(r * r <= n - 1);
        assert(n - 1 < (r + 1) * (r + 1));
        if (r + 1) * (r + 1) <= n {
            assert(isqrt(n) == r + 1);
            assert(n < (r + 2) * (r + 2)) by (nonlinear_arith)
                requires
                    n <= (r + 1) * (r + 1),
                    r >= 0,
            ;
            assert(n < (isqrt(n) + 1) * (isqrt(n) + 1));
        } else {
            assert(isqrt(n) == r);
            assert(isqrt(n) * isqrt(n) <= n);
            assert(n < (isqrt(n) + 1) * (isqrt(n) + 1));
        }
    }
}

/// The two smallest inputs are their own square roots.
pub proof fn lemma_isqrt_base()
    ensures
        isqrt(0) == 0,
        isqrt(1) == 1,
{
    assert(isqrt(0) == 0);
    assert(isqrt(1) == 1);
}

/// For positive `x`, the quotient `n / x` times `x` brackets `n`.
proof fn lemma_div_mul_bounds(n: int, x: int)
    requires
        n >= 0,
        x >= 1,
    ensures
        (n / x) * x <= n,
        n < (n / x) * x + x,
        n / x >= 0,
{
    lemma_fundamental_div_mod(n, x);
    assert(0 <= n % x < x) by {
        lemma_mod_bound(n, x);
    }
    assert(n / x >= 0) by (nonlinear_arith)
        requires
            n >= 0,
            x >= 1,
            n == x * (n / x) + n % x,
            0 <= n % x < x,
    ;
    assert((n / x) * x <= n && n < (n / x) * x + x) by (nonlinear_arith)
        requires
            n == x * (n / x) + n % x,
            0 <= n % x < x,
    ;
}

/// One Newton step never drops below the integer square root: for any
/// `x >= 1`, the average of `x` and `n / x` is at least `isqrt(n)`.
proof fn lemma_newton_step_lower(n: int, x: int)
    requires
        n >= 0,
        x >= 1,
    ensures
        (x + n / x) / 2 >= isqrt(n as nat),
{
    let s = isqrt(n as nat) as int;
    lemma_isqrt_bounds(n as nat);
    let q = n / x;
    lemma_div_mul_bounds(n, x);
    // q * x > n - x >= s * s - x, and (x - s)^2 >= 0 gives x + q >= 2 * s.
    assert(x + q >= 2 * s) by (nonlinear_arith)
        requires
            q * x <= n,
            n < q * x + x,
            s * s <= n,
            x >= 1,
            s >= 0,
            q >= 0,
    ;
    assert((x + q) / 2 >= s) by {
        lemma_div_mul_bounds(x + q, 2);
    }
}

/// The sum `x + n / x` never exceeds `n + 1` for `1 <= x <= n`, and stays
/// at most `n` once `2 <= x <= n - 1`.
proof fn lemma_newton_step_upper(n: int, x: int)
    requires
        1 <= x <= n,
    ensures
        x + n / x <= n + 1,
        2 <= x <= n - 1 ==> x + n / x <= n,
{
    let q = n / x;
    lemma_div_mul_bounds(n, x);
    assert(q >= 1) by (nonlinear_arith)
        requires
            n < q * x + x,
            1 <= x <= n,
            q >= 0,
    ;
    // (q - 1) * (x - 1) >= 0 rearranges to q + x <= q * x + 1 <= n + 1.
    assert(x + q <= n + 1 && (2 <= x && q >= 2 ==> x + q <= n)) by (nonlinear_arith)
        requires
            q * x <= n,
            q >= 1,
            x >= 1,
    ;
    if 2 <= x <= n - 1 && q == 1 {
        assert(x + q <= n);
    }
}

/// Integer square root by Newton's method; used as the quadratic-voting
/// weight of a stake.
pub fn integer_sqrt(n: u64) -> (r: u64)
    ensures
        r == isqrt(n as nat),
        r * r <= n,
        n < (r + 1) * (r + 1),
{
    proof {
        lemma_isqrt_bounds(n as nat);
    }
    if n <= 1 {
        proof {
            lemma_isqrt_base();
        }
        return n;
    }
    let mut x: u64 = n;
    // (n - 1) / 2 + 1 equals (n + 1) / 2 without risking overflow.
    let mut y: u64 = (n - 1) / 2 + 1;
    proof {
        assert(y == (x + n / x) / 2) by {
            lemma_div_mul_bounds(n as int, n as int);
            assert(n as int / n as int == 1) by (nonlinear_arith)
                requires
                    (n as int / n as int) * n <= n,
                    n < (n as int / n as int) * n + n,
                    n >= 2,
            ;
            assert((n - 1) as int / 2 + 1 == (n + 1) as int / 2) by {
                lemma_fundamental_div_mod((n - 1) as int, 2);
                lemma_fundamental_div_mod((n + 1) as int, 2);
                lemma_mod_bound((n - 1) as int, 2);
                lemma_mod_bound((n + 1) as int, 2);
            }
        }
        lemma_newton_step_lower(n as int, x as int);
    }
    while y < x
        invariant
            2 <= n,
            1 <= x <= n,
            isqrt(n as nat) <= x,
            y == (x + n / x) / 2,
        decreases x,
    {
        proof {
            // y >= isqrt(n), so the invariant survives x = y; and
            // 2 * y <= x + n / x <= n + 1 bounds the new x from above.
            lemma_newton_step_lower(n as int, x as int);
            lemma_newton_step_upper(n as int, x as int);
            lemma_div_mul_bounds((x + n / x) as int, 2);
            assert(2 * y <= n + 1);
        }
        x = y;
        let ghost s = isqrt(n as nat) as int;
        proof {
            lemma_isqrt_bounds(n as nat);
            lemma_div_mul_bounds(n as int, x as int);
            assert(1 <= s) by (nonlinear_arith)
                requires
                    n >= 2,
                    s >= 0,
                    n < (s + 1) * (s + 1),
            ;
            // q * x <= n with x >= s squeezes q below s + 3, and s * s <= n
            // keeps s below 2^32, so x + q stays well inside u64.
            assert(x + n as int / x as int <= 0xffff_ffff_ffff_ffff) by (nonlinear_arith)
                requires
                    (n as int / x as int) * (x as int) <= n as int,
                    n as int / x as int >= 0,
                    s <= x,
                    2 * x <= n + 1,
                    1 <= s,
                    s * s <= n,
                    n < (s + 1) * (s + 1),
                    n <= 0xffff_ffff_ffff_ffffu64,
            ;
        }
        let q: u64 = n / x;
        y = (x + q) / 2;
        proof {
            lemma_newton_step_lower(n as int, x as int);
        }
    }
    proof {
        // On exit y >= x, so x + n / x >= 2 * x, hence n / x >= x and
        // x * x <= n; together with the invariant x >= isqrt(n) this
        // pins x to the square root exactly.
        let q = n as int / x as int;
        lemma_div_mul_bounds(n as int, x as int);
        lemma_div_mul_bounds((x + q) as int, 2);
        assert(q >= x) by (nonlinear_arith)
            requires
                y >= x,
                y == (x as int + q) / 2,
                ((x as int + q) / 2) * 2 <= x as int + q,
                x as int + q < ((x as int + q) / 2) * 2 + 2,
                x >= 1,
        ;
        assert(x * x <= n) by (nonlinear_arith)
            requires
                q >= x,
                q * (x as int) <= n,
                x >= 1,
        ;
        lemma_isqrt_bounds(n as nat);
        assert(x as int <= isqrt(n as nat)) by (nonlinear_arith)
            requires
                x * x <= n,
                n < (isqrt(n as nat) + 1) * (isqrt(n as nat) + 1),
                x >= 0,
                isqrt(n as nat) >= 0,
        ;
    }
    x
}

/// `amount * bps / BPS_DENOMINATOR`: the basis-point share of an amount,
/// truncated toward zero.
pub open spec fn bps_share(amount: int, bps: int) -> int {
    amount * bps / (BPS_DENOMINATOR as int)
}

/// The amount left after charging a fee of `fee_bps` basis points.
pub open spec fn after_fee(amount: int, fee_bps: int) -> int {
    amount * (BPS_DENOMINATOR as int - fee_bps) / (BPS_DENOMINATOR as int)
}

/// Tokens the constant-product curve pays out for a post-fee base input.
pub open spec fn curve_tokens_out(net_base: int, token_reserves: int, sol_reserves: int) -> int {
    token_reserves * net_base / (sol_reserves + net_base)
}

/// Gross base currency the curve pays out for a token input, before fees.
pub open spec fn curve_sol_out(token_amount: int, token_reserves: int, sol_reserves: int) -> int {
    sol_reserves * token_amount / (token_reserves + token_amount)
}

/// Tokens received when buying with `sol` base currency at fee `fee_bps`:
/// the fee is taken off the input before it meets the curve.
pub open spec fn buy_tokens_out(sol: int, token_reserves: int, sol_reserves: int, fee_bps: int) -> int {
    curve_tokens_out(after_fee(sol, fee_bps), token_reserves, sol_reserves)
}

/// Base currency received when selling `tokens` at fee `fee_bps`: the fee
/// is taken off the curve's gross output.
pub open spec fn sell_sol_out(tokens: int, token_reserves: int, sol_reserves: int, fee_bps: int) -> int {
    after_fee(curve_sol_out(tokens, token_reserves, sol_reserves), fee_bps)
}

/// A quotient `a * b / c` with `b <= c` never exceeds `a`: the "proper
/// fraction" bound behind every fee and curve computation.
pub proof fn lemma_mul_div_le(a: int, b: int, c: int)
    requires
        a >= 0,
        0 <= b <= c,
        c >= 1,
    ensures
        0 <= a * b / c <= a,
{
    assert(0 <= a * b && a * b <= a * c) by (nonlinear_arith)
        requires
            a >= 0,
            0 <= b <= c,
    ;
    lemma_div_is_ordered(a * b, a * c, c);
    lemma_div_multiples_vanish(a, c);
    assert(a * c == c * a) by (nonlinear_arith);
    lemma_div_mul_bounds(a * b, c);
    assert(a * b / c >= 0) by (nonlinear_arith)
        requires
            (a * b / c) * c <= a * b,
            a * b < (a * b / c) * c + c,
            a * b >= 0,
            c >= 1,
    ;
}

/// The curve never pays out more tokens than it holds in reserve.
pub proof fn lemma_curve_tokens_le_reserves(net_base: int, token_reserves: int, sol_reserves: int)
    requires
        net_base >= 0,
        token_reserves >= 0,
        sol_reserves >= 0,
        sol_reserves + net_base >= 1,
    ensures
        0 <= curve_tokens_out(net_base, token_reserves, sol_reserves) <= token_reserves,
{
    lemma_mul_div_le(token_reserves, net_base, sol_reserves + net_base);
}

/// The curve never pays out more base currency than it holds in reserve.
pub proof fn lemma_curve_sol_le_reserves(token_amount: int, token_reserves: int, sol_reserves: int)
    requires
        token_amount >= 1,
        token_reserves >= 0,
        sol_reserves >= 0,
    ensures
        0 <= curve_sol_out(token_amount, token_reserves, sol_reserves) <= sol_reserves,
{
    lemma_mul_div_le(sol_reserves, token_amount, token_reserves + token_amount);
}

/// A basis-point share of a non-negative amount stays within the amount.
pub proof fn lemma_bps_share_bounds(amount: int, bps: int)
    requires
        amount >= 0,
        0 <= bps <= BPS_DENOMINATOR,
    ensures
        0 <= bps_share(amount, bps) <= amount,
        0 <= after_fee(amount, bps) <= amount,
{
    lemma_mul_div_le(amount, bps, BPS_DENOMINATOR as int);
    lemma_mul_div_le(amount, BPS_DENOMINATOR as int - bps, BPS_DENOMINATOR as int);
}

/// The fee share and the post-fee remainder reassemble the amount up to a
/// single unit of rounding: `after_fee + bps_share` is `amount` or one less.
pub proof fn lemma_fee_split_exact(amount: int, fee_bps: int)
    requires
        amount >= 0,
        0 <= fee_bps <= BPS_DENOMINATOR,
    ensures
        amount - 1 <= after_fee(amount, fee_bps) + bps_share(amount, fee_bps) <= amount,
        after_fee(amount, fee_bps) <= amount - bps_share(amount, fee_bps) <= after_fee(amount, fee_bps) + 1,
{
    let d = BPS_DENOMINATOR as int;
    let a = amount * (d - fee_bps);
    let b = amount * fee_bps;
    lemma_div_mul_bounds(a, d);
    lemma_div_mul_bounds(b, d);
    assert(a + b == amount * d) by (nonlinear_arith)
        requires
            a == amount * (d - fee_bps),
            b == amount * fee_bps,
    ;
    assert(amount - 1 <= a / d + b / d <= amount) by (nonlinear_arith)
        requires
            a + b == amount * d,
            (a / d) * d <= a,
            a < (a / d) * d + d,
            (b / d) * d <= b,
            b < (b / d) * d + d,
            d >= 1,
    ;
}

/// Buying tokens and immediately selling them back, against the reserves
/// the buy leaves behind (the base reserves grow by the post-fee input),
/// returns at most the base currency paid in: fees and rounding are
/// strictly lossy, never generative.
pub proof fn lemma_round_trip_lossy(sol_in: int, token_reserves: int, sol_reserves: int, fee_bps: int)
    requires
        sol_in >= 0,
        token_reserves >= 1,
        sol_reserves >= 0,
        0 <= fee_bps <= BPS_DENOMINATOR,
        sol_reserves + after_fee(sol_in, fee_bps) >= 1,
    ensures
        ({
            let bought = buy_tokens_out(sol_in, token_reserves, sol_reserves, fee_bps);
            let new_sol_reserves = sol_reserves + after_fee(sol_in, fee_bps);
            let new_token_reserves = token_reserves - bought;
            sell_sol_out(bought, new_token_reserves, new_sol_reserves, fee_bps) <= sol_in
        }),
{
    let saf = after_fee(sol_in, fee_bps);
    let bought = curve_tokens_out(saf, token_reserves, sol_reserves);
    let sr2 = sol_reserves + saf;
    let tr2 = token_reserves - bought;
    lemma_bps_share_bounds(sol_in, fee_bps);
    lemma_curve_tokens_le_reserves(saf, token_reserves, sol_reserves);
    lemma_div_mul_bounds(token_reserves * saf, sol_reserves + saf);
    let gross = curve_sol_out(bought, tr2, sr2);
    assert(tr2 + bought == token_reserves);
    lemma_div_mul_bounds(sr2 * bought, token_reserves);
    // bought * (sol_reserves + saf) <= token_reserves * saf, so
    // sr2 * bought <= token_reserves * saf <= token_reserves * sol_in,
    // and dividing back by token_reserves leaves gross <= sol_in.
    assert(gross <= sol_in) by (nonlinear_arith)
        requires
            gross == sr2 * bought / token_reserves,
            gross == sr2 * bought / token_reserves ==> (sr2 * bought / token_reserves) * token_reserves <= sr2 * bought,
            (token_reserves * saf / (sol_reserves + saf)) * (sol_reserves + saf) <= token_reserves * saf,
            bought == token_reserves * saf / (sol_reserves + saf),
            sr2 == sol_reserves + saf,
            0 <= saf <= sol_in,
            0 <= bought <= token_reserves,
            token_reserves >= 1,
            sol_reserves >= 0,
            sol_in >= 0,
            sol_reserves + saf >= 1,
    ;
    lemma_bps_share_bounds(gross, fee_bps);
}

/// Computes how many tokens a base-currency input buys on the constant
/// product curve, charging `fee_bps` off the input first.  Wide (128-bit)
/// intermediates make the arithmetic exact for all 64-bit operands.
pub fn calculate_buy_tokens(
    sol_amount: u64,
    token_reserves: u64,
    sol_reserves: u64,
    fee_bps: u16,
) -> (r: Result<u64, ConsensusError>)
    requires
        fee_bps <= BPS_DENOMINATOR,
    ensures
        r is Ok <==> sol_amount > 0 && token_reserves > 0
            && sol_reserves + after_fee(sol_amount as int, fee_bps as int) > 0,
        r is Ok ==> r->Ok_0 == buy_tokens_out(
            sol_amount as int, token_reserves as int, sol_reserves as int, fee_bps as int),
        r is Ok ==> r->Ok_0 <= token_reserves,
        r is Err ==> r->Err_0 == (if sol_amount == 0 || token_reserves == 0 {
            ConsensusError::InvalidAmount
        } else {
            ConsensusError::DivisionByZero
        }),
{
    if sol_amount == 0 || token_reserves == 0 {
        return Err(ConsensusError::InvalidAmount);
    }
    proof {
        assert((sol_amount as int) * ((BPS_DENOMINATOR - fee_bps) as int) <= u64::MAX as int * (BPS_DENOMINATOR as int)) by (nonlinear_arith)
            requires
                sol_amount <= u64::MAX,
                fee_bps <= BPS_DENOMINATOR,
        ;
        lemma_bps_share_bounds(sol_amount as int, fee_bps as int);
    }
    let sol_after_fee: u128 =
        (sol_amount as u128) * ((BPS_DENOMINATOR - fee_bps) as u128) / (BPS_DENOMINATOR as u128);
    let new_sol_reserves: u128 = (sol_reserves as u128) + sol_after_fee;
    if new_sol_reserves == 0 {
        return Err(ConsensusError::DivisionByZero);
    }
    proof {
        assert((token_reserves as int) * (sol_after_fee as int) <= u64::MAX as int * (u64::MAX as int)) by (nonlinear_arith)
            requires
                token_reserves <= u64::MAX,
                0 <= sol_after_fee <= u64::MAX,
        ;
        lemma_curve_tokens_le_reserves(
            sol_after_fee as int, token_reserves as int, sol_reserves as int);
    }
    let tokens_out: u128 = (token_reserves as u128) * sol_after_fee / new_sol_reserves;
    Ok(tokens_out as u64)
}

/// Computes how much base currency a token input sells for on the constant
/// product curve, charging `fee_bps` off the gross output.
pub fn calculate_sell_sol(
    token_amount: u64,
    token_reserves: u64,
    sol_reserves: u64,
    fee_bps: u16,
) -> (r: Result<u64, ConsensusError>)
    requires
        fee_bps <= BPS_DENOMINATOR,
    ensures
        r is Ok <==> token_amount > 0 && sol_reserves > 0,
        r is Ok ==> r->Ok_0 == sell_sol_out(
            token_amount as int, token_reserves as int, sol_reserves as int, fee_bps as int),
        r is Ok ==> r->Ok_0
            <= curve_sol_out(token_amount as int, token_reserves as int, sol_reserves as int)
            <= sol_reserves,
        r is Err ==> r->Err_0 == ConsensusError::InvalidAmount,
{
    if token_amount == 0 || sol_reserves == 0 {
        return Err(ConsensusError::InvalidAmount);
    }
    let new_token_reserves: u128 = (token_reserves as u128) + (token_amount as u128);
    proof {
        assert((sol_reserves as int) * (token_amount as int) <= u64::MAX as int * (u64::MAX as int)) by (nonlinear_arith)
            requires
                sol_reserves <= u64::MAX,
                token_amount <= u64::MAX,
        ;
        lemma_curve_sol_le_reserves(token_amount as int, token_reserves as int, sol_reserves as int);
    }
    let sol_out: u128 = (sol_reserves as u128) * (token_amount as u128) / new_token_reserves;
    proof {
        assert((sol_out as int) * ((BPS_DENOMINATOR - fee_bps) as int) <= u64::MAX as int * (BPS_DENOMINATOR as int)) by (nonlinear_arith)
            requires
                0 <= sol_out <= u64::MAX,
                fee_bps <= BPS_DENOMINATOR,
        ;
        lemma_bps_share_bounds(sol_out as int, fee_bps as int);
    }
    let sol_out_net: u128 =
        sol_out * ((BPS_DENOMINATOR - fee_bps) as u128) / (BPS_DENOMINATOR as u128);
    Ok(sol_out_net as u64)
}

} // verus!
