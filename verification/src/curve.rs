//! The two pricing engines: how many shares a deposit earns, and how much a
//! swap pays out on the constant-product curve.
//!
//! All amounts are `u64`. The spec functions give each result over the
//! integers; the executable functions compute the same values with
//! overflow-detecting arithmetic and report every step that leaves the
//! 64-bit range.

use crate::error::PoolError;
use vstd::arithmetic::div_mod::{lemma_div_by_multiple, lemma_div_is_ordered, lemma_fundamental_div_mod};
use vstd::prelude::*;

verus! {

/// Shares minted by the first deposit into a pool, whatever its amounts.
pub const BOOTSTRAP_SHARES: u64 = 1_000_000_000;

/// One hundred percent, in basis points.
pub const BPS_DENOMINATOR: u64 = 10_000;

/// The fee withheld from `amount_in`: `floor(amount_in * fee_bps / 10000)`.
pub open spec fn fee_amount(amount_in: int, fee_bps: int) -> int {
    amount_in * fee_bps / 10_000
}

/// What the curve pays for `net_in` arriving at `reserve_in`:
/// `floor(reserve_out * net_in / (reserve_in + net_in))`.
pub open spec fn curve_output(reserve_in: int, reserve_out: int, net_in: int) -> int {
    reserve_out * net_in / (reserve_in + net_in)
}

/// The outcome of pricing a swap of `amount_in` against the two reserves.
///
/// The fee product `amount_in * fee_bps` must fit 64 bits. The fee may not
/// exceed the amount, the product `reserve_out * net` and the sum
/// `reserve_in + net` must fit 64 bits, and the sum may not be zero.
pub open spec fn swap_quote(reserve_in: u64, reserve_out: u64, amount_in: u64, fee_bps: u16) -> Result<
    u64,
    PoolError,
> {
    let net = amount_in - fee_amount(amount_in as int, fee_bps as int);
    if amount_in * fee_bps > u64::MAX {
        Err(PoolError::ArithmeticOverflow)
    } else if net < 0 || reserve_out * net > u64::MAX || reserve_in + net > u64::MAX || reserve_in
        + net == 0 {
        Err(PoolError::CalculationError)
    } else {
        Ok(curve_output(reserve_in as int, reserve_out as int, net) as u64)
    }
}

/// The outcome of pricing a deposit of `amount_a` into a pool with `supply`
/// shares outstanding and `reserve_a` of the first asset.
///
/// The first deposit mints [`BOOTSTRAP_SHARES`]. Later deposits mint
/// `floor(supply * amount_a / reserve_a)`: the second asset plays no part in
/// the ratio.
pub open spec fn deposit_quote(supply: u64, reserve_a: u64, amount_a: u64) -> Result<u64, PoolError> {
    if supply == 0 {
        Ok(BOOTSTRAP_SHARES)
    } else if supply * amount_a > u64::MAX {
        Err(PoolError::ArithmeticOverflow)
    } else if reserve_a == 0 {
        Err(PoolError::CalculationError)
    } else {
        Ok((supply * amount_a / (reserve_a as int)) as u64)
    }
}

/// The quotient `floor(p * n / (r + n))` lies between zero and `p`, and the
/// divisor times the quotient does not exceed the dividend.
proof fn lemma_curve_output_bounds(r: int, p: int, n: int)
    requires
        0 <= r,
        0 <= p,
        0 <= n,
        0 < r + n,
    ensures
        0 <= curve_output(r, p, n) <= p,
        curve_output(r, p, n) * (r + n) <= p * n,
{
    let d = r + n;
    let q = p * n / d;
    assert(0 <= p * n <= p * d) by (nonlinear_arith)
        requires
            0 <= p,
            0 <= n <= d,
    ;
    lemma_fundamental_div_mod(p * n, d);
    assert(q * d <= p * n) by (nonlinear_arith)
        requires
            p * n == d * q + (p * n) % d,
            0 <= (p * n) % d,
    ;
    lemma_div_is_ordered(0, p * n, d);
    lemma_div_is_ordered(p * n, p * d, d);
    lemma_div_by_multiple(p, d);
}

/// The curve pays no less when more arrives.
proof fn lemma_curve_output_monotonic(r: int, p: int, n1: int, n2: int)
    requires
        0 <= r,
        0 <= p,
        0 <= n1 <= n2,
        0 < r + n1,
    ensures
        curve_output(r, p, n1) <= curve_output(r, p, n2),
{
    let q1 = curve_output(r, p, n1);
    let d2 = r + n2;
    lemma_curve_output_bounds(r, p, n1);
    assert(q1 * d2 <= p * n2) by (nonlinear_arith)
        requires
            q1 * (r + n1) <= p * n1,
            0 <= q1 <= p,
            n1 <= n2,
            d2 == r + n2,
    ;
    lemma_div_is_ordered(q1 * d2, p * n2, d2);
    lemma_div_by_multiple(q1, d2);
}

/// A higher rate withholds no smaller fee.
proof fn lemma_fee_amount_monotonic(amount_in: int, bps1: int, bps2: int)
    requires
        0 <= amount_in,
        0 <= bps1 <= bps2,
    ensures
        0 <= fee_amount(amount_in, bps1) <= fee_amount(amount_in, bps2),
{
    assert(0 <= amount_in * bps1 <= amount_in * bps2) by (nonlinear_arith)
        requires
            0 <= amount_in,
            0 <= bps1 <= bps2,
    ;
    lemma_div_is_ordered(0, amount_in * bps1, 10_000);
    lemma_div_is_ordered(amount_in * bps1, amount_in * bps2, 10_000);
}

/// A swap never pays out more than the destination reserve holds, and the
/// product of the reserves after it (the whole `amount_in` added to the source
/// reserve, `amount_out` taken from the destination reserve) is no smaller than
/// the product before it.
pub proof fn lemma_swap_preserves_product(
    reserve_in: u64,
    reserve_out: u64,
    amount_in: u64,
    fee_bps: u16,
)
    requires
        swap_quote(reserve_in, reserve_out, amount_in, fee_bps) is Ok,
    ensures
        ({
            let amount_out = swap_quote(reserve_in, reserve_out, amount_in, fee_bps)->Ok_0;
            &&& amount_out <= reserve_out
            &&& (reserve_in + amount_in) * (reserve_out - amount_out) >= reserve_in * reserve_out
        }),
{
    let r = reserve_in as int;
    let p = reserve_out as int;
    let a = amount_in as int;
    let fee = fee_amount(a, fee_bps as int);
    let n = a - fee;
    let q = curve_output(r, p, n);
    lemma_fee_amount_monotonic(a, 0, fee_bps as int);
    lemma_curve_output_bounds(r, p, n);
    assert((r + a) * (p - q) >= r * p) by (nonlinear_arith)
        requires
            q * (r + n) <= p * n,
            0 <= q <= p,
            0 <= n <= a,
            0 <= r,
    ;
}

/// With the reserves and the amount held fixed, a higher fee rate never
/// yields a larger payout, wherever both swaps are priced.
pub proof fn lemma_swap_fee_monotonic(
    reserve_in: u64,
    reserve_out: u64,
    amount_in: u64,
    fee_lo: u16,
    fee_hi: u16,
)
    requires
        fee_lo <= fee_hi,
        swap_quote(reserve_in, reserve_out, amount_in, fee_lo) is Ok,
        swap_quote(reserve_in, reserve_out, amount_in, fee_hi) is Ok,
    ensures
        swap_quote(reserve_in, reserve_out, amount_in, fee_hi)->Ok_0 <= swap_quote(
            reserve_in,
            reserve_out,
            amount_in,
            fee_lo,
        )->Ok_0,
{
    let r = reserve_in as int;
    let p = reserve_out as int;
    let a = amount_in as int;
    let n_lo = a - fee_amount(a, fee_lo as int);
    let n_hi = a - fee_amount(a, fee_hi as int);
    lemma_fee_amount_monotonic(a, fee_lo as int, fee_hi as int);
    lemma_curve_output_monotonic(r, p, n_hi, n_lo);
    lemma_curve_output_bounds(r, p, n_hi);
    lemma_curve_output_bounds(r, p, n_lo);
}

/// Without a fee the whole amount meets the curve: the payout is
/// `floor(reserve_out * amount_in / (reserve_in + amount_in))` wherever the
/// product and the sum fit 64 bits and the sum is not zero.
pub proof fn lemma_swap_without_fee(reserve_in: u64, reserve_out: u64, amount_in: u64)
    ensures
        swap_quote(reserve_in, reserve_out, amount_in, 0) == (if reserve_out * amount_in > u64::MAX
            || reserve_in + amount_in > u64::MAX || reserve_in + amount_in == 0 {
            Err::<u64, PoolError>(PoolError::CalculationError)
        } else {
            Ok::<u64, PoolError>((reserve_out * amount_in / (reserve_in + amount_in)) as u64)
        }),
{
    assert(amount_in * 0 == 0) by (nonlinear_arith);
    assert(fee_amount(amount_in as int, 0) == 0);
}

/// The fee on `amount_in` at `fee_bps` basis points, rounded down. Fails with
/// `ArithmeticOverflow` exactly when `amount_in * fee_bps` leaves the 64-bit
/// range.
pub fn trade_fee(amount_in: u64, fee_bps: u16) -> (res: Result<u64, PoolError>)
    ensures
        amount_in * fee_bps <= u64::MAX ==> res == Ok::<u64, PoolError>(
            fee_amount(amount_in as int, fee_bps as int) as u64,
        ),
        amount_in * fee_bps > u64::MAX ==> res == Err::<u64, PoolError>(
            PoolError::ArithmeticOverflow,
        ),
{
    match amount_in.checked_mul(fee_bps as u64) {
        Some(product) => Ok(product / BPS_DENOMINATOR),
        None => Err(PoolError::ArithmeticOverflow),
    }
}

/// Prices a swap of `amount_in` into a reserve of `reserve_in`, paid out of a
/// reserve of `reserve_out`, at `fee_bps` basis points.
///
/// The fee is withheld from the amount before the curve is applied, and stays
/// in the source reserve. The result is [`swap_quote`]; a payout never
/// exceeds `reserve_out` and never lowers the product of the reserves.
pub fn swap_amount_out(reserve_in: u64, reserve_out: u64, amount_in: u64, fee_bps: u16) -> (res:
    Result<u64, PoolError>)
    ensures
        res == swap_quote(reserve_in, reserve_out, amount_in, fee_bps),
        amount_in * fee_bps > u64::MAX ==> res == Err::<u64, PoolError>(
            PoolError::ArithmeticOverflow,
        ),
        res matches Ok(amount_out) ==> {
            &&& amount_out <= reserve_out
            &&& (reserve_in + amount_in) * (reserve_out - amount_out) >= reserve_in * reserve_out
        },
{
    let fee: u64 = match trade_fee(amount_in, fee_bps) {
        Ok(fee) => fee,
        Err(e) => {
            return Err(e);
        },
    };
    let net: u64 = match amount_in.checked_sub(fee) {
        Some(net) => net,
        None => {
            return Err(PoolError::CalculationError);
        },
    };
    let numerator: u64 = match reserve_out.checked_mul(net) {
        Some(numerator) => numerator,
        None => {
            return Err(PoolError::CalculationError);
        },
    };
    let denominator: u64 = match reserve_in.checked_add(net) {
        Some(denominator) => denominator,
        None => {
            return Err(PoolError::CalculationError);
        },
    };
    let amount_out: u64 = match numerator.checked_div(denominator) {
        Some(amount_out) => amount_out,
        None => {
            return Err(PoolError::CalculationError);
        },
    };
    proof {
        lemma_curve_output_bounds(reserve_in as int, reserve_out as int, net as int);
        lemma_swap_preserves_product(reserve_in, reserve_out, amount_in, fee_bps);
    }
    Ok(amount_out)
}

/// The shares minted for a deposit of `amount_a` and `amount_b` into a pool
/// with `supply` shares outstanding and `reserve_a` of the first asset.
///
/// The first deposit, which must bring some of both assets, mints
/// [`BOOTSTRAP_SHARES`] whatever the amounts. A later one mints
/// `floor(supply * amount_a / reserve_a)`; it fails with `ArithmeticOverflow`
/// when the product leaves the 64-bit range, and with `CalculationError` when
/// the reserve is empty. `amount_b` is not held to any proportion.
pub fn shares_for_deposit(supply: u64, reserve_a: u64, amount_a: u64, amount_b: u64) -> (res:
    Result<u64, PoolError>)
    requires
        supply == 0 ==> amount_a > 0 && amount_b > 0,
    ensures
        res == deposit_quote(supply, reserve_a, amount_a),
        supply == 0 ==> res == Ok::<u64, PoolError>(BOOTSTRAP_SHARES),
        supply > 0 && supply * amount_a > u64::MAX ==> res == Err::<u64, PoolError>(
            PoolError::ArithmeticOverflow,
        ),
        res matches Ok(shares) ==> supply + shares > 0,
{
    if supply == 0 {
        return Ok(BOOTSTRAP_SHARES);
    }
    let product: u64 = match supply.checked_mul(amount_a) {
        Some(product) => product,
        None => {
            return Err(PoolError::ArithmeticOverflow);
        },
    };
    match product.checked_div(reserve_a) {
        Some(shares) => Ok(shares),
        None => Err(PoolError::CalculationError),
    }
}

} // verus!
