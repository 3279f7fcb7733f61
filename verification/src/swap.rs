use vstd::prelude::*;

use vstd::arithmetic::div_mod::{
    lemma_div_by_multiple, lemma_div_is_ordered, lemma_div_pos_is_pos, lemma_fundamental_div_mod,
    lemma_multiply_divide_le,
};
use vstd::arithmetic::mul::{
    lemma_mul_inequality, lemma_mul_is_commutative, lemma_mul_is_distributive_add_other_way,
    lemma_mul_nonnegative,
};

use crate::error::AmmError;
use crate::math::{add_checked, mul_div};
use crate::pool::Pool;

verus! {

/// Number of basis points in the whole: fee rates are fractions of this.
pub const BPS_DENOMINATOR: u64 = 10000;

/// The swap record emitted for observability: the direction, the amounts
/// moved, and the fee collected. It has no effect on engine state.
#[derive(Clone, Copy, Debug, PartialEq, Eq, Structural)]
pub struct SwapEvent {
    /// True when asset X was paid in and asset Y paid out.
    pub swap_x_for_y: bool,
    /// Amount of the input asset the trader paid, fee included.
    pub amount_in: u64,
    /// Amount of the output asset the trader received.
    pub amount_out: u64,
    /// Fee collected from the input, retained in the pool's reserves.
    pub fee_amount: u64,
}

/// The fee charged on `amount_in` at `fee_bps` basis points, truncated down.
pub open spec fn swap_fee(amount_in: u64, fee_bps: u16) -> int {
    (amount_in * fee_bps) / (BPS_DENOMINATOR as int)
}

/// The input remaining after the fee: the portion that moves the price.
pub open spec fn net_input(amount_in: u64, fee_bps: u16) -> int {
    amount_in - swap_fee(amount_in, fee_bps)
}

/// The input-side reserve the pricing curve divides by: the prior reserve
/// plus the net (after-fee) input.
pub open spec fn curve_divisor(reserve_in: u64, amount_in: u64, fee_bps: u16) -> int {
    reserve_in + net_input(amount_in, fee_bps)
}

/// The output-side reserve after the trade: the full-width product of the
/// prior reserves divided by the grown input-side reserve, truncated down.
pub open spec fn curve_reserve_out(
    reserve_in: u64,
    reserve_out: u64,
    amount_in: u64,
    fee_bps: u16,
) -> int {
    (reserve_in * reserve_out) / curve_divisor(reserve_in, amount_in, fee_bps)
}

/// The amount of the output asset a swap pays out: what the output-side
/// reserve shrinks by.
pub open spec fn swap_output(
    reserve_in: u64,
    reserve_out: u64,
    amount_in: u64,
    fee_bps: u16,
) -> int {
    reserve_out - curve_reserve_out(reserve_in, reserve_out, amount_in, fee_bps)
}

/// The reserve of the asset a swap in the given direction pays in.
pub open spec fn reserve_in_of(p: Pool, swap_x_for_y: bool) -> u64 {
    if swap_x_for_y {
        p.reserve_x
    } else {
        p.reserve_y
    }
}

/// The reserve of the asset a swap in the given direction pays out.
pub open spec fn reserve_out_of(p: Pool, swap_x_for_y: bool) -> u64 {
    if swap_x_for_y {
        p.reserve_y
    } else {
        p.reserve_x
    }
}

/// Which failure, if any, a swap request meets, in the order the checks
/// are made. `None` means the swap succeeds.
pub open spec fn swap_check(
    p: Pool,
    swap_x_for_y: bool,
    amount_in: u64,
    min_amount_out: u64,
) -> Option<AmmError> {
    let reserve_in = reserve_in_of(p, swap_x_for_y);
    let reserve_out = reserve_out_of(p, swap_x_for_y);
    let out = swap_output(reserve_in, reserve_out, amount_in, p.fee_bps);
    if p.locked {
        Some(AmmError::PoolLocked)
    } else if amount_in == 0 {
        Some(AmmError::InvalidAmount)
    } else if p.reserve_x == 0 || p.reserve_y == 0 {
        Some(AmmError::NoLiquidityInPool)
    } else if reserve_in + amount_in > u64::MAX {
        Some(AmmError::Overflow)
    } else if out == 0 {
        Some(AmmError::InvalidAmount)
    } else if out >= reserve_out {
        Some(AmmError::InsufficientBalance)
    } else if out < min_amount_out {
        Some(AmmError::SlippageExceeded)
    } else {
        None
    }
}

/// The fee is never negative and never exceeds the input it is charged on.
proof fn lemma_fee_le_input(amount_in: u64, fee_bps: u16)
    requires
        fee_bps <= BPS_DENOMINATOR,
    ensures
        0 <= swap_fee(amount_in, fee_bps) <= amount_in,
{
    lemma_mul_nonnegative(amount_in as int, fee_bps as int);
    lemma_div_pos_is_pos(amount_in * fee_bps, BPS_DENOMINATOR as int);
    lemma_mul_inequality(fee_bps as int, BPS_DENOMINATOR as int, amount_in as int);
    lemma_mul_is_commutative(fee_bps as int, amount_in as int);
    lemma_mul_is_commutative(BPS_DENOMINATOR as int, amount_in as int);
    lemma_div_is_ordered(
        amount_in * fee_bps,
        amount_in * BPS_DENOMINATOR,
        BPS_DENOMINATOR as int,
    );
    lemma_div_by_multiple(amount_in as int, BPS_DENOMINATOR as int);
}

/// The curve's new output-side reserve is never negative and never exceeds
/// the prior output-side reserve: a swap cannot make the pool richer in the
/// asset it pays out.
proof fn lemma_curve_out_le(reserve_in: u64, reserve_out: u64, amount_in: u64, fee_bps: u16)
    requires
        0 < reserve_in,
        fee_bps <= BPS_DENOMINATOR,
    ensures
        0 <= curve_reserve_out(reserve_in, reserve_out, amount_in, fee_bps) <= reserve_out,
{
    let c = curve_divisor(reserve_in, amount_in, fee_bps);
    lemma_fee_le_input(amount_in, fee_bps);
    lemma_mul_nonnegative(reserve_in as int, reserve_out as int);
    lemma_div_pos_is_pos(reserve_in * reserve_out, c);
    lemma_mul_inequality(reserve_in as int, c, reserve_out as int);
    lemma_mul_is_commutative(reserve_in as int, reserve_out as int);
    lemma_mul_is_commutative(c, reserve_out as int);
    lemma_multiply_divide_le(reserve_in * reserve_out, c, reserve_out as int);
}

/// Execute a swap: the trader pays `amount_in` of one asset and receives
/// the output the constant-product curve allows, less the fee. The fee is
/// charged on the input and retained in the pool's reserves, so on success
/// the input-side reserve grows by the full `amount_in` while the curve
/// prices the trade against the net input only. The output-side division
/// truncates down. Every failure leaves the pool untouched; `swap_check`
/// says which failure is reported on which input.
pub fn swap(pool: &mut Pool, swap_x_for_y: bool, amount_in: u64, min_amount_out: u64) -> (r:
    Result<SwapEvent, AmmError>)
    requires
        old(pool).well_formed(),
    ensures
        final(pool).well_formed(),
        match r {
            Ok(ev) => {
                &&& swap_check(*old(pool), swap_x_for_y, amount_in, min_amount_out)
                    == None::<AmmError>
                &&& ev.swap_x_for_y == swap_x_for_y
                &&& ev.amount_in == amount_in
                &&& ev.fee_amount == swap_fee(amount_in, old(pool).fee_bps)
                &&& ev.amount_out == swap_output(
                    reserve_in_of(*old(pool), swap_x_for_y),
                    reserve_out_of(*old(pool), swap_x_for_y),
                    amount_in,
                    old(pool).fee_bps,
                )
                &&& reserve_in_of(*final(pool), swap_x_for_y) == reserve_in_of(
                    *old(pool),
                    swap_x_for_y,
                ) + amount_in
                &&& reserve_out_of(*final(pool), swap_x_for_y) == reserve_out_of(
                    *old(pool),
                    swap_x_for_y,
                ) - ev.amount_out
                &&& final(pool).share_supply == old(pool).share_supply
                &&& final(pool).fee_bps == old(pool).fee_bps
                &&& final(pool).locked == old(pool).locked
                &&& final(pool).shares_minted == old(pool).shares_minted
                &&& final(pool).shares_burned == old(pool).shares_burned
            },
            Err(e) => {
                &&& *final(pool) == *old(pool)
                &&& swap_check(*old(pool), swap_x_for_y, amount_in, min_amount_out) == Some(e)
            },
        },
{
    if pool.locked {
        return Err(AmmError::PoolLocked);
    }
    if amount_in == 0 {
        return Err(AmmError::InvalidAmount);
    }
    if pool.reserve_x == 0 || pool.reserve_y == 0 {
        return Err(AmmError::NoLiquidityInPool);
    }
    let (reserve_in, reserve_out) = if swap_x_for_y {
        (pool.reserve_x, pool.reserve_y)
    } else {
        (pool.reserve_y, pool.reserve_x)
    };
    proof {
        lemma_fee_le_input(amount_in, pool.fee_bps);
    }
    let fee = match mul_div(amount_in, pool.fee_bps as u64, BPS_DENOMINATOR) {
        Ok(v) => v,
        Err(e) => {
            return Err(e);
        },
    };
    let net = amount_in - fee;
    let new_reserve_in = match add_checked(reserve_in, amount_in) {
        Ok(v) => v,
        Err(e) => {
            return Err(e);
        },
    };
    let divisor = reserve_in + net;
    proof {
        lemma_curve_out_le(reserve_in, reserve_out, amount_in, pool.fee_bps);
    }
    let new_out = match mul_div(reserve_in, reserve_out, divisor) {
        Ok(v) => v,
        Err(e) => {
            return Err(e);
        },
    };
    let out = reserve_out - new_out;
    if out == 0 {
        return Err(AmmError::InvalidAmount);
    }
    if out >= reserve_out {
        return Err(AmmError::InsufficientBalance);
    }
    if out < min_amount_out {
        return Err(AmmError::SlippageExceeded);
    }
    if swap_x_for_y {
        pool.reserve_x = new_reserve_in;
        pool.reserve_y = new_out;
    } else {
        pool.reserve_y = new_reserve_in;
        pool.reserve_x = new_out;
    }
    Ok(SwapEvent { swap_x_for_y, amount_in, amount_out: out, fee_amount: fee })
}

/// Exact accounting of the reserve product across a successful swap: the
/// new product equals the old one, minus the truncation remainder of the
/// curve division, plus the retained fee times the new output-side reserve.
pub proof fn lemma_swap_product(reserve_in: u64, reserve_out: u64, amount_in: u64, fee_bps: u16)
    requires
        0 < reserve_in,
        fee_bps <= BPS_DENOMINATOR,
    ensures
        (reserve_in + amount_in) * (reserve_out - swap_output(
            reserve_in,
            reserve_out,
            amount_in,
            fee_bps,
        )) == reserve_in * reserve_out - (reserve_in * reserve_out) % curve_divisor(
            reserve_in,
            amount_in,
            fee_bps,
        ) + swap_fee(amount_in, fee_bps) * curve_reserve_out(
            reserve_in,
            reserve_out,
            amount_in,
            fee_bps,
        ),
{
    let fee = swap_fee(amount_in, fee_bps);
    let c = curve_divisor(reserve_in, amount_in, fee_bps);
    let q = curve_reserve_out(reserve_in, reserve_out, amount_in, fee_bps);
    lemma_fee_le_input(amount_in, fee_bps);
    lemma_fundamental_div_mod(reserve_in * reserve_out, c);
    lemma_mul_is_distributive_add_other_way(q, c, fee);
}

/// Invariant non-decrease: across a swap whose retained fee covers the
/// truncation remainder of the curve division, the reserve product
/// `reserve_in * reserve_out` does not shrink — and grows strictly when
/// the fee strictly exceeds that remainder. The fee stays in the pool, so
/// with a zero remainder any positive fee grows the product; when the
/// computed fee rounds down to zero, truncation can cost the pool up to
/// one divisor-sized unit of product and the bound does not apply.
pub proof fn lemma_swap_invariant(reserve_in: u64, reserve_out: u64, amount_in: u64, fee_bps: u16)
    requires
        0 < reserve_in,
        fee_bps <= BPS_DENOMINATOR,
        swap_fee(amount_in, fee_bps) * curve_reserve_out(reserve_in, reserve_out, amount_in, fee_bps)
            >= (reserve_in * reserve_out) % curve_divisor(reserve_in, amount_in, fee_bps),
    ensures
        (reserve_in + amount_in) * (reserve_out - swap_output(
            reserve_in,
            reserve_out,
            amount_in,
            fee_bps,
        )) >= reserve_in * reserve_out,
        swap_fee(amount_in, fee_bps) * curve_reserve_out(reserve_in, reserve_out, amount_in, fee_bps)
            > (reserve_in * reserve_out) % curve_divisor(reserve_in, amount_in, fee_bps)
            ==> (reserve_in + amount_in) * (reserve_out - swap_output(
            reserve_in,
            reserve_out,
            amount_in,
            fee_bps,
        )) > reserve_in * reserve_out,
{
    lemma_swap_product(reserve_in, reserve_out, amount_in, fee_bps);
}

} // verus!
