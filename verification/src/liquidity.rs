use vstd::prelude::*;

use vstd::arithmetic::div_mod::{
    lemma_div_by_multiple, lemma_div_pos_is_pos, lemma_fundamental_div_mod,
    lemma_mod_division_less_than_divisor, lemma_multiply_divide_le, lemma_multiply_divide_lt,
};
use vstd::arithmetic::mul::{
    lemma_mul_inequality, lemma_mul_is_commutative, lemma_mul_is_distributive_add,
    lemma_mul_is_distributive_add_other_way, lemma_mul_nonnegative, lemma_mul_strict_inequality,
};

use crate::error::AmmError;
use crate::math::{add_checked, mul_div};
use crate::pool::Pool;

verus! {

/// The pair of reserve amounts moved by one liquidity operation: the X leg
/// and the Y leg of a deposit or a withdrawal.
#[derive(Clone, Copy, Debug, PartialEq, Eq, Structural)]
pub struct LiquidityAmounts {
    /// Amount of asset X moved.
    pub x: u64,
    /// Amount of asset Y moved.
    pub y: u64,
}

/// The share of `reserve` that `amount` shares represent out of a total of
/// `supply` shares: `reserve * amount / supply`, truncated down. Truncation
/// rounds in the pool's favor on both deposit and withdrawal legs.
pub open spec fn proportional_amount(reserve: u64, amount: u64, supply: u64) -> int {
    (reserve * amount) / (supply as int)
}

/// The deposit legs for `amount` requested shares: in the bootstrap state
/// the first provider seeds the pool with exactly the caller-chosen ceilings,
/// setting the initial price; in steady state each leg is the proportional
/// amount, so the reserve ratio is preserved up to truncation.
pub open spec fn deposit_legs(p: Pool, amount: u64, max_x: u64, max_y: u64) -> (int, int) {
    if p.share_supply == 0 {
        (max_x as int, max_y as int)
    } else {
        (
            proportional_amount(p.reserve_x, amount, p.share_supply),
            proportional_amount(p.reserve_y, amount, p.share_supply),
        )
    }
}

/// Which failure, if any, a deposit request meets, in the order the checks
/// are made. `None` means the deposit succeeds.
pub open spec fn deposit_check(p: Pool, amount: u64, max_x: u64, max_y: u64) -> Option<
    AmmError,
> {
    let x = deposit_legs(p, amount, max_x, max_y).0;
    let y = deposit_legs(p, amount, max_x, max_y).1;
    if p.locked {
        Some(AmmError::PoolLocked)
    } else if amount == 0 {
        Some(AmmError::InvalidAmount)
    } else if p.share_supply == 0 && (max_x == 0 || max_y == 0) {
        Some(AmmError::InvalidAmount)
    } else if x > u64::MAX || y > u64::MAX {
        Some(AmmError::Overflow)
    } else if x > max_x || y > max_y {
        Some(AmmError::SlippageExceeded)
    } else if p.reserve_x + x > u64::MAX || p.reserve_y + y > u64::MAX || p.share_supply + amount
        > u64::MAX {
        Some(AmmError::Overflow)
    } else {
        None
    }
}

/// Which failure, if any, a withdrawal request meets, in the order the
/// checks are made. `None` means the withdrawal succeeds.
pub open spec fn withdraw_check(p: Pool, amount: u64, min_x: u64, min_y: u64) -> Option<
    AmmError,
> {
    let x = proportional_amount(p.reserve_x, amount, p.share_supply);
    let y = proportional_amount(p.reserve_y, amount, p.share_supply);
    if p.locked {
        Some(AmmError::PoolLocked)
    } else if amount == 0 {
        Some(AmmError::InvalidAmount)
    } else if p.share_supply == 0 {
        Some(AmmError::NoLiquidityInPool)
    } else if amount > p.share_supply {
        Some(AmmError::InvalidAmount)
    } else if x < min_x || y < min_y {
        Some(AmmError::SlippageExceeded)
    } else {
        None
    }
}

/// A proportional leg never exceeds the reserve it is drawn from; it equals
/// the whole reserve exactly when all shares are withdrawn, and stays
/// strictly below it while any share remains.
proof fn lemma_prop_le_reserve(reserve: u64, amount: u64, supply: u64)
    requires
        0 < supply,
        amount <= supply,
    ensures
        0 <= proportional_amount(reserve, amount, supply) <= reserve,
        amount == supply ==> proportional_amount(reserve, amount, supply) == reserve,
        amount < supply && 0 < reserve ==> proportional_amount(reserve, amount, supply) < reserve,
{
    lemma_mul_nonnegative(reserve as int, amount as int);
    lemma_div_pos_is_pos(reserve * amount, supply as int);
    lemma_mul_inequality(amount as int, supply as int, reserve as int);
    lemma_mul_is_commutative(amount as int, reserve as int);
    lemma_mul_is_commutative(supply as int, reserve as int);
    lemma_multiply_divide_le(reserve * amount, supply as int, reserve as int);
    if amount == supply {
        lemma_div_by_multiple(reserve as int, supply as int);
        lemma_mul_is_commutative(reserve as int, supply as int);
    }
    if amount < supply && 0 < reserve {
        lemma_mul_strict_inequality(amount as int, supply as int, reserve as int);
        lemma_multiply_divide_lt(reserve * amount, supply as int, reserve as int);
    }
}

/// Compute the deposit legs for `amount` requested shares under the
/// caller-supplied ceilings `max_x` and `max_y`, and apply them: on success
/// both reserves grow by their leg and the share supply grows by exactly
/// `amount`. Every failure leaves the pool untouched; `deposit_check` says
/// which failure is reported on which input.
pub fn deposit(pool: &mut Pool, amount: u64, max_x: u64, max_y: u64) -> (r: Result<
    LiquidityAmounts,
    AmmError,
>)
    requires
        old(pool).well_formed(),
    ensures
        final(pool).well_formed(),
        match r {
            Ok(legs) => {
                &&& deposit_check(*old(pool), amount, max_x, max_y) == None::<AmmError>
                &&& legs.x == deposit_legs(*old(pool), amount, max_x, max_y).0
                &&& legs.y == deposit_legs(*old(pool), amount, max_x, max_y).1
                &&& final(pool).reserve_x == old(pool).reserve_x + legs.x
                &&& final(pool).reserve_y == old(pool).reserve_y + legs.y
                &&& final(pool).share_supply == old(pool).share_supply + amount
                &&& final(pool).fee_bps == old(pool).fee_bps
                &&& final(pool).locked == old(pool).locked
                &&& final(pool).shares_minted@ == old(pool).shares_minted@ + amount
                &&& final(pool).shares_burned == old(pool).shares_burned
            },
            Err(e) => {
                &&& *final(pool) == *old(pool)
                &&& deposit_check(*old(pool), amount, max_x, max_y) == Some(e)
            },
        },
{
    if pool.locked {
        return Err(AmmError::PoolLocked);
    }
    if amount == 0 {
        return Err(AmmError::InvalidAmount);
    }
    let (x, y): (u64, u64) = if pool.share_supply == 0 {
        if max_x == 0 || max_y == 0 {
            return Err(AmmError::InvalidAmount);
        }
        (max_x, max_y)
    } else {
        let x = match mul_div(pool.reserve_x, amount, pool.share_supply) {
            Ok(v) => v,
            Err(e) => {
                return Err(e);
            },
        };
        let y = match mul_div(pool.reserve_y, amount, pool.share_supply) {
            Ok(v) => v,
            Err(e) => {
                return Err(e);
            },
        };
        (x, y)
    };
    if x > max_x || y > max_y {
        return Err(AmmError::SlippageExceeded);
    }
    let new_x = match add_checked(pool.reserve_x, x) {
        Ok(v) => v,
        Err(e) => {
            return Err(e);
        },
    };
    let new_y = match add_checked(pool.reserve_y, y) {
        Ok(v) => v,
        Err(e) => {
            return Err(e);
        },
    };
    let new_supply = match add_checked(pool.share_supply, amount) {
        Ok(v) => v,
        Err(e) => {
            return Err(e);
        },
    };
    pool.reserve_x = new_x;
    pool.reserve_y = new_y;
    pool.share_supply = new_supply;
    pool.shares_minted = Ghost((pool.shares_minted@ + amount) as nat);
    Ok(LiquidityAmounts { x, y })
}

/// Compute the withdrawal legs for burning `amount` shares under the
/// caller-supplied floors `min_x` and `min_y`, and apply them: on success
/// both reserves shrink by their proportional leg and the share supply
/// shrinks by exactly `amount`; burning the entire supply drains both
/// reserves to exactly zero. Every failure leaves the pool untouched;
/// `withdraw_check` says which failure is reported on which input.
pub fn withdraw(pool: &mut Pool, amount: u64, min_x: u64, min_y: u64) -> (r: Result<
    LiquidityAmounts,
    AmmError,
>)
    requires
        old(pool).well_formed(),
    ensures
        final(pool).well_formed(),
        match r {
            Ok(legs) => {
                &&& withdraw_check(*old(pool), amount, min_x, min_y) == None::<AmmError>
                &&& legs.x == proportional_amount(
                    old(pool).reserve_x,
                    amount,
                    old(pool).share_supply,
                )
                &&& legs.y == proportional_amount(
                    old(pool).reserve_y,
                    amount,
                    old(pool).share_supply,
                )
                &&& final(pool).reserve_x == old(pool).reserve_x - legs.x
                &&& final(pool).reserve_y == old(pool).reserve_y - legs.y
                &&& final(pool).share_supply == old(pool).share_supply - amount
                &&& final(pool).fee_bps == old(pool).fee_bps
                &&& final(pool).locked == old(pool).locked
                &&& final(pool).shares_minted == old(pool).shares_minted
                &&& final(pool).shares_burned@ == old(pool).shares_burned@ + amount
                &&& amount == old(pool).share_supply ==> final(pool).reserve_x == 0
                    && final(pool).reserve_y == 0
            },
            Err(e) => {
                &&& *final(pool) == *old(pool)
                &&& withdraw_check(*old(pool), amount, min_x, min_y) == Some(e)
            },
        },
{
    if pool.locked {
        return Err(AmmError::PoolLocked);
    }
    if amount == 0 {
        return Err(AmmError::InvalidAmount);
    }
    if pool.share_supply == 0 {
        return Err(AmmError::NoLiquidityInPool);
    }
    if amount > pool.share_supply {
        return Err(AmmError::InvalidAmount);
    }
    proof {
        lemma_prop_le_reserve(pool.reserve_x, amount, pool.share_supply);
        lemma_prop_le_reserve(pool.reserve_y, amount, pool.share_supply);
    }
    let x = match mul_div(pool.reserve_x, amount, pool.share_supply) {
        Ok(v) => v,
        Err(e) => {
            return Err(e);
        },
    };
    let y = match mul_div(pool.reserve_y, amount, pool.share_supply) {
        Ok(v) => v,
        Err(e) => {
            return Err(e);
        },
    };
    if x < min_x || y < min_y {
        return Err(AmmError::SlippageExceeded);
    }
    pool.reserve_x = pool.reserve_x - x;
    pool.reserve_y = pool.reserve_y - y;
    pool.share_supply = pool.share_supply - amount;
    pool.shares_burned = Ghost((pool.shares_burned@ + amount) as nat);
    Ok(LiquidityAmounts { x, y })
}

/// Proportionality: a deposit or withdrawal leg is the exact proportional
/// share of its reserve up to a truncation error of less than one unit.
/// Scaled back by `supply`, the leg brackets `reserve * amount` within one
/// `supply`-sized step:
/// `supply * leg <= reserve * amount < supply * (leg + 1)`.
pub proof fn lemma_proportionality(reserve: u64, amount: u64, supply: u64)
    requires
        0 < supply,
    ensures
        supply * proportional_amount(reserve, amount, supply) <= reserve * amount,
        reserve * amount < supply * (proportional_amount(reserve, amount, supply) + 1),
{
    let leg = proportional_amount(reserve, amount, supply);
    lemma_fundamental_div_mod(reserve * amount, supply as int);
    lemma_mod_division_less_than_divisor(reserve * amount, supply as int);
    lemma_mul_is_distributive_add(supply as int, leg, 1);
}

/// Round-trip: depositing `amount` fresh shares into a steady-state pool
/// and at once withdrawing the same `amount` returns at most the deposited
/// leg on each side — the rounding loss never favors the provider. Stated
/// for one leg; it applies to X and Y alike.
pub proof fn lemma_round_trip(reserve: u64, amount: u64, supply: u64)
    requires
        0 < supply,
        0 < amount,
    ensures
        ((reserve + proportional_amount(reserve, amount, supply)) * amount) / (supply + amount)
            <= proportional_amount(reserve, amount, supply),
{
    let leg = proportional_amount(reserve, amount, supply);
    lemma_proportionality(reserve, amount, supply);
    lemma_mul_nonnegative(reserve as int, amount as int);
    lemma_div_pos_is_pos(reserve * amount, supply as int);
    assert((reserve + leg) * amount == reserve * amount + leg * amount) by {
        lemma_mul_is_distributive_add_other_way(amount as int, reserve as int, leg);
    }
    assert((supply + amount) * (leg + 1) == supply * (leg + 1) + amount * leg + amount) by {
        lemma_mul_is_distributive_add_other_way(leg + 1, supply as int, amount as int);
        lemma_mul_is_distributive_add(amount as int, leg, 1);
    }
    assert(leg * amount == amount * leg) by {
        lemma_mul_is_commutative(leg, amount as int);
    }
    lemma_multiply_divide_lt((reserve + leg) * amount, (supply + amount) as int, leg + 1);
}

} // verus!
