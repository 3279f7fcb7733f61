use vstd::prelude::*;

use crate::error::AmmError;

verus! {

/// The full product of two 64-bit operands never overflows 128 bits.
proof fn lemma_u64_product_fits_u128(a: u64, b: u64)
    by (nonlinear_arith)
    ensures
        a * b <= u128::MAX,
{
}

/// Multiply two 64-bit quantities and divide by a third, computing the
/// product at full width so that no precision is lost before the division.
/// The quotient is truncated toward zero.
///
/// Fails with `DivisionByZero` when `denom == 0`, and with `Overflow` when
/// the quotient does not fit back into 64 bits; it succeeds on every other
/// input. All reserve-scale arithmetic in the engine routes through here.
pub fn mul_div(a: u64, b: u64, denom: u64) -> (r: Result<u64, AmmError>)
    ensures
        match r {
            Ok(q) => denom != 0 && q == (a * b) / (denom as int),
            Err(e) => (denom == 0 && e == AmmError::DivisionByZero) || (denom != 0 && (a * b)
                / (denom as int) > u64::MAX && e == AmmError::Overflow),
        },
{
    if denom == 0 {
        return Err(AmmError::DivisionByZero);
    }
    proof {
        lemma_u64_product_fits_u128(a, b);
    }
    let wide: u128 = (a as u128) * (b as u128);
    let quot: u128 = wide / (denom as u128);
    if quot > u64::MAX as u128 {
        return Err(AmmError::Overflow);
    }
    Ok(quot as u64)
}

/// Add two 64-bit quantities, failing with `Overflow` instead of wrapping.
pub fn add_checked(a: u64, b: u64) -> (r: Result<u64, AmmError>)
    ensures
        match r {
            Ok(s) => s == a + b,
            Err(e) => a + b > u64::MAX && e == AmmError::Overflow,
        },
{
    if a > u64::MAX - b {
        return Err(AmmError::Overflow);
    }
    Ok(a + b)
}

} // verus!
