use vstd::prelude::*;

verus! {

/// Failure reasons surfaced by the pool engine.
///
/// Every failure is pure: the operation that returns it leaves the pool
/// state exactly as it found it.
#[derive(Clone, Copy, Debug, PartialEq, Eq, Structural)]
pub enum AmmError {
    /// A zero or out-of-range quantity was supplied.
    InvalidAmount,
    /// A mutating operation was attempted while the pool is locked.
    PoolLocked,
    /// The operation needs nonzero reserves or share supply and none exist.
    NoLiquidityInPool,
    /// A computed amount violates a caller-supplied slippage bound.
    SlippageExceeded,
    /// The operation would pay out more than the available reserve.
    InsufficientBalance,
    /// A computed quantity does not fit in 64 bits.
    Overflow,
    /// A division with a zero denominator was requested.
    DivisionByZero,
    /// The fee rate passed at pool creation exceeds the ceiling.
    InvalidFeePercentage,
}

} // verus!
