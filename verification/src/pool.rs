use vstd::prelude::*;

use crate::error::AmmError;

verus! {

/// Ceiling on the fee rate a pool can be created with, in basis points.
/// The data model admits rates up to 10000 (100%); this deployment keeps
/// the conservative default of 10% instead.
pub const MAX_FEE_BPS: u16 = 1000;

/// The state of one liquidity pool: the two reserve balances, the total
/// issued ownership shares, the fee rate fixed at creation, and the
/// emergency lock flag.
///
/// The two ghost counters record every share ever minted and ever burned;
/// they exist only for specification and carry no runtime cost.
#[derive(Clone, Copy)]
pub struct Pool {
    /// Balance of asset X held by the pool.
    pub reserve_x: u64,
    /// Balance of asset Y held by the pool.
    pub reserve_y: u64,
    /// Total issued ownership shares.
    pub share_supply: u64,
    /// Swap fee in basis points, immutable after creation.
    pub fee_bps: u16,
    /// While set, every mutating operation is rejected.
    pub locked: bool,
    /// Every share ever minted over the pool's lifetime.
    pub shares_minted: Ghost<nat>,
    /// Every share ever burned over the pool's lifetime.
    pub shares_burned: Ghost<nat>,
}

impl Pool {
    /// The pool's structural invariant. The reserves are empty exactly in
    /// the bootstrap state, before any shares exist; while shares exist,
    /// both reserves are strictly positive. The share supply always equals
    /// the shares ever minted minus the shares ever burned.
    pub open spec fn well_formed(self) -> bool {
        &&& self.fee_bps <= MAX_FEE_BPS
        &&& (self.share_supply == 0 <==> self.reserve_x == 0)
        &&& (self.share_supply == 0 <==> self.reserve_y == 0)
        &&& self.shares_burned@ <= self.shares_minted@
        &&& self.share_supply == self.shares_minted@ - self.shares_burned@
    }

    /// Engage the emergency lock. Locking an already-locked pool is a
    /// harmless no-op, not an error. Nothing else changes.
    pub fn lock(&mut self)
        ensures
            final(self).locked,
            final(self).reserve_x == old(self).reserve_x,
            final(self).reserve_y == old(self).reserve_y,
            final(self).share_supply == old(self).share_supply,
            final(self).fee_bps == old(self).fee_bps,
            final(self).shares_minted == old(self).shares_minted,
            final(self).shares_burned == old(self).shares_burned,
    {
        self.locked = true;
    }

    /// Release the emergency lock. Unlocking an unlocked pool is a
    /// harmless no-op. Nothing else changes.
    pub fn unlock(&mut self)
        ensures
            !final(self).locked,
            final(self).reserve_x == old(self).reserve_x,
            final(self).reserve_y == old(self).reserve_y,
            final(self).share_supply == old(self).share_supply,
            final(self).fee_bps == old(self).fee_bps,
            final(self).shares_minted == old(self).shares_minted,
            final(self).shares_burned == old(self).shares_burned,
    {
        self.locked = false;
    }
}

/// Create a pool in the bootstrap state: empty reserves, no shares, and
/// unlocked, with the given fee rate fixed for the pool's lifetime.
/// Fails with `InvalidFeePercentage` exactly when the rate exceeds
/// `MAX_FEE_BPS`.
pub fn create_pool(fee_bps: u16) -> (r: Result<Pool, AmmError>)
    ensures
        match r {
            Ok(p) => fee_bps <= MAX_FEE_BPS && p.well_formed() && p.reserve_x == 0
                && p.reserve_y == 0 && p.share_supply == 0 && p.fee_bps == fee_bps && !p.locked
                && p.shares_minted@ == 0 && p.shares_burned@ == 0,
            Err(e) => fee_bps > MAX_FEE_BPS && e == AmmError::InvalidFeePercentage,
        },
{
    if fee_bps > MAX_FEE_BPS {
        return Err(AmmError::InvalidFeePercentage);
    }
    Ok(
        Pool {
            reserve_x: 0,
            reserve_y: 0,
            share_supply: 0,
            fee_bps,
            locked: false,
            shares_minted: Ghost(0),
            shares_burned: Ghost(0),
        },
    )
}

/// Conservation of shares: in every well-formed pool state, the shares
/// ever minted minus the shares ever burned equal the current share
/// supply. Every operation's contract preserves `well_formed`, so this
/// holds throughout a pool's lifetime.
pub proof fn lemma_share_conservation(p: Pool)
    requires
        p.well_formed(),
    ensures
        p.share_supply == p.shares_minted@ - p.shares_burned@,
{
}

} // verus!
