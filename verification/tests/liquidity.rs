use amm_core::error::AmmError;
use amm_core::liquidity::{deposit, withdraw};
use amm_core::pool::{create_pool, Pool};

/// A pool seeded with deliberately uneven reserves, so that the
/// proportional divisions truncate.
fn uneven_pool() -> Pool {
    let mut pool = create_pool(30).unwrap();
    let legs = deposit(&mut pool, 1_000, 1_000_003, 999_999).unwrap();
    assert_eq!(legs.x, 1_000_003);
    assert_eq!(legs.y, 999_999);
    pool
}

#[test]
fn bootstrap_deposit_takes_the_ceilings_exactly() {
    let pool = uneven_pool();
    assert_eq!(pool.reserve_x, 1_000_003);
    assert_eq!(pool.reserve_y, 999_999);
    assert_eq!(pool.share_supply, 1_000);
}

#[test]
fn steady_state_deposit_is_proportional_and_truncates_down() {
    let mut pool = uneven_pool();
    let legs = deposit(&mut pool, 7, u64::MAX, u64::MAX).unwrap();
    // floor(1_000_003 * 7 / 1_000) and floor(999_999 * 7 / 1_000)
    assert_eq!(legs.x, 7_000);
    assert_eq!(legs.y, 6_999);
    assert_eq!(pool.reserve_x, 1_007_003);
    assert_eq!(pool.reserve_y, 1_006_998);
    assert_eq!(pool.share_supply, 1_007);
    // Each leg is proportional up to less than one unit of truncation:
    // supply * leg <= reserve * amount < supply * (leg + 1).
    assert!(1_000 * 7_000 <= 1_000_003 * 7 && 1_000_003 * 7 < 1_000 * 7_001);
    assert!(1_000 * 6_999 <= 999_999 * 7 && 999_999 * 7 < 1_000 * 7_000);
}

#[test]
fn round_trip_returns_no_more_than_was_deposited() {
    let mut pool = uneven_pool();
    let deposited = deposit(&mut pool, 7, u64::MAX, u64::MAX).unwrap();
    let withdrawn = withdraw(&mut pool, 7, 0, 0).unwrap();
    assert!(withdrawn.x <= deposited.x);
    assert!(withdrawn.y <= deposited.y);
    assert_eq!(withdrawn.x, 7_000);
    assert_eq!(withdrawn.y, 6_999);
}

#[test]
fn withdrawing_every_share_drains_both_reserves_to_zero() {
    let mut pool = uneven_pool();
    let legs = withdraw(&mut pool, 1_000, 0, 0).unwrap();
    assert_eq!(legs.x, 1_000_003);
    assert_eq!(legs.y, 999_999);
    assert_eq!(pool.reserve_x, 0);
    assert_eq!(pool.reserve_y, 0);
    assert_eq!(pool.share_supply, 0);
}

#[test]
fn withdrawing_every_share_drains_after_activity_too() {
    let mut pool = uneven_pool();
    deposit(&mut pool, 333, u64::MAX, u64::MAX).unwrap();
    amm_core::swap::swap(&mut pool, true, 50_000, 0).unwrap();
    let supply = pool.share_supply;
    withdraw(&mut pool, supply, 0, 0).unwrap();
    assert_eq!(pool.reserve_x, 0);
    assert_eq!(pool.reserve_y, 0);
    assert_eq!(pool.share_supply, 0);
}

#[test]
fn deposit_rejects_a_zero_share_request() {
    let mut pool = uneven_pool();
    assert_eq!(deposit(&mut pool, 0, 10, 10), Err(AmmError::InvalidAmount));
}

#[test]
fn bootstrap_deposit_rejects_an_empty_leg() {
    let mut pool = create_pool(30).unwrap();
    assert_eq!(deposit(&mut pool, 100, 0, 50), Err(AmmError::InvalidAmount));
    assert_eq!(deposit(&mut pool, 100, 50, 0), Err(AmmError::InvalidAmount));
    assert_eq!(pool.share_supply, 0);
}

#[test]
fn deposit_rejects_slippage_past_a_ceiling() {
    let mut pool = uneven_pool();
    assert_eq!(deposit(&mut pool, 7, 6_999, u64::MAX), Err(AmmError::SlippageExceeded));
    assert_eq!(deposit(&mut pool, 7, u64::MAX, 6_998), Err(AmmError::SlippageExceeded));
    // The failed attempts left the pool exactly as it was.
    assert_eq!(pool.reserve_x, 1_000_003);
    assert_eq!(pool.reserve_y, 999_999);
    assert_eq!(pool.share_supply, 1_000);
}

#[test]
fn deposit_rejects_a_leg_that_overflows() {
    let mut pool = create_pool(30).unwrap();
    deposit(&mut pool, 1, u64::MAX, u64::MAX).unwrap();
    // The proportional leg 2 * u64::MAX does not fit in 64 bits.
    assert_eq!(deposit(&mut pool, 2, u64::MAX, u64::MAX), Err(AmmError::Overflow));
    // A fitting leg can still overflow the reserve it is added to.
    assert_eq!(deposit(&mut pool, 1, u64::MAX, u64::MAX), Err(AmmError::Overflow));
}

#[test]
fn deposit_rejects_a_locked_pool() {
    let mut pool = uneven_pool();
    pool.lock();
    assert_eq!(deposit(&mut pool, 7, u64::MAX, u64::MAX), Err(AmmError::PoolLocked));
    pool.unlock();
    assert!(deposit(&mut pool, 7, u64::MAX, u64::MAX).is_ok());
}

#[test]
fn withdraw_rejects_a_zero_share_amount() {
    let mut pool = uneven_pool();
    assert_eq!(withdraw(&mut pool, 0, 0, 0), Err(AmmError::InvalidAmount));
}

#[test]
fn withdraw_rejects_more_shares_than_exist() {
    let mut pool = uneven_pool();
    assert_eq!(withdraw(&mut pool, 1_001, 0, 0), Err(AmmError::InvalidAmount));
    assert_eq!(pool.share_supply, 1_000);
}

#[test]
fn withdraw_rejects_an_empty_pool() {
    let mut pool = create_pool(30).unwrap();
    assert_eq!(withdraw(&mut pool, 1, 0, 0), Err(AmmError::NoLiquidityInPool));
}

#[test]
fn withdraw_rejects_slippage_under_a_floor() {
    let mut pool = uneven_pool();
    assert_eq!(withdraw(&mut pool, 7, 7_001, 0), Err(AmmError::SlippageExceeded));
    assert_eq!(withdraw(&mut pool, 7, 0, 7_000), Err(AmmError::SlippageExceeded));
    assert_eq!(pool.reserve_x, 1_000_003);
    assert_eq!(pool.share_supply, 1_000);
}

#[test]
fn withdraw_rejects_a_locked_pool() {
    let mut pool = uneven_pool();
    pool.lock();
    assert_eq!(withdraw(&mut pool, 7, 0, 0), Err(AmmError::PoolLocked));
}

#[test]
fn share_supply_tracks_mints_minus_burns() {
    let mut pool = uneven_pool();
    deposit(&mut pool, 40, u64::MAX, u64::MAX).unwrap();
    deposit(&mut pool, 2, u64::MAX, u64::MAX).unwrap();
    withdraw(&mut pool, 30, 0, 0).unwrap();
    assert_eq!(pool.share_supply, 1_000 + 40 + 2 - 30);
}
