use amm_core::error::AmmError;
use amm_core::pool::{create_pool, MAX_FEE_BPS};

#[test]
fn create_pool_starts_in_bootstrap_state() {
    let pool = create_pool(30).unwrap();
    assert_eq!(pool.reserve_x, 0);
    assert_eq!(pool.reserve_y, 0);
    assert_eq!(pool.share_supply, 0);
    assert_eq!(pool.fee_bps, 30);
    assert!(!pool.locked);
}

#[test]
fn create_pool_accepts_the_ceiling_rate() {
    let pool = create_pool(MAX_FEE_BPS).unwrap();
    assert_eq!(pool.fee_bps, MAX_FEE_BPS);
}

#[test]
fn create_pool_rejects_a_rate_over_the_ceiling() {
    assert!(matches!(create_pool(MAX_FEE_BPS + 1), Err(AmmError::InvalidFeePercentage)));
    assert!(matches!(create_pool(u16::MAX), Err(AmmError::InvalidFeePercentage)));
}

#[test]
fn lock_is_idempotent_and_unlock_restores() {
    let mut pool = create_pool(0).unwrap();
    pool.lock();
    assert!(pool.locked);
    pool.lock();
    assert!(pool.locked);
    pool.unlock();
    assert!(!pool.locked);
    pool.unlock();
    assert!(!pool.locked);
}

#[test]
fn lock_preserves_the_rest_of_the_state() {
    let mut pool = create_pool(25).unwrap();
    amm_core::liquidity::deposit(&mut pool, 500, 1_000, 2_000).unwrap();
    pool.lock();
    assert_eq!(pool.reserve_x, 1_000);
    assert_eq!(pool.reserve_y, 2_000);
    assert_eq!(pool.share_supply, 500);
    assert_eq!(pool.fee_bps, 25);
}
