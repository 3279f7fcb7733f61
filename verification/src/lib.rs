//! Core accounting engine for a two-asset constant-product liquidity pool.
//!
//! The engine maintains a pair of reserve balances and a supply of ownership
//! shares, and computes the amounts moved by liquidity provision, liquidity
//! withdrawal, and swaps. It is a pure computation library: callers supply
//! the current pool state and the operation's parameters, and receive the
//! computed transfer amounts together with the updated state. Persisting the
//! state and moving the actual asset balances is the caller's job, as is all
//! authorization.
//!
//! Every division rounds toward the pool: a provider or trader never receives
//! more than the exact real-number result of the pricing formula. Collected
//! swap fees remain in the pool's reserves, accruing to the share holders.

pub mod error;
pub mod liquidity;
pub mod math;
pub mod pool;
pub mod swap;
