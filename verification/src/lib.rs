//! Verified runtime modules for an adaptive on-chain state system.
//!
//! Each module manages one piece of state (a growth multiplier, a liquidity
//! level, a reserve balance, ...) through the same protocol: validate the
//! input, compute a new value with a fixed smoothing formula, check bounds,
//! persist, append an audit-log entry and record an event.

use vstd::prelude::*;

pub mod arith;
pub mod biosphere;
pub mod bytes;
pub mod growth_model;
pub mod identity;
pub mod interop;
pub mod iot_bridge;
pub mod liquidity_flow;
pub mod marketplace;
pub mod offchain;
pub mod pow;
pub mod predictive_guard;
pub mod reputation;
pub mod reserve_fund;
pub mod reward_engine;
pub mod stability_guard;
pub mod standards;
pub mod store;

verus! {

/// Placeholder clock value used for every audit-log entry; a real time
/// provider would replace it at the host boundary.
pub const FIXED_TIMESTAMP: u64 = 1_640_000_000;

} // verus!
