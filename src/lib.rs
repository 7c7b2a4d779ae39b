use vstd::prelude::*;

pub mod admin;
pub mod error;
pub mod pool;
pub mod staking;
pub mod tier;
pub mod user;

verus! {

/// Scale of the reward-per-share accumulator.
pub const ACC_PRECISION: u128 = 100_000_000_000;

/// One hundred percent, at the scale of tier bonuses.
pub const FULL_100: u64 = 100_000_000_000;

} // verus!
