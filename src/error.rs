use vstd::prelude::*;

verus! {

/// Every way an operation of the ledger can be refused. A refused operation
/// leaves all of its records as they were.
#[derive(Clone, Copy, Debug, PartialEq, Eq, Structural)]
pub enum ErrorCode {
    /// The requested unstake exceeds the user's staked amount.
    UnstakeOverAmount,
    /// The unstake comes before `last_stake_time + lock_duration`.
    UnderLocked,
    /// The pool to close still holds stake.
    WorkingPool,
    /// The lock duration is not a tier of the table, or is shorter than the
    /// user's current lock.
    InvalidLockDuration,
    /// A tier table whose durations or bonuses decrease somewhere.
    InvalidTierSequence,
    /// A checked integer operation left its width (or divided by zero).
    ArithmeticOverflow,
    /// Fatal: a user's reward debt exceeds what the pool's accumulator grants
    /// its stake, so the accumulator went backwards or the records disagree.
    InconsistentRewardDebt,
}

} // verus!
