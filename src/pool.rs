use vstd::prelude::*;

use crate::error::ErrorCode;
use crate::ACC_PRECISION;

verus! {

/// The global emission state shared by every pool.
#[derive(Clone, Copy, Debug)]
pub struct StateAccount {
    pub authority: [u8; 32],
    pub reward_mint: [u8; 32],
    pub reward_vault: [u8; 32],
    pub bump: u8,
    /// Sum of the points of every pool that has not been closed.
    pub total_point: u64,
    pub start_time: i64,
    /// Tokens emitted per second, shared among pools by points.
    pub token_per_second: u64,
}

/// One pool: its weight, its stake, and its reward-per-share accumulator,
/// scaled by `ACC_PRECISION`.
#[derive(Clone, Copy, Debug)]
pub struct FarmPoolAccount {
    pub bump: u8,
    pub authority: [u8; 32],
    /// Tokens currently staked in the pool.
    pub amount: u64,
    pub mint: [u8; 32],
    pub vault: [u8; 32],
    pub point: u64,
    pub last_reward_time: i64,
    pub acc_reward_per_share: u128,
    pub amount_multipler: u64,
    pub total_user: u64,
}

/// What one checkpoint adds to the accumulator after `seconds` seconds:
/// `rate * seconds * point * ACC_PRECISION / total_point / amount`, floored at
/// each division; nothing while the pool is empty, weightless or no time passed.
pub open spec fn reward_per_share_delta(
    rate: u64,
    seconds: int,
    point: u64,
    total_point: u64,
    amount: u64,
) -> int {
    if amount > 0 && seconds > 0 && point > 0 {
        (rate as int) * seconds * (point as int) * (ACC_PRECISION as int) / (total_point as int)
            / (amount as int)
    } else {
        0
    }
}

/// The checkpoint at `now` stays within every integer width and divides by a
/// non-zero total.
pub open spec fn update_ok(pool: FarmPoolAccount, state: StateAccount, now: i64) -> bool {
    let seconds = now - pool.last_reward_time;
    &&& 0 <= seconds <= i64::MAX
    &&& (pool.amount > 0 && seconds > 0 && pool.point > 0) ==> (state.total_point > 0 && (
    state.token_per_second as int) * seconds * (pool.point as int) * (ACC_PRECISION as int)
        <= u128::MAX)
    &&& pool.acc_reward_per_share + reward_per_share_delta(
        state.token_per_second,
        seconds,
        pool.point,
        state.total_point,
        pool.amount,
    ) <= u128::MAX
}

/// The pool after a checkpoint at `now`: the accumulator grown by the delta
/// for the time since the last checkpoint, and the checkpoint time moved to
/// `now`.
pub open spec fn updated(pool: FarmPoolAccount, state: StateAccount, now: i64) -> FarmPoolAccount {
    FarmPoolAccount {
        acc_reward_per_share: (pool.acc_reward_per_share + reward_per_share_delta(
            state.token_per_second,
            now - pool.last_reward_time,
            pool.point,
            state.total_point,
            pool.amount,
        )) as u128,
        last_reward_time: now,
        ..pool
    }
}

proof fn lemma_overflow_grows(x: int, y: int)
    requires
        x > u128::MAX,
        y >= 1,
    ensures
        x * y > u128::MAX,
{
    assert(x * y >= x) by (nonlinear_arith)
        requires
            x >= 0,
            y >= 1,
    ;
}

proof fn lemma_nonneg_mul(x: int, y: int)
    requires
        x >= 0,
        y >= 0,
    ensures
        x * y >= 0,
{
    assert(x * y >= 0) by (nonlinear_arith)
        requires
            x >= 0,
            y >= 0,
    ;
}

impl FarmPoolAccount {
    /// Checkpoints the accumulator at `now` against the shared emission state.
    /// Fails with `ArithmeticOverflow`, changing nothing, when `now` is before
    /// the last checkpoint or a checked operation fails.
    pub fn update(&mut self, state: &StateAccount, now: i64) -> (r: Result<(), ErrorCode>)
        ensures
            r is Ok <==> update_ok(*old(self), *state, now),
            r is Ok ==> *final(self) == updated(*old(self), *state, now),
            r is Err ==> r == Err::<(), ErrorCode>(ErrorCode::ArithmeticOverflow) && *final(self)
                == *old(self),
    {
        let seconds_signed = match now.checked_sub(self.last_reward_time) {
            Some(s) => s,
            None => {
                return Err(ErrorCode::ArithmeticOverflow);
            },
        };
        if seconds_signed < 0 {
            return Err(ErrorCode::ArithmeticOverflow);
        }
        let seconds = seconds_signed as u128;
        let ghost s = seconds as int;
        let mut reward_per_share: u128 = 0;
        if self.amount > 0 && seconds > 0 && self.point > 0 {
            let rate = state.token_per_second as u128;
            let point = self.point as u128;
            let by_time = match rate.checked_mul(seconds) {
                Some(v) => v,
                None => {
                    proof {
                        lemma_overflow_grows(rate * s, point as int);
                        lemma_overflow_grows(rate * s * point, ACC_PRECISION as int);
                    }
                    return Err(ErrorCode::ArithmeticOverflow);
                },
            };
            let by_point = match by_time.checked_mul(point) {
                Some(v) => v,
                None => {
                    proof {
                        lemma_overflow_grows(rate * s * point, ACC_PRECISION as int);
                    }
                    return Err(ErrorCode::ArithmeticOverflow);
                },
            };
            let scaled = match by_point.checked_mul(ACC_PRECISION) {
                Some(v) => v,
                None => {
                    return Err(ErrorCode::ArithmeticOverflow);
                },
            };
            if state.total_point == 0 {
                return Err(ErrorCode::ArithmeticOverflow);
            }
            reward_per_share = scaled / (state.total_point as u128) / (self.amount as u128);
        }
        proof {
            lemma_nonneg_mul(s, self.point as int);
        }
        let acc = match self.acc_reward_per_share.checked_add(reward_per_share) {
            Some(v) => v,
            None => {
                return Err(ErrorCode::ArithmeticOverflow);
            },
        };
        self.acc_reward_per_share = acc;
        self.last_reward_time = now;
        Ok(())
    }
}

/// A checkpoint never lowers the accumulator, whatever the rate and however
/// much time passed.
pub proof fn lemma_checkpoint_never_lowers(pool: FarmPoolAccount, state: StateAccount, now: i64)
    requires
        update_ok(pool, state, now),
    ensures
        updated(pool, state, now).acc_reward_per_share >= pool.acc_reward_per_share,
{
    let seconds = now - pool.last_reward_time;
    if pool.amount > 0 && seconds > 0 && pool.point > 0 {
        let rate = state.token_per_second as int;
        let product = rate * seconds * (pool.point as int) * (ACC_PRECISION as int);
        assert(product >= 0) by (nonlinear_arith)
            requires
                rate >= 0,
                seconds > 0,
                pool.point > 0,
                product == rate * seconds * (pool.point as int) * (ACC_PRECISION as int),
        ;
        let total = state.total_point as int;
        let amount = pool.amount as int;
        assert(product / total / amount >= 0) by (nonlinear_arith)
            requires
                product >= 0,
                total > 0,
                amount > 0,
        ;
    }
}

/// The pool after a series of checkpoints, each under its own emission state
/// and at its own time; `None` when one of them fails.
pub open spec fn checkpoint_series(pool: FarmPoolAccount, steps: Seq<(StateAccount, i64)>) -> Option<
    FarmPoolAccount,
>
    decreases steps.len(),
{
    if steps.len() == 0 {
        Some(pool)
    } else {
        match checkpoint_series(pool, steps.drop_last()) {
            None => None,
            Some(p) => {
                let (state, now) = steps.last();
                if update_ok(p, state, now) {
                    Some(updated(p, state, now))
                } else {
                    None
                }
            },
        }
    }
}

/// Across any series of checkpoints the accumulator does not decrease.
pub proof fn lemma_checkpoint_series_monotone(pool: FarmPoolAccount, steps: Seq<(StateAccount, i64)>)
    ensures
        checkpoint_series(pool, steps) matches Some(p) ==> p.acc_reward_per_share
            >= pool.acc_reward_per_share,
    decreases steps.len(),
{
    if steps.len() > 0 {
        lemma_checkpoint_series_monotone(pool, steps.drop_last());
        if let Some(p) = checkpoint_series(pool, steps.drop_last()) {
            let (state, now) = steps.last();
            if update_ok(p, state, now) {
                lemma_checkpoint_never_lowers(p, state, now);
            }
        }
    }
}

} // verus!
