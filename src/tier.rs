use vstd::prelude::*;

use crate::error::ErrorCode;

verus! {

/// One tier: a lock duration and the bonus that locking for it earns, in
/// units where `FULL_100` is one hundred percent.
#[derive(Clone, Copy, Debug, PartialEq, Eq, Structural, Default)]
pub struct DurationExtraRewardConfig {
    pub duration: i64,
    pub extra_percentage: u64,
}

impl DurationExtraRewardConfig {
    pub fn new(duration: i64, extra_percentage: u64) -> (r: Self)
        ensures
            r.duration == duration,
            r.extra_percentage == extra_percentage,
    {
        DurationExtraRewardConfig { duration, extra_percentage }
    }
}

/// The tier table, with the key of the authority allowed to replace it.
#[derive(Debug)]
pub struct ExtraRewardsAccount {
    pub bump: u8,
    pub authority: [u8; 32],
    pub configs: Vec<DurationExtraRewardConfig>,
}

/// A table is accepted when neither durations nor bonuses ever decrease
/// from one tier to the next.
pub open spec fn tiers_ordered(c: Seq<DurationExtraRewardConfig>) -> bool {
    forall|i: int|
        #![trigger c[i]]
        0 < i < c.len() ==> c[i - 1].duration <= c[i].duration && c[i - 1].extra_percentage
            <= c[i].extra_percentage
}

/// Some tier has exactly this duration.
pub open spec fn has_tier(c: Seq<DurationExtraRewardConfig>, lock_duration: i64) -> bool {
    exists|i: int| 0 <= i < c.len() && #[trigger] c[i].duration == lock_duration
}

/// The bonus of the last tier whose duration does not exceed the lock, or 0
/// when no tier qualifies.
pub open spec fn bonus_for(c: Seq<DurationExtraRewardConfig>, lock_duration: i64) -> u64
    decreases c.len(),
{
    if c.len() == 0 {
        0
    } else if c.last().duration <= lock_duration {
        c.last().extra_percentage
    } else {
        bonus_for(c.drop_last(), lock_duration)
    }
}

impl ExtraRewardsAccount {
    /// Accepts the table exactly when its tiers are ordered.
    pub fn validate(&self) -> (r: Result<(), ErrorCode>)
        ensures
            r is Ok <==> tiers_ordered(self.configs@),
            r is Err ==> r == Err::<(), ErrorCode>(ErrorCode::InvalidTierSequence),
    {
        let n = self.configs.len();
        let mut i: usize = 1;
        while i < n
            invariant
                n == self.configs@.len(),
                1 <= i,
                i <= n || n == 0,
                forall|j: int|
                    #![trigger self.configs@[j]]
                    0 < j < i && j < n ==> self.configs@[j - 1].duration
                        <= self.configs@[j].duration && self.configs@[j - 1].extra_percentage
                        <= self.configs@[j].extra_percentage,
            decreases n - i,
        {
            let previous = self.configs[i - 1];
            let config = self.configs[i];
            if config.duration < previous.duration || config.extra_percentage
                < previous.extra_percentage {
                proof {
                    let k = i as int;
                    assert(self.configs@[k] == config);
                    assert(!tiers_ordered(self.configs@));
                }
                return Err(ErrorCode::InvalidTierSequence);
            }
            i = i + 1;
        }
        Ok(())
    }

    /// Succeeds only when some tier has exactly `lock_duration`.
    pub fn validate_lock_duration(&self, lock_duration: i64) -> (r: Result<(), ErrorCode>)
        ensures
            r is Ok <==> has_tier(self.configs@, lock_duration),
            r is Err ==> r == Err::<(), ErrorCode>(ErrorCode::InvalidLockDuration),
    {
        let mut i: usize = 0;
        while i < self.configs.len()
            invariant
                0 <= i <= self.configs@.len(),
                forall|j: int| 0 <= j < i ==> #[trigger] self.configs@[j].duration != lock_duration,
            decreases self.configs@.len() - i,
        {
            if self.configs[i].duration == lock_duration {
                return Ok(());
            }
            i = i + 1;
        }
        Err(ErrorCode::InvalidLockDuration)
    }

    /// The bonus of the highest qualifying tier: scanning from the last tier
    /// down, the first whose duration is at most `lock_duration`.
    pub fn get_extra_reward_percentage(&self, lock_duration: i64) -> (r: u64)
        ensures
            r == bonus_for(self.configs@, lock_duration),
    {
        let mut i: usize = self.configs.len();
        proof {
            assert(self.configs@.subrange(0, i as int) =~= self.configs@);
        }
        while i > 0
            invariant
                0 <= i <= self.configs@.len(),
                bonus_for(self.configs@, lock_duration) == bonus_for(
                    self.configs@.subrange(0, i as int),
                    lock_duration,
                ),
            decreases i,
        {
            let tier = self.configs[i - 1];
            proof {
                let s = self.configs@.subrange(0, i as int);
                assert(s.drop_last() =~= self.configs@.subrange(0, i - 1));
            }
            if lock_duration >= tier.duration {
                return tier.extra_percentage;
            }
            i = i - 1;
        }
        0
    }
}

} // verus!
