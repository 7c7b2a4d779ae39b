use vstd::prelude::*;

use crate::error::ErrorCode;
use crate::pool::{update_ok, updated, FarmPoolAccount, StateAccount};
use crate::tier::{bonus_for, has_tier, DurationExtraRewardConfig, ExtraRewardsAccount};
use crate::pool::lemma_checkpoint_never_lowers;
use crate::user::{
    entitled, ledger_consistent, lemma_consistent_after_user_change, rebaselined, settled,
    sum_entitled, FarmPoolUserAccount,
};

verus! {

/// Staking `amount` more with lock `lock_duration` at `now`: the lock must be
/// a tier and may not shorten; the pool is checkpointed, the user settled at
/// the bonus of the previous lock, both stakes grow, the lock is set, the debt
/// re-baselined and the stake time moved to `now`.
pub open spec fn stake_result(
    state: StateAccount,
    configs: Seq<DurationExtraRewardConfig>,
    pool: FarmPoolAccount,
    user: FarmPoolUserAccount,
    amount: u64,
    lock_duration: i64,
    now: i64,
) -> Result<(FarmPoolAccount, FarmPoolUserAccount), ErrorCode> {
    if !has_tier(configs, lock_duration) || lock_duration < user.lock_duration {
        Err(ErrorCode::InvalidLockDuration)
    } else if !update_ok(pool, state, now) {
        Err(ErrorCode::ArithmeticOverflow)
    } else {
        let p1 = updated(pool, state, now);
        match settled(user, p1.acc_reward_per_share, bonus_for(configs, user.lock_duration)) {
            Err(e) => Err(e),
            Ok(u1) => {
                if u1.amount + amount > u64::MAX || p1.amount + amount > u64::MAX {
                    Err(ErrorCode::ArithmeticOverflow)
                } else {
                    let p2 = FarmPoolAccount { amount: (p1.amount + amount) as u64, ..p1 };
                    let u2 = FarmPoolUserAccount {
                        amount: (u1.amount + amount) as u64,
                        lock_duration,
                        ..u1
                    };
                    match rebaselined(u2, p2.acc_reward_per_share) {
                        Err(e) => Err(e),
                        Ok(u3) => Ok((p2, FarmPoolUserAccount { last_stake_time: now, ..u3 })),
                    }
                }
            },
        }
    }
}

/// Unstaking `amount` at `now`: it may not exceed the user's stake, and the
/// lock must have run out; the pool is checkpointed, the user settled at the
/// current bonus, both stakes shrink, the lock is cleared when nothing stays
/// staked, the stake time moves to `now` and the debt is re-baselined.
pub open spec fn unstake_result(
    state: StateAccount,
    configs: Seq<DurationExtraRewardConfig>,
    pool: FarmPoolAccount,
    user: FarmPoolUserAccount,
    amount: u64,
    now: i64,
) -> Result<(FarmPoolAccount, FarmPoolUserAccount), ErrorCode> {
    let unlock = user.last_stake_time + user.lock_duration;
    if user.amount < amount {
        Err(ErrorCode::UnstakeOverAmount)
    } else if unlock < i64::MIN || unlock > i64::MAX {
        Err(ErrorCode::ArithmeticOverflow)
    } else if unlock > now {
        Err(ErrorCode::UnderLocked)
    } else if !update_ok(pool, state, now) {
        Err(ErrorCode::ArithmeticOverflow)
    } else {
        let p1 = updated(pool, state, now);
        match settled(user, p1.acc_reward_per_share, bonus_for(configs, user.lock_duration)) {
            Err(e) => Err(e),
            Ok(u1) => {
                if p1.amount < amount {
                    Err(ErrorCode::ArithmeticOverflow)
                } else {
                    let left = (u1.amount - amount) as u64;
                    let p2 = FarmPoolAccount { amount: (p1.amount - amount) as u64, ..p1 };
                    let u2 = FarmPoolUserAccount {
                        last_stake_time: now,
                        amount: left,
                        lock_duration: if left == 0 {
                            0
                        } else {
                            u1.lock_duration
                        },
                        ..u1
                    };
                    match rebaselined(u2, p2.acc_reward_per_share) {
                        Err(e) => Err(e),
                        Ok(u3) => Ok((p2, u3)),
                    }
                }
            },
        }
    }
}

/// Harvesting at `now`: the pool is checkpointed, the user settled, and the
/// whole settled reward, base and bonus, is paid out and zeroed; the debt is
/// re-baselined. The third component is the payout.
pub open spec fn harvest_result(
    state: StateAccount,
    configs: Seq<DurationExtraRewardConfig>,
    pool: FarmPoolAccount,
    user: FarmPoolUserAccount,
    now: i64,
) -> Result<(FarmPoolAccount, FarmPoolUserAccount, u64), ErrorCode> {
    if !update_ok(pool, state, now) {
        Err(ErrorCode::ArithmeticOverflow)
    } else {
        let p1 = updated(pool, state, now);
        match settled(user, p1.acc_reward_per_share, bonus_for(configs, user.lock_duration)) {
            Err(e) => Err(e),
            Ok(u1) => {
                let total = u1.reward_amount + u1.extra_reward;
                if total > u64::MAX {
                    Err(ErrorCode::ArithmeticOverflow)
                } else {
                    let u2 = FarmPoolUserAccount { reward_amount: 0, extra_reward: 0, ..u1 };
                    match rebaselined(u2, p1.acc_reward_per_share) {
                        Err(e) => Err(e),
                        Ok(u3) => Ok((p1, u3, total as u64)),
                    }
                }
            },
        }
    }
}

/// Stakes `amount` more at `now` with lock `lock_duration`. The caller moves
/// `amount` from the user's vault to the pool's once this succeeds.
pub fn stake(
    state: &StateAccount,
    extra_reward_account: &ExtraRewardsAccount,
    pool: &mut FarmPoolAccount,
    user: &mut FarmPoolUserAccount,
    amount: u64,
    lock_duration: i64,
    now: i64,
) -> (r: Result<(), ErrorCode>)
    ensures
        match stake_result(
            *state,
            extra_reward_account.configs@,
            *old(pool),
            *old(user),
            amount,
            lock_duration,
            now,
        ) {
            Ok((p, u)) => r is Ok && *final(pool) == p && *final(user) == u,
            Err(e) => r == Err::<(), ErrorCode>(e) && *final(pool) == *old(pool) && *final(user)
                == *old(user),
        },
{
    if let Err(e) = extra_reward_account.validate_lock_duration(lock_duration) {
        return Err(e);
    }
    if lock_duration < user.lock_duration {
        return Err(ErrorCode::InvalidLockDuration);
    }
    let mut p = *pool;
    let mut u = *user;
    if let Err(e) = p.update(state, now) {
        return Err(e);
    }
    let bonus = extra_reward_account.get_extra_reward_percentage(u.lock_duration);
    if let Err(e) = u.calculate_reward_amount(&p, bonus) {
        return Err(e);
    }
    u.amount = match u.amount.checked_add(amount) {
        Some(v) => v,
        None => {
            return Err(ErrorCode::ArithmeticOverflow);
        },
    };
    p.amount = match p.amount.checked_add(amount) {
        Some(v) => v,
        None => {
            return Err(ErrorCode::ArithmeticOverflow);
        },
    };
    u.lock_duration = lock_duration;
    if let Err(e) = u.calculate_reward_debt(&p) {
        return Err(e);
    }
    u.last_stake_time = now;
    *pool = p;
    *user = u;
    Ok(())
}

/// Unstakes `amount` at `now`. The caller moves `amount` from the pool's
/// vault back to the user's once this succeeds.
pub fn unstake(
    state: &StateAccount,
    extra_reward_account: &ExtraRewardsAccount,
    pool: &mut FarmPoolAccount,
    user: &mut FarmPoolUserAccount,
    amount: u64,
    now: i64,
) -> (r: Result<(), ErrorCode>)
    ensures
        match unstake_result(*state, extra_reward_account.configs@, *old(pool), *old(user), amount, now) {
            Ok((p, u)) => r is Ok && *final(pool) == p && *final(user) == u,
            Err(e) => r == Err::<(), ErrorCode>(e) && *final(pool) == *old(pool) && *final(user)
                == *old(user),
        },
{
    if user.amount < amount {
        return Err(ErrorCode::UnstakeOverAmount);
    }
    let unlock = match user.last_stake_time.checked_add(user.lock_duration) {
        Some(v) => v,
        None => {
            return Err(ErrorCode::ArithmeticOverflow);
        },
    };
    if unlock > now {
        return Err(ErrorCode::UnderLocked);
    }
    let mut p = *pool;
    let mut u = *user;
    if let Err(e) = p.update(state, now) {
        return Err(e);
    }
    let bonus = extra_reward_account.get_extra_reward_percentage(u.lock_duration);
    if let Err(e) = u.calculate_reward_amount(&p, bonus) {
        return Err(e);
    }
    if p.amount < amount {
        return Err(ErrorCode::ArithmeticOverflow);
    }
    u.last_stake_time = now;
    u.amount = u.amount - amount;
    p.amount = p.amount - amount;
    if u.amount == 0 {
        u.lock_duration = 0;
    }
    if let Err(e) = u.calculate_reward_debt(&p) {
        return Err(e);
    }
    *pool = p;
    *user = u;
    Ok(())
}

/// Harvests at `now` and returns the payout, which the caller moves from the
/// reward vault to the user's once this succeeds.
pub fn harvest(
    state: &StateAccount,
    extra_reward_account: &ExtraRewardsAccount,
    pool: &mut FarmPoolAccount,
    user: &mut FarmPoolUserAccount,
    now: i64,
) -> (r: Result<u64, ErrorCode>)
    ensures
        match harvest_result(*state, extra_reward_account.configs@, *old(pool), *old(user), now) {
            Ok((p, u, paid)) => r == Ok::<u64, ErrorCode>(paid) && *final(pool) == p && *final(user)
                == u,
            Err(e) => r == Err::<u64, ErrorCode>(e) && *final(pool) == *old(pool) && *final(user)
                == *old(user),
        },
{
    let mut p = *pool;
    let mut u = *user;
    if let Err(e) = p.update(state, now) {
        return Err(e);
    }
    let bonus = extra_reward_account.get_extra_reward_percentage(u.lock_duration);
    if let Err(e) = u.calculate_reward_amount(&p, bonus) {
        return Err(e);
    }
    let total = match u.reward_amount.checked_add(u.extra_reward) {
        Some(v) => v,
        None => {
            return Err(ErrorCode::ArithmeticOverflow);
        },
    };
    if total > u64::MAX as u128 {
        return Err(ErrorCode::ArithmeticOverflow);
    }
    u.reward_amount = 0;
    u.extra_reward = 0;
    if let Err(e) = u.calculate_reward_debt(&p) {
        return Err(e);
    }
    *pool = p;
    *user = u;
    Ok(total as u64)
}

/// A checkpoint at the time of the last one changes nothing.
proof fn lemma_checkpoint_same_time(pool: FarmPoolAccount, state: StateAccount)
    ensures
        update_ok(pool, state, pool.last_reward_time),
        updated(pool, state, pool.last_reward_time) == pool,
{
}

/// Settling right after a re-baseline at the same accumulator adds nothing.
proof fn lemma_settle_after_rebaseline(user: FarmPoolUserAccount, acc: u128, extra_percentage: u64)
    requires
        rebaselined(user, acc) is Ok,
    ensures
        settled(rebaselined(user, acc)->Ok_0, acc, extra_percentage) == Ok::<
            FarmPoolUserAccount,
            ErrorCode,
        >(rebaselined(user, acc)->Ok_0),
{
    let u = rebaselined(user, acc)->Ok_0;
    assert(0 * (extra_percentage as int) == 0);
    assert(u.reward_debt == entitled(u.amount, acc)) by {
        crate::user::lemma_entitled_bounds(user.amount, acc);
    }
}

/// A second harvest right after a first, at the same time, pays nothing and
/// changes nothing.
pub proof fn lemma_second_harvest_pays_nothing(
    state: StateAccount,
    configs: Seq<DurationExtraRewardConfig>,
    pool: FarmPoolAccount,
    user: FarmPoolUserAccount,
    now: i64,
)
    requires
        harvest_result(state, configs, pool, user, now) is Ok,
    ensures
        ({
            let (p, u, paid) = harvest_result(state, configs, pool, user, now)->Ok_0;
            harvest_result(state, configs, p, u, now) == Ok::<
                (FarmPoolAccount, FarmPoolUserAccount, u64),
                ErrorCode,
            >((p, u, 0))
        }),
{
    let (p, u, paid) = harvest_result(state, configs, pool, user, now)->Ok_0;
    lemma_checkpoint_same_time(p, state);
    let u1 = settled(user, p.acc_reward_per_share, bonus_for(configs, user.lock_duration))->Ok_0;
    let u2 = FarmPoolUserAccount { reward_amount: 0, extra_reward: 0, ..u1 };
    lemma_settle_after_rebaseline(u2, p.acc_reward_per_share, bonus_for(configs, u.lock_duration));
}

/// Staking and then, at the same time, unstaking the same amount adds no
/// reward: the settled rewards stay as the stake left them, the stake is
/// back where it was, and the debt is what that stake is entitled to (zero
/// when nothing stays staked).
pub proof fn lemma_stake_unstake_same_time(
    state: StateAccount,
    configs: Seq<DurationExtraRewardConfig>,
    pool: FarmPoolAccount,
    user: FarmPoolUserAccount,
    amount: u64,
    lock_duration: i64,
    now: i64,
)
    requires
        stake_result(state, configs, pool, user, amount, lock_duration, now) is Ok,
    ensures
        ({
            let (p1, u1) = stake_result(state, configs, pool, user, amount, lock_duration, now)->Ok_0;
            unstake_result(state, configs, p1, u1, amount, now) matches Ok((p2, u2)) ==> {
                &&& u2.reward_amount == u1.reward_amount
                &&& u2.extra_reward == u1.extra_reward
                &&& u2.amount == user.amount
                &&& p2.amount == pool.amount
                &&& p2.acc_reward_per_share == p1.acc_reward_per_share
                &&& u2.reward_debt == entitled(user.amount, p2.acc_reward_per_share)
                &&& user.amount == 0 ==> u2.reward_debt == 0 && u2.lock_duration == 0
            }
        }),
{
    let (p1, u1) = stake_result(state, configs, pool, user, amount, lock_duration, now)->Ok_0;
    lemma_checkpoint_same_time(p1, state);
    let acc = p1.acc_reward_per_share;
    let s1 = settled(user, acc, bonus_for(configs, user.lock_duration))->Ok_0;
    let u2 = FarmPoolUserAccount { amount: (s1.amount + amount) as u64, lock_duration, ..s1 };
    crate::user::lemma_entitled_bounds(u2.amount, acc);
    assert(0 * (bonus_for(configs, u1.lock_duration) as int) == 0);
    if user.amount == 0 {
        assert((user.amount as int) * (acc as int) == 0) by (nonlinear_arith)
            requires
                user.amount == 0,
        ;
    }
}

/// Stake, unstake and harvest never lower the pool's accumulator.
pub proof fn lemma_transactions_keep_accumulator(
    state: StateAccount,
    configs: Seq<DurationExtraRewardConfig>,
    pool: FarmPoolAccount,
    user: FarmPoolUserAccount,
    amount: u64,
    lock_duration: i64,
    now: i64,
)
    ensures
        stake_result(state, configs, pool, user, amount, lock_duration, now) matches Ok((p, u))
            ==> p.acc_reward_per_share >= pool.acc_reward_per_share,
        unstake_result(state, configs, pool, user, amount, now) matches Ok((p, u))
            ==> p.acc_reward_per_share >= pool.acc_reward_per_share,
        harvest_result(state, configs, pool, user, now) matches Ok((p, u, paid))
            ==> p.acc_reward_per_share >= pool.acc_reward_per_share,
{
    if update_ok(pool, state, now) {
        lemma_checkpoint_never_lowers(pool, state, now);
    }
}

/// Stake, unstake and harvest of the user at index `k` keep the pool and its
/// users' records consistent, so that afterwards too the users' entitlements
/// add up to no more than the pool's: no reward is credited beyond what the
/// pool's stake earned.
pub proof fn lemma_transactions_keep_ledger_consistent(
    state: StateAccount,
    configs: Seq<DurationExtraRewardConfig>,
    pool: FarmPoolAccount,
    users: Seq<FarmPoolUserAccount>,
    k: int,
    amount: u64,
    lock_duration: i64,
    now: i64,
)
    requires
        ledger_consistent(pool, users),
        0 <= k < users.len(),
    ensures
        stake_result(state, configs, pool, users[k], amount, lock_duration, now) matches Ok(
            (p, u),
        ) ==> ledger_consistent(p, users.update(k, u)) && sum_entitled(
            users.update(k, u),
            p.acc_reward_per_share,
        ) <= entitled(p.amount, p.acc_reward_per_share),
        unstake_result(state, configs, pool, users[k], amount, now) matches Ok((p, u))
            ==> ledger_consistent(p, users.update(k, u)) && sum_entitled(
            users.update(k, u),
            p.acc_reward_per_share,
        ) <= entitled(p.amount, p.acc_reward_per_share),
        harvest_result(state, configs, pool, users[k], now) matches Ok((p, u, paid))
            ==> ledger_consistent(p, users.update(k, u)) && sum_entitled(
            users.update(k, u),
            p.acc_reward_per_share,
        ) <= entitled(p.amount, p.acc_reward_per_share),
{
    let user = users[k];
    if update_ok(pool, state, now) {
        lemma_checkpoint_never_lowers(pool, state, now);
    }
    if let Ok((p, u)) = stake_result(state, configs, pool, user, amount, lock_duration, now) {
        lemma_consistent_after_user_change(pool, users, k, p, u);
    }
    if let Ok((p, u)) = unstake_result(state, configs, pool, user, amount, now) {
        lemma_consistent_after_user_change(pool, users, k, p, u);
    }
    if let Ok((p, u, paid)) = harvest_result(state, configs, pool, user, now) {
        lemma_consistent_after_user_change(pool, users, k, p, u);
    }
}

/// Staking is gated by the tier table: a lock that is not exactly a tier,
/// or that is shorter than the user's current lock, is refused with
/// `InvalidLockDuration`; an exact tier at or above the current lock is
/// never refused for its lock, and on success becomes the user's lock.
pub proof fn lemma_stake_tier_gating(
    state: StateAccount,
    configs: Seq<DurationExtraRewardConfig>,
    pool: FarmPoolAccount,
    user: FarmPoolUserAccount,
    amount: u64,
    lock_duration: i64,
    now: i64,
)
    ensures
        !has_tier(configs, lock_duration) ==> stake_result(
            state,
            configs,
            pool,
            user,
            amount,
            lock_duration,
            now,
        ) == Err::<(FarmPoolAccount, FarmPoolUserAccount), ErrorCode>(
            ErrorCode::InvalidLockDuration,
        ),
        lock_duration < user.lock_duration ==> stake_result(
            state,
            configs,
            pool,
            user,
            amount,
            lock_duration,
            now,
        ) == Err::<(FarmPoolAccount, FarmPoolUserAccount), ErrorCode>(
            ErrorCode::InvalidLockDuration,
        ),
        has_tier(configs, lock_duration) && lock_duration >= user.lock_duration ==> stake_result(
            state,
            configs,
            pool,
            user,
            amount,
            lock_duration,
            now,
        ) != Err::<(FarmPoolAccount, FarmPoolUserAccount), ErrorCode>(
            ErrorCode::InvalidLockDuration,
        ),
        stake_result(state, configs, pool, user, amount, lock_duration, now) matches Ok((p, u))
            ==> u.lock_duration == lock_duration && u.amount == user.amount + amount,
{
    let r = stake_result(state, configs, pool, user, amount, lock_duration, now);
    if has_tier(configs, lock_duration) && lock_duration >= user.lock_duration && update_ok(
        pool,
        state,
        now,
    ) {
        let p1 = updated(pool, state, now);
        let s = settled(user, p1.acc_reward_per_share, bonus_for(configs, user.lock_duration));
        if let Err(e) = s {
            assert(e == ErrorCode::ArithmeticOverflow || e == ErrorCode::InconsistentRewardDebt);
        }
    }
}

/// Unstaking is gated by the lock: within the user's stake, an unstake
/// before `last_stake_time + lock_duration` is refused with `UnderLocked`,
/// and one at that time or later is never refused for the lock, and on
/// success takes `amount` off the user's stake and the pool's.
pub proof fn lemma_unstake_time_lock(
    state: StateAccount,
    configs: Seq<DurationExtraRewardConfig>,
    pool: FarmPoolAccount,
    user: FarmPoolUserAccount,
    amount: u64,
    now: i64,
)
    requires
        amount <= user.amount,
        i64::MIN <= user.last_stake_time + user.lock_duration <= i64::MAX,
    ensures
        now < user.last_stake_time + user.lock_duration ==> unstake_result(
            state,
            configs,
            pool,
            user,
            amount,
            now,
        ) == Err::<(FarmPoolAccount, FarmPoolUserAccount), ErrorCode>(ErrorCode::UnderLocked),
        now >= user.last_stake_time + user.lock_duration ==> unstake_result(
            state,
            configs,
            pool,
            user,
            amount,
            now,
        ) != Err::<(FarmPoolAccount, FarmPoolUserAccount), ErrorCode>(ErrorCode::UnderLocked),
        unstake_result(state, configs, pool, user, amount, now) matches Ok((p, u)) ==> u.amount
            == user.amount - amount && p.amount == pool.amount - amount,
{
    if now >= user.last_stake_time + user.lock_duration && update_ok(pool, state, now) {
        let p1 = updated(pool, state, now);
        let s = settled(user, p1.acc_reward_per_share, bonus_for(configs, user.lock_duration));
        if let Err(e) = s {
            assert(e == ErrorCode::ArithmeticOverflow || e == ErrorCode::InconsistentRewardDebt);
        }
    }
}

} // verus!
