use vstd::prelude::*;

use crate::error::ErrorCode;
use crate::pool::{update_ok, updated, FarmPoolAccount, StateAccount};
use crate::tier::{tiers_ordered, DurationExtraRewardConfig, ExtraRewardsAccount};

verus! {

/// Every pool of the list can be checkpointed at `now`.
pub open spec fn all_update_ok(pools: Seq<FarmPoolAccount>, state: StateAccount, now: i64) -> bool {
    forall|i: int| 0 <= i < pools.len() ==> update_ok(#[trigger] pools[i], state, now)
}

/// Each pool of the list checkpointed at `now`.
pub open spec fn all_updated(pools: Seq<FarmPoolAccount>, state: StateAccount, now: i64) -> Seq<
    FarmPoolAccount,
> {
    pools.map_values(|p: FarmPoolAccount| updated(p, state, now))
}

/// A fresh pool: no stake, no users, an empty accumulator, checkpointed at
/// `now`.
pub open spec fn new_pool(
    bump: u8,
    authority: [u8; 32],
    mint: [u8; 32],
    vault: [u8; 32],
    point: u64,
    amount_multipler: u64,
    now: i64,
) -> FarmPoolAccount {
    FarmPoolAccount {
        bump,
        authority,
        amount: 0,
        mint,
        vault,
        point,
        last_reward_time: now,
        acc_reward_per_share: 0,
        amount_multipler,
        total_user: 0,
    }
}

/// Checkpoints every pool of the list at `now`, all of them or none.
pub fn checkpoint_pools(pools: &mut Vec<FarmPoolAccount>, state: &StateAccount, now: i64) -> (r:
    Result<(), ErrorCode>)
    ensures
        r is Ok <==> all_update_ok(old(pools)@, *state, now),
        r is Ok ==> final(pools)@ == all_updated(old(pools)@, *state, now),
        r is Err ==> r == Err::<(), ErrorCode>(ErrorCode::ArithmeticOverflow) && final(pools)@
            == old(pools)@,
{
    let mut out: Vec<FarmPoolAccount> = Vec::new();
    let mut i: usize = 0;
    while i < pools.len()
        invariant
            0 <= i <= pools@.len(),
            out@.len() == i,
            forall|j: int| 0 <= j < i ==> update_ok(#[trigger] pools@[j], *state, now),
            forall|j: int| 0 <= j < i ==> #[trigger] out@[j] == updated(pools@[j], *state, now),
        decreases pools@.len() - i,
    {
        let mut p = pools[i];
        if let Err(e) = p.update(state, now) {
            return Err(e);
        }
        out.push(p);
        i = i + 1;
    }
    proof {
        assert(out@ =~= all_updated(pools@, *state, now));
    }
    *pools = out;
    Ok(())
}

/// A new emission state with no pools yet.
pub fn create_state(
    bump: u8,
    token_per_second: u64,
    authority: [u8; 32],
    reward_mint: [u8; 32],
    reward_vault: [u8; 32],
    now: i64,
) -> (r: StateAccount)
    ensures
        r == (StateAccount {
            authority,
            reward_mint,
            reward_vault,
            bump,
            total_point: 0,
            start_time: now,
            token_per_second,
        }),
{
    StateAccount {
        authority,
        reward_mint,
        reward_vault,
        bump,
        total_point: 0,
        start_time: now,
        token_per_second,
    }
}

/// A tier table, accepted only when its tiers are ordered.
pub fn create_extra_reward_configs(
    bump: u8,
    authority: [u8; 32],
    configs: Vec<DurationExtraRewardConfig>,
) -> (r: Result<ExtraRewardsAccount, ErrorCode>)
    ensures
        r is Ok <==> tiers_ordered(configs@),
        r matches Ok(a) ==> a.bump == bump && a.authority == authority && a.configs@ == configs@,
        r matches Err(e) ==> e == ErrorCode::InvalidTierSequence,
{
    let account = ExtraRewardsAccount { bump, authority, configs };
    match account.validate() {
        Ok(()) => Ok(account),
        Err(e) => Err(e),
    }
}

/// Replaces the tiers of the table, only with an ordered sequence; a refused
/// sequence leaves the table as it was.
pub fn set_extra_reward_configs(
    extra_reward_account: &mut ExtraRewardsAccount,
    configs: Vec<DurationExtraRewardConfig>,
) -> (r: Result<(), ErrorCode>)
    ensures
        r is Ok <==> tiers_ordered(configs@),
        final(extra_reward_account).bump == old(extra_reward_account).bump,
        final(extra_reward_account).authority == old(extra_reward_account).authority,
        r is Ok ==> final(extra_reward_account).configs@ == configs@,
        r is Err ==> r == Err::<(), ErrorCode>(ErrorCode::InvalidTierSequence)
            && final(extra_reward_account).configs@ == old(extra_reward_account).configs@,
{
    let candidate = ExtraRewardsAccount {
        bump: extra_reward_account.bump,
        authority: extra_reward_account.authority,
        configs,
    };
    match candidate.validate() {
        Ok(()) => {
            *extra_reward_account = candidate;
            Ok(())
        },
        Err(e) => Err(e),
    }
}

/// Funding a pool with `amount`: the amount is added to the pool's points
/// and to the total, then the pool is checkpointed under the new weights.
pub open spec fn fund_result(
    state: StateAccount,
    pool: FarmPoolAccount,
    amount: u64,
    now: i64,
) -> Result<(StateAccount, FarmPoolAccount), ErrorCode> {
    if state.total_point + amount > u64::MAX || pool.point + amount > u64::MAX {
        Err(ErrorCode::ArithmeticOverflow)
    } else {
        let s1 = StateAccount { total_point: (state.total_point + amount) as u64, ..state };
        let p1 = FarmPoolAccount { point: (pool.point + amount) as u64, ..pool };
        if update_ok(p1, s1, now) {
            Ok((s1, updated(p1, s1, now)))
        } else {
            Err(ErrorCode::ArithmeticOverflow)
        }
    }
}

/// Books `amount` of reward funding into the pool at `now`, once the caller
/// has moved it into the reward vault.
pub fn fund_reward_token(
    state: &mut StateAccount,
    pool: &mut FarmPoolAccount,
    amount: u64,
    now: i64,
) -> (r: Result<(), ErrorCode>)
    ensures
        match fund_result(*old(state), *old(pool), amount, now) {
            Ok((s, p)) => r is Ok && *final(state) == s && *final(pool) == p,
            Err(e) => r == Err::<(), ErrorCode>(e) && *final(state) == *old(state) && *final(pool)
                == *old(pool),
        },
{
    let mut s = *state;
    let mut p = *pool;
    s.total_point = match s.total_point.checked_add(amount) {
        Some(v) => v,
        None => {
            return Err(ErrorCode::ArithmeticOverflow);
        },
    };
    p.point = match p.point.checked_add(amount) {
        Some(v) => v,
        None => {
            return Err(ErrorCode::ArithmeticOverflow);
        },
    };
    if let Err(e) = p.update(&s, now) {
        return Err(e);
    }
    *state = s;
    *pool = p;
    Ok(())
}

/// Checkpoints every pool the caller lists, under the old rate, then sets the
/// new rate. The list must hold every active pool: one left out will later
/// be credited at the new rate for time that passed under the old one.
pub fn change_tokens_per_second(
    state: &mut StateAccount,
    pools: &mut Vec<FarmPoolAccount>,
    token_per_second: u64,
    now: i64,
) -> (r: Result<(), ErrorCode>)
    ensures
        r is Ok <==> all_update_ok(old(pools)@, *old(state), now),
        r is Ok ==> final(pools)@ == all_updated(old(pools)@, *old(state), now) && *final(state)
            == (StateAccount { token_per_second, ..*old(state) }),
        r is Err ==> r == Err::<(), ErrorCode>(ErrorCode::ArithmeticOverflow) && final(pools)@
            == old(pools)@ && *final(state) == *old(state),
{
    if let Err(e) = checkpoint_pools(pools, state, now) {
        return Err(e);
    }
    state.token_per_second = token_per_second;
    Ok(())
}

/// Checkpoints the other pools the caller lists, then opens a pool of weight
/// `point` and adds it to the total. The list must hold every active pool.
pub fn create_pool(
    state: &mut StateAccount,
    others: &mut Vec<FarmPoolAccount>,
    bump: u8,
    point: u64,
    amount_multipler: u64,
    authority: [u8; 32],
    mint: [u8; 32],
    vault: [u8; 32],
    now: i64,
) -> (r: Result<FarmPoolAccount, ErrorCode>)
    ensures
        r is Ok <==> all_update_ok(old(others)@, *old(state), now) && old(state).total_point
            + point <= u64::MAX,
        r matches Ok(p) ==> p == new_pool(bump, authority, mint, vault, point, amount_multipler, now)
            && final(others)@ == all_updated(old(others)@, *old(state), now) && *final(state) == (
        StateAccount { total_point: (old(state).total_point + point) as u64, ..*old(state) }),
        r matches Err(e) ==> e == ErrorCode::ArithmeticOverflow && final(others)@ == old(others)@
            && *final(state) == *old(state),
{
    let total_point = match state.total_point.checked_add(point) {
        Some(v) => v,
        None => {
            return Err(ErrorCode::ArithmeticOverflow);
        },
    };
    if let Err(e) = checkpoint_pools(others, state, now) {
        return Err(e);
    }
    state.total_point = total_point;
    Ok(
        FarmPoolAccount {
            bump,
            authority,
            amount: 0,
            mint,
            vault,
            point,
            last_reward_time: now,
            acc_reward_per_share: 0,
            amount_multipler,
            total_user: 0,
        },
    )
}

/// Checkpoints the other pools the caller lists, then retires `pool`'s
/// points from the total; a pool that still holds stake cannot close.
pub fn close_pool(
    state: &mut StateAccount,
    others: &mut Vec<FarmPoolAccount>,
    pool: &FarmPoolAccount,
    now: i64,
) -> (r: Result<(), ErrorCode>)
    ensures
        !all_update_ok(old(others)@, *old(state), now) ==> r == Err::<(), ErrorCode>(
            ErrorCode::ArithmeticOverflow,
        ),
        all_update_ok(old(others)@, *old(state), now) && pool.amount != 0 ==> r == Err::<
            (),
            ErrorCode,
        >(ErrorCode::WorkingPool),
        all_update_ok(old(others)@, *old(state), now) && pool.amount == 0 && old(state).total_point
            < pool.point ==> r == Err::<(), ErrorCode>(ErrorCode::ArithmeticOverflow),
        r is Ok <==> all_update_ok(old(others)@, *old(state), now) && pool.amount == 0 && old(
            state,
        ).total_point >= pool.point,
        r is Ok ==> final(others)@ == all_updated(old(others)@, *old(state), now) && *final(state)
            == (StateAccount {
            total_point: (old(state).total_point - pool.point) as u64,
            ..*old(state)
        }),
        r is Err ==> final(others)@ == old(others)@ && *final(state) == *old(state),
{
    let mut checked = others.clone();
    if let Err(e) = checkpoint_pools(&mut checked, state, now) {
        return Err(e);
    }
    if pool.amount != 0 {
        return Err(ErrorCode::WorkingPool);
    }
    if state.total_point < pool.point {
        return Err(ErrorCode::ArithmeticOverflow);
    }
    state.total_point = state.total_point - pool.point;
    *others = checked;
    Ok(())
}

/// Checkpoints the other pools the caller lists and `pool` itself, then sets
/// `pool`'s points to `point` and moves the total by the difference. The list
/// must hold every other active pool.
pub fn change_pool_point(
    state: &mut StateAccount,
    others: &mut Vec<FarmPoolAccount>,
    pool: &mut FarmPoolAccount,
    point: u64,
    now: i64,
) -> (r: Result<(), ErrorCode>)
    ensures
        r is Ok <==> all_update_ok(old(others)@, *old(state), now) && update_ok(
            *old(pool),
            *old(state),
            now,
        ) && old(state).total_point >= old(pool).point && old(state).total_point - old(pool).point
            + point <= u64::MAX,
        r is Ok ==> final(others)@ == all_updated(old(others)@, *old(state), now) && *final(pool)
            == (FarmPoolAccount { point, ..updated(*old(pool), *old(state), now) })
            && *final(state) == (StateAccount {
            total_point: (old(state).total_point - old(pool).point + point) as u64,
            ..*old(state)
        }),
        r is Err ==> r == Err::<(), ErrorCode>(ErrorCode::ArithmeticOverflow) && final(others)@
            == old(others)@ && *final(pool) == *old(pool) && *final(state) == *old(state),
{
    if state.total_point < pool.point {
        return Err(ErrorCode::ArithmeticOverflow);
    }
    let total_point = match (state.total_point - pool.point).checked_add(point) {
        Some(v) => v,
        None => {
            return Err(ErrorCode::ArithmeticOverflow);
        },
    };
    let mut p = *pool;
    if let Err(e) = p.update(state, now) {
        return Err(e);
    }
    if let Err(e) = checkpoint_pools(others, state, now) {
        return Err(e);
    }
    p.point = point;
    state.total_point = total_point;
    *pool = p;
    Ok(())
}

/// Sets the pool's amount multiplier; nothing else changes.
pub fn change_pool_amount_multipler(pool: &mut FarmPoolAccount, amount_multipler: u64)
    ensures
        *final(pool) == (FarmPoolAccount { amount_multipler, ..*old(pool) }),
{
    pool.amount_multipler = amount_multipler;
}

/// The sum of the points of a list of pools.
pub open spec fn sum_points(pools: Seq<FarmPoolAccount>) -> int
    decreases pools.len(),
{
    if pools.len() == 0 {
        0
    } else {
        sum_points(pools.drop_last()) + pools.last().point
    }
}

/// Checkpointing leaves every pool's points as they were.
proof fn lemma_checkpoints_keep_points(pools: Seq<FarmPoolAccount>, state: StateAccount, now: i64)
    ensures
        sum_points(all_updated(pools, state, now)) == sum_points(pools),
    decreases pools.len(),
{
    if pools.len() > 0 {
        lemma_checkpoints_keep_points(pools.drop_last(), state, now);
        assert(all_updated(pools, state, now).drop_last() =~= all_updated(
            pools.drop_last(),
            state,
            now,
        ));
    }
}

/// Opening a pool keeps the total equal to the sum of the active pools'
/// points: the pools that were checkpointed, and the new one.
pub proof fn lemma_create_pool_keeps_weights(
    state: StateAccount,
    others: Seq<FarmPoolAccount>,
    point: u64,
    new: FarmPoolAccount,
    now: i64,
)
    requires
        state.total_point == sum_points(others),
        new.point == point,
    ensures
        state.total_point + point == sum_points(all_updated(others, state, now).push(new)),
{
    lemma_checkpoints_keep_points(others, state, now);
    assert(all_updated(others, state, now).push(new).drop_last() =~= all_updated(
        others,
        state,
        now,
    ));
}

/// Closing a pool keeps the total equal to the sum of the points of the
/// pools that stay active.
pub proof fn lemma_close_pool_keeps_weights(
    state: StateAccount,
    others: Seq<FarmPoolAccount>,
    pool: FarmPoolAccount,
    now: i64,
)
    requires
        state.total_point == sum_points(others.push(pool)),
    ensures
        state.total_point - pool.point == sum_points(all_updated(others, state, now)),
{
    lemma_checkpoints_keep_points(others, state, now);
    assert(others.push(pool).drop_last() =~= others);
}

/// Re-weighting a pool keeps the total equal to the sum of the active pools'
/// points.
pub proof fn lemma_change_pool_point_keeps_weights(
    state: StateAccount,
    others: Seq<FarmPoolAccount>,
    pool: FarmPoolAccount,
    point: u64,
    now: i64,
)
    requires
        state.total_point == sum_points(others.push(pool)),
    ensures
        state.total_point - pool.point + point == sum_points(
            all_updated(others, state, now).push(
                (FarmPoolAccount { point, ..updated(pool, state, now) }),
            ),
        ),
{
    lemma_checkpoints_keep_points(others, state, now);
    assert(others.push(pool).drop_last() =~= others);
    let after = all_updated(others, state, now).push(
        FarmPoolAccount { point, ..updated(pool, state, now) },
    );
    assert(after.drop_last() =~= all_updated(others, state, now));
}

/// Funding a pool keeps the total equal to the sum of the active pools'
/// points.
pub proof fn lemma_fund_keeps_weights(
    state: StateAccount,
    others: Seq<FarmPoolAccount>,
    pool: FarmPoolAccount,
    amount: u64,
    now: i64,
)
    requires
        state.total_point == sum_points(others.push(pool)),
    ensures
        fund_result(state, pool, amount, now) matches Ok((s, p)) ==> s.total_point == sum_points(
            others.push(p),
        ),
{
    assert(others.push(pool).drop_last() =~= others);
    if let Ok((s, p)) = fund_result(state, pool, amount, now) {
        assert(others.push(p).drop_last() =~= others);
    }
}

/// Removing one pool from a list takes exactly its points from the sum.
proof fn lemma_sum_points_remove(pools: Seq<FarmPoolAccount>, i: int)
    requires
        0 <= i < pools.len(),
    ensures
        sum_points(pools) == sum_points(pools.remove(i)) + pools[i].point,
    decreases pools.len(),
{
    if i < pools.len() - 1 {
        let rest = pools.drop_last();
        lemma_sum_points_remove(rest, i);
        assert(pools.remove(i).drop_last() =~= rest.remove(i));
    } else {
        assert(pools.remove(i) =~= pools.drop_last());
    }
}

/// One change to the set of active pools: opening a pool, closing the pool
/// at an index, or giving the pool at an index new points.
#[derive(Clone, Copy)]
pub enum PointChange {
    Create(FarmPoolAccount),
    Close(usize),
    Reweight(usize, u64),
}

/// The total and the active pools after one change made at `now` under
/// `state`, as `create_pool`, `close_pool` and `change_pool_point` make it
/// when they succeed, the other active pools being the list they checkpoint.
/// A change at an index outside the list changes nothing.
pub open spec fn apply_point_change(
    total: int,
    pools: Seq<FarmPoolAccount>,
    change: PointChange,
    state: StateAccount,
    now: i64,
) -> (int, Seq<FarmPoolAccount>) {
    match change {
        PointChange::Create(new) => (total + new.point, all_updated(pools, state, now).push(new)),
        PointChange::Close(i) => if i < pools.len() {
            (total - pools[i as int].point, all_updated(pools.remove(i as int), state, now))
        } else {
            (total, pools)
        },
        PointChange::Reweight(i, point) => if i < pools.len() {
            (
                total - pools[i as int].point + point,
                all_updated(pools.remove(i as int), state, now).push(
                    FarmPoolAccount { point, ..updated(pools[i as int], state, now) },
                ),
            )
        } else {
            (total, pools)
        },
    }
}

/// The total and the active pools after a series of changes, each with the
/// emission state and the time it was made under.
pub open spec fn apply_point_changes(
    total: int,
    pools: Seq<FarmPoolAccount>,
    changes: Seq<(PointChange, StateAccount, i64)>,
) -> (int, Seq<FarmPoolAccount>)
    decreases changes.len(),
{
    if changes.len() == 0 {
        (total, pools)
    } else {
        let (t, ps) = apply_point_changes(total, pools, changes.drop_last());
        let (change, state, now) = changes.last();
        apply_point_change(t, ps, change, state, now)
    }
}

/// After any series of openings, closings and re-weightings, the total
/// still equals the sum of the points of the active pools.
pub proof fn lemma_point_changes_keep_weights(
    total: int,
    pools: Seq<FarmPoolAccount>,
    changes: Seq<(PointChange, StateAccount, i64)>,
)
    requires
        total == sum_points(pools),
    ensures
        apply_point_changes(total, pools, changes).0 == sum_points(
            apply_point_changes(total, pools, changes).1,
        ),
    decreases changes.len(),
{
    if changes.len() > 0 {
        lemma_point_changes_keep_weights(total, pools, changes.drop_last());
        let (t, ps) = apply_point_changes(total, pools, changes.drop_last());
        let (change, state, now) = changes.last();
        match change {
            PointChange::Create(new) => {
                lemma_checkpoints_keep_points(ps, state, now);
                assert(all_updated(ps, state, now).push(new).drop_last() =~= all_updated(
                    ps,
                    state,
                    now,
                ));
            },
            PointChange::Close(i) => {
                if i < ps.len() {
                    lemma_sum_points_remove(ps, i as int);
                    lemma_checkpoints_keep_points(ps.remove(i as int), state, now);
                }
            },
            PointChange::Reweight(i, point) => {
                if i < ps.len() {
                    lemma_sum_points_remove(ps, i as int);
                    let rest = all_updated(ps.remove(i as int), state, now);
                    lemma_checkpoints_keep_points(ps.remove(i as int), state, now);
                    let moved = FarmPoolAccount { point, ..updated(ps[i as int], state, now) };
                    assert(rest.push(moved).drop_last() =~= rest);
                }
            },
        }
    }
}

} // verus!
