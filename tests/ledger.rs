use neonomad::admin::{
    change_pool_amount_multipler, change_pool_point, change_tokens_per_second, close_pool,
    create_extra_reward_configs, create_pool, create_state, fund_reward_token,
    set_extra_reward_configs,
};
use neonomad::error::ErrorCode;
use neonomad::pool::{FarmPoolAccount, StateAccount};
use neonomad::staking::{harvest, stake, unstake};
use neonomad::tier::{DurationExtraRewardConfig, ExtraRewardsAccount};
use neonomad::user::{
    create_user, create_user_ether_address, set_user_ether_address, FarmPoolUserAccount,
};
use neonomad::{ACC_PRECISION, FULL_100};

const KEY: [u8; 32] = [7u8; 32];

fn state(rate: u64, total_point: u64) -> StateAccount {
    let mut s = create_state(1, rate, KEY, KEY, KEY, 0);
    s.total_point = total_point;
    s
}

fn pool(point: u64, amount: u64, last: i64) -> FarmPoolAccount {
    FarmPoolAccount {
        bump: 1,
        authority: KEY,
        amount,
        mint: KEY,
        vault: KEY,
        point,
        last_reward_time: last,
        acc_reward_per_share: 0,
        amount_multipler: 1,
        total_user: 0,
    }
}

fn fresh_user() -> FarmPoolUserAccount {
    let mut p = pool(1, 0, 0);
    create_user(&mut p, 1, KEY, KEY).unwrap()
}

fn tiers(list: &[(i64, u64)]) -> ExtraRewardsAccount {
    let configs = list
        .iter()
        .map(|&(d, e)| DurationExtraRewardConfig::new(d, e))
        .collect();
    create_extra_reward_configs(1, KEY, configs).unwrap()
}

#[test]
fn checkpoint_formula_worked_example() {
    let s = state(10, 100);
    let mut p = pool(100, 1000, 0);
    assert_eq!(p.update(&s, 100), Ok(()));
    assert_eq!(p.acc_reward_per_share, 100_000_000_000);
    assert_eq!(p.last_reward_time, 100);
}

#[test]
fn checkpoint_floors_each_division() {
    // 7 * 3 * 2 * 1e11 / 3 / 4 = 4.2e12 / 3 / 4 = 1.4e12 / 4 = 3.5e11
    let s = state(7, 3);
    let mut p = pool(2, 4, 10);
    p.acc_reward_per_share = 5;
    assert_eq!(p.update(&s, 13), Ok(()));
    assert_eq!(p.acc_reward_per_share, 350_000_000_005);
    // 1 * 1 * 1 * 1e11 / 3 / 7 = 33_333_333_333 / 7 = 4_761_904_761
    let s = state(1, 3);
    let mut p = pool(1, 7, 0);
    assert_eq!(p.update(&s, 1), Ok(()));
    assert_eq!(p.acc_reward_per_share, 4_761_904_761);
}

#[test]
fn checkpoint_of_empty_pool_only_moves_time() {
    let s = state(10, 100);
    let mut p = pool(100, 0, 0);
    assert_eq!(p.update(&s, 500), Ok(()));
    assert_eq!(p.acc_reward_per_share, 0);
    assert_eq!(p.last_reward_time, 500);
}

#[test]
fn checkpoint_refuses_time_going_back() {
    let s = state(10, 100);
    let mut p = pool(100, 1000, 50);
    assert_eq!(p.update(&s, 49), Err(ErrorCode::ArithmeticOverflow));
    assert_eq!(p.last_reward_time, 50);
}

#[test]
fn checkpoint_refuses_overflow() {
    let s = state(u64::MAX, 1);
    let mut p = pool(u64::MAX, 1, 0);
    assert_eq!(p.update(&s, 1_000_000), Err(ErrorCode::ArithmeticOverflow));
    assert_eq!(p.acc_reward_per_share, 0);
    assert_eq!(p.last_reward_time, 0);
}

#[test]
fn accumulator_never_decreases_over_checkpoints() {
    let mut p = pool(50, 300, 0);
    let mut last = p.acc_reward_per_share;
    for (i, rate) in [0u64, 5, 0, 17, 1].iter().enumerate() {
        let s = state(*rate, 80);
        assert_eq!(p.update(&s, (i as i64 + 1) * 30), Ok(()));
        assert!(p.acc_reward_per_share >= last);
        last = p.acc_reward_per_share;
    }
    assert!(last > 0);
}

#[test]
fn tier_table_validation() {
    let ok = vec![
        DurationExtraRewardConfig::new(0, 0),
        DurationExtraRewardConfig::new(100, 10_000_000_000),
        DurationExtraRewardConfig::new(100, 20_000_000_000),
    ];
    assert!(create_extra_reward_configs(1, KEY, ok).is_ok());
    let bad_duration = vec![
        DurationExtraRewardConfig::new(100, 0),
        DurationExtraRewardConfig::new(50, 1),
    ];
    assert_eq!(
        create_extra_reward_configs(1, KEY, bad_duration).err(),
        Some(ErrorCode::InvalidTierSequence)
    );
    let bad_bonus = vec![
        DurationExtraRewardConfig::new(10, 5),
        DurationExtraRewardConfig::new(50, 1),
    ];
    assert_eq!(
        create_extra_reward_configs(1, KEY, bad_bonus).err(),
        Some(ErrorCode::InvalidTierSequence)
    );
    let single_negative = vec![DurationExtraRewardConfig::new(-5, 1)];
    assert!(create_extra_reward_configs(1, KEY, single_negative).is_ok());
    let starts_negative = vec![
        DurationExtraRewardConfig::new(-1, 0),
        DurationExtraRewardConfig::new(0, 0),
    ];
    assert!(create_extra_reward_configs(1, KEY, starts_negative).is_ok());
    assert!(create_extra_reward_configs(1, KEY, vec![]).is_ok());
}

#[test]
fn replacing_tiers_keeps_old_table_on_refusal() {
    let mut t = tiers(&[(0, 0), (10, 5)]);
    let bad = vec![
        DurationExtraRewardConfig::new(10, 5),
        DurationExtraRewardConfig::new(0, 0),
    ];
    assert_eq!(set_extra_reward_configs(&mut t, bad), Err(ErrorCode::InvalidTierSequence));
    assert_eq!(t.configs.len(), 2);
    assert_eq!(t.configs[1], DurationExtraRewardConfig::new(10, 5));
    let good = vec![DurationExtraRewardConfig::new(30, 9)];
    assert_eq!(set_extra_reward_configs(&mut t, good), Ok(()));
    assert_eq!(t.configs, vec![DurationExtraRewardConfig::new(30, 9)]);
    let starts_negative = vec![
        DurationExtraRewardConfig::new(-1, 0),
        DurationExtraRewardConfig::new(0, 0),
    ];
    assert_eq!(set_extra_reward_configs(&mut t, starts_negative), Ok(()));
    assert_eq!(t.configs[0], DurationExtraRewardConfig::new(-1, 0));
}

#[test]
fn bonus_is_highest_qualifying_tier() {
    let t = tiers(&[(0, 0), (100, 10_000_000_000), (200, 25_000_000_000)]);
    assert_eq!(t.get_extra_reward_percentage(0), 0);
    assert_eq!(t.get_extra_reward_percentage(99), 0);
    assert_eq!(t.get_extra_reward_percentage(100), 10_000_000_000);
    assert_eq!(t.get_extra_reward_percentage(150), 10_000_000_000);
    assert_eq!(t.get_extra_reward_percentage(1000), 25_000_000_000);
    let t = tiers(&[(50, 7)]);
    assert_eq!(t.get_extra_reward_percentage(10), 0);
}

#[test]
fn exact_tier_required_for_lock() {
    let t = tiers(&[(0, 0), (100, 10_000_000_000)]);
    assert_eq!(t.validate_lock_duration(100), Ok(()));
    assert_eq!(t.validate_lock_duration(0), Ok(()));
    assert_eq!(t.validate_lock_duration(50), Err(ErrorCode::InvalidLockDuration));
}

#[test]
fn stake_tier_gating() {
    let s = state(10, 100);
    let t = tiers(&[(0, 0), (100, 10_000_000_000), (200, 20_000_000_000)]);
    let mut p = pool(100, 0, 0);
    let mut u = fresh_user();
    // not a tier
    assert_eq!(stake(&s, &t, &mut p, &mut u, 10, 150, 0), Err(ErrorCode::InvalidLockDuration));
    assert_eq!(u.amount, 0);
    // exact tier at or above the current lock
    assert_eq!(stake(&s, &t, &mut p, &mut u, 10, 100, 0), Ok(()));
    assert_eq!(u.lock_duration, 100);
    assert_eq!(stake(&s, &t, &mut p, &mut u, 10, 100, 5), Ok(()));
    // lower than the current lock
    assert_eq!(stake(&s, &t, &mut p, &mut u, 10, 0, 6), Err(ErrorCode::InvalidLockDuration));
    assert_eq!(u.amount, 20);
    assert_eq!(u.lock_duration, 100);
    assert_eq!(stake(&s, &t, &mut p, &mut u, 10, 200, 7), Ok(()));
    assert_eq!(u.lock_duration, 200);
    assert_eq!(p.amount, 30);
}

#[test]
fn unstake_time_lock() {
    let s = state(10, 100);
    let t = tiers(&[(0, 0), (100, 0)]);
    let mut p = pool(100, 0, 0);
    let mut u = fresh_user();
    assert_eq!(stake(&s, &t, &mut p, &mut u, 1000, 100, 10), Ok(()));
    assert_eq!(unstake(&s, &t, &mut p, &mut u, 1000, 109), Err(ErrorCode::UnderLocked));
    assert_eq!(u.amount, 1000);
    assert_eq!(unstake(&s, &t, &mut p, &mut u, 1000, 110), Ok(()));
    assert_eq!(u.amount, 0);
    assert_eq!(u.lock_duration, 0);
    assert_eq!(u.last_stake_time, 110);
    assert_eq!(p.amount, 0);
}

#[test]
fn unstake_over_amount() {
    let s = state(10, 100);
    let t = tiers(&[(0, 0)]);
    let mut p = pool(100, 0, 0);
    let mut u = fresh_user();
    assert_eq!(stake(&s, &t, &mut p, &mut u, 5, 0, 0), Ok(()));
    assert_eq!(unstake(&s, &t, &mut p, &mut u, 6, 10), Err(ErrorCode::UnstakeOverAmount));
    assert_eq!(u.amount, 5);
    assert_eq!(p.amount, 5);
}

#[test]
fn unstake_keeps_lock_while_stake_remains() {
    let s = state(0, 100);
    let t = tiers(&[(0, 0), (10, 0)]);
    let mut p = pool(100, 0, 0);
    let mut u = fresh_user();
    assert_eq!(stake(&s, &t, &mut p, &mut u, 5, 10, 0), Ok(()));
    assert_eq!(unstake(&s, &t, &mut p, &mut u, 2, 10), Ok(()));
    assert_eq!(u.lock_duration, 10);
    assert_eq!(u.amount, 3);
}

#[test]
fn stake_then_unstake_same_time_accrues_nothing() {
    let s = state(10, 100);
    let t = tiers(&[(0, 0)]);
    let mut p = pool(100, 0, 0);
    let mut u = fresh_user();
    assert_eq!(stake(&s, &t, &mut p, &mut u, 1000, 0, 0), Ok(()));
    let (reward, extra) = (u.reward_amount, u.extra_reward);
    assert_eq!(unstake(&s, &t, &mut p, &mut u, 1000, 0), Ok(()));
    assert_eq!(u.reward_amount, reward);
    assert_eq!(u.extra_reward, extra);
    assert_eq!(u.reward_amount, 0);
    assert_eq!(u.amount, 0);
    assert_eq!(u.reward_debt, 0);
    assert_eq!(p.amount, 0);
}

#[test]
fn stake_then_unstake_same_time_after_accrual() {
    let s = state(10, 100);
    let t = tiers(&[(0, 0)]);
    let mut p = pool(100, 0, 0);
    let mut u = fresh_user();
    assert_eq!(stake(&s, &t, &mut p, &mut u, 1000, 0, 0), Ok(()));
    assert_eq!(stake(&s, &t, &mut p, &mut u, 500, 0, 100), Ok(()));
    assert_eq!(u.reward_amount, 1000);
    assert_eq!(unstake(&s, &t, &mut p, &mut u, 500, 100), Ok(()));
    assert_eq!(u.reward_amount, 1000);
    assert_eq!(u.amount, 1000);
    assert_eq!(u.reward_debt, 1000);
}

#[test]
fn harvest_pays_base_and_bonus_then_nothing() {
    let s = state(10, 100);
    let t = tiers(&[(0, 0), (100, 10_000_000_000)]);
    let mut p = pool(100, 0, 0);
    let mut u = fresh_user();
    assert_eq!(stake(&s, &t, &mut p, &mut u, 1000, 100, 0), Ok(()));
    // 100 s at 10 tokens/s, all to this pool and this user; 10% bonus
    assert_eq!(harvest(&s, &t, &mut p, &mut u, 100), Ok(1100));
    assert_eq!(u.reward_amount, 0);
    assert_eq!(u.extra_reward, 0);
    assert_eq!(u.reward_debt, 1000);
    assert_eq!(harvest(&s, &t, &mut p, &mut u, 100), Ok(0));
    assert_eq!(p.acc_reward_per_share, ACC_PRECISION);
}

#[test]
fn bonus_uses_previous_lock_when_extending() {
    let s = state(10, 100);
    let t = tiers(&[(0, 0), (100, 50_000_000_000)]);
    let mut p = pool(100, 0, 0);
    let mut u = fresh_user();
    assert_eq!(stake(&s, &t, &mut p, &mut u, 1000, 0, 0), Ok(()));
    assert_eq!(stake(&s, &t, &mut p, &mut u, 1000, 100, 100), Ok(()));
    assert_eq!(u.reward_amount, 1000);
    assert_eq!(u.extra_reward, 0);
    // 100 s more at 2000 staked: 1000 base, 50% bonus
    assert_eq!(harvest(&s, &t, &mut p, &mut u, 200), Ok(2500));
    assert_eq!(FULL_100, 100_000_000_000);
}

#[test]
fn two_users_share_by_stake() {
    let s = state(10, 100);
    let t = tiers(&[(0, 0)]);
    let mut p = pool(100, 0, 0);
    let mut a = fresh_user();
    let mut b = fresh_user();
    assert_eq!(stake(&s, &t, &mut p, &mut a, 300, 0, 0), Ok(()));
    assert_eq!(stake(&s, &t, &mut p, &mut b, 700, 0, 0), Ok(()));
    let paid_a = harvest(&s, &t, &mut p, &mut a, 100).unwrap();
    let paid_b = harvest(&s, &t, &mut p, &mut b, 100).unwrap();
    assert_eq!(paid_a, 300);
    assert_eq!(paid_b, 700);
    assert!(paid_a + paid_b <= 1000);
}

#[test]
fn inconsistent_debt_is_fatal() {
    let s = state(10, 100);
    let t = tiers(&[(0, 0)]);
    let mut p = pool(100, 10, 0);
    let mut u = fresh_user();
    u.amount = 10;
    u.reward_debt = 1;
    assert_eq!(harvest(&s, &t, &mut p, &mut u, 0), Err(ErrorCode::InconsistentRewardDebt));
    assert_eq!(u.reward_debt, 1);
}

#[test]
fn harvest_refuses_payout_beyond_u64() {
    let s = state(0, 100);
    let t = tiers(&[(0, 0)]);
    let mut p = pool(100, 0, 0);
    let mut u = fresh_user();
    u.reward_amount = u64::MAX as u128;
    u.extra_reward = 1;
    assert_eq!(harvest(&s, &t, &mut p, &mut u, 0), Err(ErrorCode::ArithmeticOverflow));
    assert_eq!(u.reward_amount, u64::MAX as u128);
    u.extra_reward = 0;
    assert_eq!(harvest(&s, &t, &mut p, &mut u, 0), Ok(u64::MAX));
}

#[test]
fn fund_adds_points_and_checkpoints() {
    let mut s = state(10, 100);
    let mut p = pool(100, 1000, 0);
    assert_eq!(fund_reward_token(&mut s, &mut p, 100, 100), Ok(()));
    assert_eq!(s.total_point, 200);
    assert_eq!(p.point, 200);
    // the new weights apply to the elapsed time: 10*100*200*1e11/200/1000
    assert_eq!(p.acc_reward_per_share, 100_000_000_000);
    assert_eq!(p.last_reward_time, 100);
    let mut s = state(10, u64::MAX);
    let mut p = pool(1, 1, 0);
    assert_eq!(fund_reward_token(&mut s, &mut p, 1, 5), Err(ErrorCode::ArithmeticOverflow));
    assert_eq!(p.point, 1);
}

#[test]
fn weights_stay_summed_through_admin_operations() {
    let mut s = state(10, 0);
    let mut pools: Vec<FarmPoolAccount> = Vec::new();
    let a = create_pool(&mut s, &mut pools, 1, 30, 1, KEY, KEY, KEY, 0).unwrap();
    assert_eq!(a.last_reward_time, 0);
    pools.push(a);
    let b = create_pool(&mut s, &mut pools, 1, 70, 1, KEY, KEY, KEY, 5).unwrap();
    assert_eq!(b.point, 70);
    assert_eq!(b.amount, 0);
    assert_eq!(b.last_reward_time, 5);
    assert_eq!(s.total_point, 100);
    let mut b = b;
    assert_eq!(change_pool_point(&mut s, &mut pools, &mut b, 20, 10), Ok(()));
    assert_eq!(s.total_point, 50);
    assert_eq!(b.point, 20);
    assert_eq!(pools[0].last_reward_time, 10);
    let mut others = vec![b];
    assert_eq!(close_pool(&mut s, &mut others, &pools[0], 20), Ok(()));
    assert_eq!(s.total_point, 20);
    assert_eq!(s.total_point, others.iter().map(|p| p.point).sum::<u64>());
}

#[test]
fn close_pool_with_stake_fails() {
    let mut s = state(10, 100);
    let p = pool(100, 1, 0);
    let mut others: Vec<FarmPoolAccount> = Vec::new();
    assert_eq!(close_pool(&mut s, &mut others, &p, 10), Err(ErrorCode::WorkingPool));
    assert_eq!(s.total_point, 100);
}

#[test]
fn rate_change_checkpoints_listed_pools_first() {
    let mut s = state(10, 100);
    let mut pools = vec![pool(100, 1000, 0)];
    assert_eq!(change_tokens_per_second(&mut s, &mut pools, 20, 100), Ok(()));
    assert_eq!(s.token_per_second, 20);
    assert_eq!(pools[0].acc_reward_per_share, ACC_PRECISION);
    assert_eq!(pools[0].update(&s, 200), Ok(()));
    assert_eq!(pools[0].acc_reward_per_share, 3 * ACC_PRECISION);
}

#[test]
fn failed_rate_change_changes_nothing() {
    let mut s = state(10, 100);
    let mut pools = vec![pool(100, 1000, 0), pool(100, 1000, 500)];
    assert_eq!(
        change_tokens_per_second(&mut s, &mut pools, 20, 100),
        Err(ErrorCode::ArithmeticOverflow)
    );
    assert_eq!(s.token_per_second, 10);
    assert_eq!(pools[0].last_reward_time, 0);
    assert_eq!(pools[0].acc_reward_per_share, 0);
}

#[test]
fn omitted_sibling_pool_is_misaccrued() {
    // two pools of equal weight; a third is opened at t = 100
    let mut s = state(10, 200);
    let listed = pool(100, 1000, 0);
    let omitted = pool(100, 1000, 0);
    let mut others = vec![listed];
    let _c = create_pool(&mut s, &mut others, 1, 200, 1, KEY, KEY, KEY, 100).unwrap();
    let mut listed = others[0];
    let mut omitted = omitted;
    assert_eq!(listed.update(&s, 200), Ok(()));
    assert_eq!(omitted.update(&s, 200), Ok(()));
    // listed: 100 s at 1/2 share, then 100 s at 1/4 share
    assert_eq!(listed.acc_reward_per_share, 75_000_000_000);
    // omitted: 200 s at 1/4 share, as if the new divisor had always applied
    assert_eq!(omitted.acc_reward_per_share, 50_000_000_000);
}

#[test]
fn amount_multiplier_is_set() {
    let mut p = pool(1, 0, 0);
    change_pool_amount_multipler(&mut p, 42);
    assert_eq!(p.amount_multipler, 42);
    assert_eq!(p.point, 1);
}

#[test]
fn user_creation_counts_users() {
    let mut p = pool(1, 0, 0);
    let u = create_user(&mut p, 3, [1u8; 32], [2u8; 32]).unwrap();
    assert_eq!(p.total_user, 1);
    assert_eq!(u.bump, 3);
    assert_eq!(u.pool, [1u8; 32]);
    assert_eq!(u.amount, 0);
    p.total_user = u64::MAX;
    assert_eq!(create_user(&mut p, 3, KEY, KEY).err(), Some(ErrorCode::ArithmeticOverflow));
}

#[test]
fn ether_address_is_padded() {
    let mut rec = create_user_ether_address(2, KEY, b"0xabc");
    assert_eq!(&rec.ether_address[..5], b"0xabc");
    assert!(rec.ether_address[5..].iter().all(|&b| b == 0));
    let full = [b'f'; 42];
    set_user_ether_address(&mut rec, &full);
    assert_eq!(rec.ether_address, full);
    set_user_ether_address(&mut rec, b"0x1");
    assert_eq!(&rec.ether_address[..4], b"0x1\0");
    assert_eq!(rec.bump, 2);
}
