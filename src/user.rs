use vstd::prelude::*;

use crate::error::ErrorCode;
use crate::pool::FarmPoolAccount;
use crate::{ACC_PRECISION, FULL_100};

verus! {

/// One user's stake in one pool, with its settled rewards awaiting harvest.
#[derive(Clone, Copy, Debug)]
pub struct FarmPoolUserAccount {
    pub bump: u8,
    pub pool: [u8; 32],
    pub authority: [u8; 32],
    pub amount: u64,
    /// Settled base reward, not yet harvested.
    pub reward_amount: u128,
    /// Settled lock bonus, not yet harvested.
    pub extra_reward: u128,
    /// `amount * acc_reward_per_share / ACC_PRECISION` at the last settlement.
    pub reward_debt: u128,
    pub last_stake_time: i64,
    pub lock_duration: i64,
    pub reserved_1: u128,
    pub reserved_2: u128,
    pub reserved_3: u128,
}

/// A user's auxiliary address, stored left-aligned and padded with zeros.
#[derive(Clone, Copy, Debug)]
pub struct FarmUserEtherAddress {
    pub bump: u8,
    pub authority: [u8; 32],
    pub ether_address: [u8; 42],
}

/// What a stake of `amount` has earned in total at accumulator value `acc`.
pub open spec fn entitled(amount: u64, acc: u128) -> int {
    (amount as int) * (acc as int) / (ACC_PRECISION as int)
}

/// Settling a user at accumulator value `acc`: the reward earned since the
/// last settlement is added to the base reward, and its share
/// `extra_percentage / FULL_100` to the bonus.
pub open spec fn settled(user: FarmPoolUserAccount, acc: u128, extra_percentage: u64) -> Result<
    FarmPoolUserAccount,
    ErrorCode,
> {
    if (user.amount as int) * (acc as int) > u128::MAX {
        Err(ErrorCode::ArithmeticOverflow)
    } else if entitled(user.amount, acc) < user.reward_debt {
        Err(ErrorCode::InconsistentRewardDebt)
    } else {
        let pending = entitled(user.amount, acc) - user.reward_debt;
        let extra = pending * (extra_percentage as int) / (FULL_100 as int);
        if user.reward_amount + pending > u128::MAX || pending * (extra_percentage as int)
            > u128::MAX || user.extra_reward + extra > u128::MAX {
            Err(ErrorCode::ArithmeticOverflow)
        } else {
            Ok(
                FarmPoolUserAccount {
                    reward_amount: (user.reward_amount + pending) as u128,
                    extra_reward: (user.extra_reward + extra) as u128,
                    ..user
                },
            )
        }
    }
}

/// Re-baselining a user at accumulator value `acc`: the debt becomes what the
/// current stake is entitled to there.
pub open spec fn rebaselined(user: FarmPoolUserAccount, acc: u128) -> Result<
    FarmPoolUserAccount,
    ErrorCode,
> {
    if (user.amount as int) * (acc as int) > u128::MAX {
        Err(ErrorCode::ArithmeticOverflow)
    } else {
        Ok(FarmPoolUserAccount { reward_debt: entitled(user.amount, acc) as u128, ..user })
    }
}

/// Within the width of the product, an entitlement lies between zero and
/// the unscaled product.
pub proof fn lemma_entitled_bounds(amount: u64, acc: u128)
    requires
        (amount as int) * (acc as int) <= u128::MAX,
    ensures
        0 <= entitled(amount, acc) <= (amount as int) * (acc as int),
{
    let p = (amount as int) * (acc as int);
    assert(p >= 0) by (nonlinear_arith)
        requires
            p == (amount as int) * (acc as int),
    ;
    assert(0 <= p / (ACC_PRECISION as int) <= p) by (nonlinear_arith)
        requires
            p >= 0,
    ;
}

impl FarmPoolUserAccount {
    /// Settles the reward earned since the last settlement against the pool's
    /// accumulator, with the bonus `extra_percentage`; on failure nothing
    /// changes.
    pub fn calculate_reward_amount(&mut self, pool: &FarmPoolAccount, extra_percentage: u64) -> (r:
        Result<(), ErrorCode>)
        ensures
            match settled(*old(self), pool.acc_reward_per_share, extra_percentage) {
                Ok(u) => r is Ok && *final(self) == u,
                Err(e) => r == Err::<(), ErrorCode>(e) && *final(self) == *old(self),
            },
    {
        let product = match (self.amount as u128).checked_mul(pool.acc_reward_per_share) {
            Some(v) => v,
            None => {
                return Err(ErrorCode::ArithmeticOverflow);
            },
        };
        let total = product / ACC_PRECISION;
        if total < self.reward_debt {
            return Err(ErrorCode::InconsistentRewardDebt);
        }
        let pending = total - self.reward_debt;
        let reward_amount = match self.reward_amount.checked_add(pending) {
            Some(v) => v,
            None => {
                return Err(ErrorCode::ArithmeticOverflow);
            },
        };
        let weighted = match pending.checked_mul(extra_percentage as u128) {
            Some(v) => v,
            None => {
                return Err(ErrorCode::ArithmeticOverflow);
            },
        };
        let extra_amount = weighted / (FULL_100 as u128);
        let extra_reward = match self.extra_reward.checked_add(extra_amount) {
            Some(v) => v,
            None => {
                return Err(ErrorCode::ArithmeticOverflow);
            },
        };
        self.reward_amount = reward_amount;
        self.extra_reward = extra_reward;
        Ok(())
    }

    /// Re-baselines the debt to what the current stake is entitled to at the
    /// pool's accumulator; on failure nothing changes.
    pub fn calculate_reward_debt(&mut self, pool: &FarmPoolAccount) -> (r: Result<(), ErrorCode>)
        ensures
            match rebaselined(*old(self), pool.acc_reward_per_share) {
                Ok(u) => r is Ok && *final(self) == u,
                Err(e) => r == Err::<(), ErrorCode>(e) && *final(self) == *old(self),
            },
    {
        let product = match (self.amount as u128).checked_mul(pool.acc_reward_per_share) {
            Some(v) => v,
            None => {
                return Err(ErrorCode::ArithmeticOverflow);
            },
        };
        self.reward_debt = product / ACC_PRECISION;
        Ok(())
    }
}

/// A fresh user record in a pool: nothing staked, nothing owed or earned.
pub open spec fn new_user(bump: u8, pool: [u8; 32], authority: [u8; 32]) -> FarmPoolUserAccount {
    FarmPoolUserAccount {
        bump,
        pool,
        authority,
        amount: 0,
        reward_amount: 0,
        extra_reward: 0,
        reward_debt: 0,
        last_stake_time: 0,
        lock_duration: 0,
        reserved_1: 0,
        reserved_2: 0,
        reserved_3: 0,
    }
}

/// Opens a user record in `pool` and counts the user there.
pub fn create_user(
    pool: &mut FarmPoolAccount,
    bump: u8,
    pool_key: [u8; 32],
    authority: [u8; 32],
) -> (r: Result<FarmPoolUserAccount, ErrorCode>)
    ensures
        r is Ok <==> old(pool).total_user < u64::MAX,
        r matches Ok(u) ==> u == new_user(bump, pool_key, authority) && *final(pool) == (
        FarmPoolAccount { total_user: (old(pool).total_user + 1) as u64, ..*old(pool) }),
        r matches Err(e) ==> e == ErrorCode::ArithmeticOverflow && *final(pool) == *old(pool),
{
    if pool.total_user == u64::MAX {
        return Err(ErrorCode::ArithmeticOverflow);
    }
    pool.total_user = pool.total_user + 1;
    Ok(
        FarmPoolUserAccount {
            bump,
            pool: pool_key,
            authority,
            amount: 0,
            reward_amount: 0,
            extra_reward: 0,
            reward_debt: 0,
            last_stake_time: 0,
            lock_duration: 0,
            reserved_1: 0,
            reserved_2: 0,
            reserved_3: 0,
        },
    )
}

/// Byte `i` of an address stored in the fixed field: the address's own byte,
/// or 0 past its end.
pub open spec fn address_byte(address: Seq<u8>, i: int) -> u8 {
    if i < address.len() {
        address[i]
    } else {
        0
    }
}

/// The address left-aligned in the fixed field and padded with zeros.
fn address_field(address: &[u8]) -> (r: [u8; 42])
    requires
        address@.len() <= 42,
    ensures
        forall|i: int| 0 <= i < 42 ==> #[trigger] r@[i] == address_byte(address@, i),
{
    let mut data = [0u8; 42];
    let mut i: usize = 0;
    while i < address.len()
        invariant
            address@.len() <= 42,
            0 <= i <= address@.len(),
            forall|j: int| 0 <= j < i ==> #[trigger] data@[j] == address@[j],
            forall|j: int| i <= j < 42 ==> #[trigger] data@[j] == 0,
        decreases address@.len() - i,
    {
        data[i] = address[i];
        i = i + 1;
    }
    data
}

/// A record of the user's auxiliary address, of at most 42 bytes.
pub fn create_user_ether_address(bump: u8, authority: [u8; 32], ether_address: &[u8]) -> (r:
    FarmUserEtherAddress)
    requires
        ether_address@.len() <= 42,
    ensures
        r.bump == bump,
        r.authority == authority,
        forall|i: int| 0 <= i < 42 ==> #[trigger] r.ether_address@[i] == address_byte(ether_address@, i),
{
    FarmUserEtherAddress { bump, authority, ether_address: address_field(ether_address) }
}

/// Replaces the user's auxiliary address, of at most 42 bytes.
pub fn set_user_ether_address(user: &mut FarmUserEtherAddress, ether_address: &[u8])
    requires
        ether_address@.len() <= 42,
    ensures
        final(user).bump == old(user).bump,
        final(user).authority == old(user).authority,
        forall|i: int|
            0 <= i < 42 ==> #[trigger] final(user).ether_address@[i] == address_byte(ether_address@, i),
{
    user.ether_address = address_field(ether_address);
}

/// The sum of the stakes of a list of user records.
pub open spec fn sum_amounts(users: Seq<FarmPoolUserAccount>) -> int
    decreases users.len(),
{
    if users.len() == 0 {
        0
    } else {
        sum_amounts(users.drop_last()) + users.last().amount
    }
}

/// The sum of what each user's stake is entitled to at accumulator `acc`.
pub open spec fn sum_entitled(users: Seq<FarmPoolUserAccount>, acc: u128) -> int
    decreases users.len(),
{
    if users.len() == 0 {
        0
    } else {
        sum_entitled(users.drop_last(), acc) + entitled(users.last().amount, acc)
    }
}

proof fn lemma_floor_sum(x: int, y: int, d: int)
    requires
        x >= 0,
        y >= 0,
        d > 0,
    ensures
        x / d + y / d <= (x + y) / d,
{
    vstd::arithmetic::div_mod::lemma_fundamental_div_mod(x, d);
    vstd::arithmetic::div_mod::lemma_fundamental_div_mod(y, d);
    vstd::arithmetic::div_mod::lemma_fundamental_div_mod(x + y, d);
    let (qx, qy, q) = (x / d, y / d, (x + y) / d);
    let (rx, ry, r) = (x % d, y % d, (x + y) % d);
    assert(qx + qy <= q) by (nonlinear_arith)
        requires
            x == d * qx + rx,
            y == d * qy + ry,
            x + y == d * q + r,
            0 <= rx < d,
            0 <= ry < d,
            0 <= r < d,
    ;
}

/// No reward is claimed twice: at any accumulator value, what the users'
/// stakes are entitled to, added up, never exceeds what the pool's whole
/// stake is entitled to, when the pool's stake is the sum of theirs. Each
/// user's pending reward is its entitlement less its debt, so the users'
/// settled and pending rewards together stay within the pool's share.
pub proof fn lemma_entitlements_within_pool(
    users: Seq<FarmPoolUserAccount>,
    pool: FarmPoolAccount,
)
    requires
        pool.amount == sum_amounts(users),
    ensures
        sum_entitled(users, pool.acc_reward_per_share) <= entitled(
            pool.amount,
            pool.acc_reward_per_share,
        ),
{
    lemma_sum_entitled_below(users, pool.acc_reward_per_share);
}

proof fn lemma_sum_entitled_below(users: Seq<FarmPoolUserAccount>, acc: u128)
    ensures
        sum_amounts(users) >= 0,
        sum_entitled(users, acc) <= sum_amounts(users) * (acc as int) / (ACC_PRECISION as int),
    decreases users.len(),
{
    if users.len() > 0 {
        let rest = users.drop_last();
        lemma_sum_entitled_below(rest, acc);
        let a = sum_amounts(rest);
        let b = users.last().amount as int;
        let c = acc as int;
        assert(a * c >= 0 && b * c >= 0) by (nonlinear_arith)
            requires
                a >= 0,
                b >= 0,
                c >= 0,
        ;
        assert((a + b) * c == a * c + b * c) by (nonlinear_arith);
        lemma_floor_sum(a * c, b * c, ACC_PRECISION as int);
    } else {
        assert(0 * (acc as int) / (ACC_PRECISION as int) == 0);
    }
}

/// The entitlement of a stake never falls as the accumulator grows.
pub proof fn lemma_entitled_monotone(amount: u64, acc0: u128, acc: u128)
    requires
        acc0 <= acc,
    ensures
        entitled(amount, acc0) <= entitled(amount, acc),
{
    let a = amount as int;
    assert(a * (acc0 as int) <= a * (acc as int)) by (nonlinear_arith)
        requires
            a >= 0,
            acc0 <= acc,
    ;
    vstd::arithmetic::div_mod::lemma_div_is_ordered(
        a * (acc0 as int),
        a * (acc as int),
        ACC_PRECISION as int,
    );
}

/// Settling a user whose debt was set at accumulator `acc0` credits to the
/// base reward exactly what the stake earned while the accumulator grew from
/// `acc0` to `acc`, never a negative amount, and never finds the debt
/// inconsistent.
pub proof fn lemma_settle_credits_interval(
    user: FarmPoolUserAccount,
    acc0: u128,
    acc: u128,
    extra_percentage: u64,
)
    requires
        user.reward_debt == entitled(user.amount, acc0),
        acc0 <= acc,
    ensures
        settled(user, acc, extra_percentage) != Err::<FarmPoolUserAccount, ErrorCode>(
            ErrorCode::InconsistentRewardDebt,
        ),
        settled(user, acc, extra_percentage) matches Ok(u) ==> u.reward_amount
            - user.reward_amount == entitled(user.amount, acc) - entitled(user.amount, acc0)
            >= 0,
{
    lemma_entitled_monotone(user.amount, acc0, acc);
}

/// The invariant of a pool and the records of its users: the pool's stake
/// is the sum of theirs, and no user's debt exceeds what its stake is
/// entitled to at the pool's accumulator.
pub open spec fn ledger_consistent(pool: FarmPoolAccount, users: Seq<FarmPoolUserAccount>) -> bool {
    &&& pool.amount == sum_amounts(users)
    &&& forall|j: int|
        0 <= j < users.len() ==> (#[trigger] users[j]).reward_debt <= entitled(
            users[j].amount,
            pool.acc_reward_per_share,
        )
}

proof fn lemma_sum_amounts_update(users: Seq<FarmPoolUserAccount>, k: int, u: FarmPoolUserAccount)
    requires
        0 <= k < users.len(),
    ensures
        sum_amounts(users.update(k, u)) == sum_amounts(users) - users[k].amount + u.amount,
    decreases users.len(),
{
    if k < users.len() - 1 {
        lemma_sum_amounts_update(users.drop_last(), k, u);
        assert(users.update(k, u).drop_last() =~= users.drop_last().update(k, u));
    } else {
        assert(users.update(k, u).drop_last() =~= users.drop_last());
    }
}

/// The invariant survives a change of one user's record that re-baselines
/// its debt, moves the pool's stake by the change of that user's stake, and
/// does not lower the accumulator.
pub proof fn lemma_consistent_after_user_change(
    pool: FarmPoolAccount,
    users: Seq<FarmPoolUserAccount>,
    k: int,
    new_pool: FarmPoolAccount,
    new_user: FarmPoolUserAccount,
)
    requires
        ledger_consistent(pool, users),
        0 <= k < users.len(),
        new_pool.acc_reward_per_share >= pool.acc_reward_per_share,
        new_pool.amount == pool.amount - users[k].amount + new_user.amount,
        new_user.reward_debt == entitled(new_user.amount, new_pool.acc_reward_per_share),
    ensures
        ledger_consistent(new_pool, users.update(k, new_user)),
        sum_entitled(users.update(k, new_user), new_pool.acc_reward_per_share) <= entitled(
            new_pool.amount,
            new_pool.acc_reward_per_share,
        ),
{
    lemma_sum_amounts_update(users, k, new_user);
    let after = users.update(k, new_user);
    assert forall|j: int| 0 <= j < after.len() implies (#[trigger] after[j]).reward_debt
        <= entitled(after[j].amount, new_pool.acc_reward_per_share) by {
        if j != k {
            lemma_entitled_monotone(
                users[j].amount,
                pool.acc_reward_per_share,
                new_pool.acc_reward_per_share,
            );
        }
    }
    lemma_entitlements_within_pool(after, new_pool);
}

} // verus!
