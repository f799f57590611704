//! What each operation of the pool model does, on every state.

use vstd::prelude::*;

use crate::pool_model;
use crate::pool_model::{ModelError, ModelView, PoolModel};

verus! {

/// Three users, none of whom has less than nothing, and none of whose snapshots
/// is ahead of the index.
pub open spec fn sound(m: ModelView) -> bool {
    &&& m.sized()
    &&& forall|u: int|
        0 <= u < 3 ==> 0 <= #[trigger] m.balances[u] && m.user_index_snapshot[u]
            <= m.per_share_index && 0 <= m.unclaimed_rewards[u]
}

/// Every positive amount that fits can be staked; it is added to the balance and
/// to the total, and the time is noted. Nothing else changes.
pub proof fn law_stakes(m: ModelView, user: int, amount: i128, other: int)
    requires
        m.sized(),
        0 <= user < 3,
        0 <= other < 3,
    ensures
        ({
            let fits = m.balances[user] + amount <= i128::MAX && m.total_staked + amount
                <= i128::MAX;
            let answer = m.stake_outcome(user, amount);
            let next = m.stake_next(user, amount);
            &&& answer is Ok <==> amount > 0 && fits
            &&& amount <= 0 ==> answer == Err::<(), _>(ModelError::InvalidAmount)
            &&& amount > 0 && !fits ==> answer == Err::<(), _>(ModelError::Overflow)
            &&& answer is Err ==> next == m
            &&& answer is Ok ==> {
                &&& next.sized()
                &&& next.balances[user] == m.balances[user] + amount
                &&& next.total_staked == m.total_staked + amount
                &&& next.stake_timestamps[user] == m.current_time
                &&& next.has_stake_timestamp[user]
                &&& other != user ==> next.balances[other] == m.balances[other]
                    && next.stake_timestamps[other] == m.stake_timestamps[other]
                    && next.has_stake_timestamp[other] == m.has_stake_timestamp[other]
                &&& next == (ModelView {
                    balances: next.balances,
                    total_staked: next.total_staked,
                    stake_timestamps: next.stake_timestamps,
                    has_stake_timestamp: next.has_stake_timestamp,
                    ..m
                })
            }
        }),
{
}

/// Every positive amount up to the balance can be withdrawn once the lock period
/// since the last stake has passed, at that very second too, or time has run to
/// its end, and at any time without a lock period; an emptied account forgets
/// its time.
pub proof fn law_withdrawals(m: ModelView, user: int, amount: i128, other: int)
    requires
        m.sized(),
        0 <= user < 3,
        0 <= other < 3,
        m.total_staked - amount >= i128::MIN,
    ensures
        ({
            let covered = amount <= m.balances[user];
            let waited = m.lock_period == 0 || m.has_stake_timestamp[user] && (m.current_time
                - m.stake_timestamps[user] >= m.lock_period || m.current_time == u64::MAX);
            let answer = m.unstake_outcome(user, amount);
            let next = m.unstake_next(user, amount);
            &&& m.unstake_abort(user, amount) is None
            &&& answer is Ok <==> amount > 0 && covered && waited
            &&& amount <= 0 ==> answer == Err::<(), _>(ModelError::InvalidAmount)
            &&& amount > 0 && !covered ==> answer == Err::<(), _>(ModelError::InsufficientBalance)
            &&& amount > 0 && covered && !waited ==> answer == Err::<(), _>(
                ModelError::TokensLocked,
            )
            &&& answer is Err ==> next == m
            &&& answer is Ok ==> {
                &&& next.sized()
                &&& next.balances[user] == m.balances[user] - amount
                &&& next.total_staked == m.total_staked - amount
                &&& next.has_stake_timestamp[user] == (m.has_stake_timestamp[user] && amount
                    < m.balances[user])
                &&& other != user ==> next.balances[other] == m.balances[other]
                    && next.has_stake_timestamp[other] == m.has_stake_timestamp[other]
                &&& next == (ModelView {
                    balances: next.balances,
                    total_staked: next.total_staked,
                    has_stake_timestamp: next.has_stake_timestamp,
                    ..m
                })
            }
        }),
{
}

/// What is staked can be withdrawn after the lock period, and everything is as
/// before but for the time of the stake.
pub proof fn law_stake_then_withdraw(m: ModelView, user: int, amount: i128, later: u64)
    requires
        sound(m),
        0 <= user < 3,
        amount > 0,
        m.balances[user] + amount <= i128::MAX,
        0 <= m.total_staked,
        m.total_staked + amount <= i128::MAX,
        m.current_time + m.lock_period <= later,
    ensures
        ({
            let waited = ModelView { current_time: later, ..m.stake_next(user, amount) };
            let next = waited.unstake_next(user, amount);
            &&& waited.unstake_outcome(user, amount) is Ok
            &&& next.balances =~= m.balances
            &&& next.total_staked == m.total_staked
            &&& next.unclaimed_rewards == m.unclaimed_rewards
            &&& next.pool_balance == m.pool_balance
        }),
{
    assert(0 <= m.balances[user]);
}

/// An upgrade can be made once one is proposed and its delay has passed, at that
/// very second too, or time has run to its end.
pub proof fn law_upgrades(m: ModelView)
    ensures
        m.upgrade_outcome() is Ok <==> (m.pending_upgrade_at is Some && (m.upgrade_delay == 0
            || m.current_time - m.pending_upgrade_at->0 >= m.upgrade_delay || m.current_time
            == u64::MAX)),
        m.upgrade_outcome() is Err ==> m.upgrade_outcome() == Err::<(), _>(
            ModelError::UpgradeDelayNotMet,
        ),
{
}

/// Every amount that is not negative and fits can be distributed: it goes into
/// the pool and into the count, and raises the index by the amount per staked
/// unit, to the last whole unit of the index, which counts in units of one to
/// 10^18. Nothing else changes. The sums are written one after the other, and
/// the first that does not fit ends it.
pub proof fn law_distributions(m: ModelView, reward: i128)
    ensures
        ({
            let scaled = reward * 1_000_000_000_000_000_000;
            let total = m.total_staked as int;
            let answer = m.distribute_outcome(reward);
            let next = m.distribute_next(reward);
            let rise = next.per_share_index - m.per_share_index;
            let sums = m.pool_balance + reward <= i128::MAX && m.total_distributed + reward
                <= i128::MAX;
            &&& reward < 0 ==> answer == Err::<(), _>(ModelError::InvalidAmount) && next == m
            &&& answer is Ok <==> reward >= 0 && sums && (total > 0 ==> scaled <= i128::MAX
                && m.per_share_index + scaled / total <= i128::MAX)
            &&& reward >= 0 && answer is Err ==> answer == Err::<(), _>(ModelError::Overflow)
            &&& reward >= 0 && m.pool_balance + reward > i128::MAX ==> next == m
            &&& reward >= 0 && m.pool_balance + reward <= i128::MAX && m.total_distributed + reward
                > i128::MAX ==> next == (ModelView {
                pool_balance: (m.pool_balance + reward) as i128,
                ..m
            })
            &&& reward >= 0 && sums && answer is Err ==> next == (ModelView {
                pool_balance: (m.pool_balance + reward) as i128,
                total_distributed: (m.total_distributed + reward) as i128,
                ..m
            })
            &&& answer is Ok ==> {
                &&& next.pool_balance == m.pool_balance + reward
                &&& next.total_distributed == m.total_distributed + reward
                &&& total <= 0 ==> rise == 0
                &&& total > 0 ==> rise * total <= scaled < (rise + 1) * total
                &&& next == (ModelView {
                    pool_balance: next.pool_balance,
                    total_distributed: next.total_distributed,
                    per_share_index: next.per_share_index,
                    ..m
                })
            }
        }),
{
    let scaled = reward * 1_000_000_000_000_000_000;
    let total = m.total_staked as int;
    if total > 0 && reward >= 0 {
        let q = scaled / total;
        assert(q * total <= scaled < (q + 1) * total && 0 <= q) by (nonlinear_arith)
            requires
                0 < total,
                0 <= scaled,
                q == scaled / total,
        ;
        assert(m.increment(reward) == q);
    }
}

/// What has accrued to a user is the rise of the index since the snapshot on the
/// balance, to the last whole unit, or the greatest number where it is more.
pub proof fn law_accrual_is_the_rise_on_the_balance(m: ModelView, user: int)
    requires
        sound(m),
        0 <= user < 3,
        m.per_share_index - m.user_index_snapshot[user] <= i128::MAX,
    ensures
        ({
            let grown = (m.per_share_index - m.user_index_snapshot[user]) * m.balances[user];
            let most = (i128::MAX + 1) * 1_000_000_000_000_000_000;
            &&& grown < most ==> m.accrued(user) * 1_000_000_000_000_000_000 <= grown < (m.accrued(
                user,
            ) + 1) * 1_000_000_000_000_000_000
            &&& grown >= most ==> m.accrued(user) == i128::MAX
            &&& m.accrued(user) >= 0
            &&& m.unclaimed_rewards[user] + m.accrued(user) <= i128::MAX ==> m.claimable(user)
                == m.unclaimed_rewards[user] + m.accrued(user)
        }),
{
    assert(0 <= m.balances[user]);
    let rise = m.per_share_index - m.user_index_snapshot[user];
    let b = m.balances[user] as int;
    assert(0 <= rise * b) by (nonlinear_arith)
        requires
            0 <= rise,
            0 <= b,
    ;
}

/// A staker can claim everything that has accrued and was set aside, and is paid
/// just that, out of the pool, into the count; afterwards nothing is left to
/// claim. Whoever has no stake is paid nothing. A count that does not fit ends it
/// after the pool's balance was written.
pub proof fn law_claims(m: ModelView, user: int, other: int)
    requires
        sound(m),
        0 <= user < 3,
        0 <= other < 3,
    ensures
        ({
            let due = m.claimable(user) as int;
            let answer = m.claim_outcome(user);
            let next = m.claim_next(user);
            let fits = i128::MIN <= m.pool_balance - due <= i128::MAX && i128::MIN
                <= m.total_claimed + due <= i128::MAX;
            &&& m.balances[user] == 0 ==> answer == Ok::<i128, ModelError>(0) && next == m
            &&& m.balances[user] > 0 ==> (answer is Ok <==> fits)
            &&& m.balances[user] > 0 && !(i128::MIN <= m.pool_balance - due <= i128::MAX) ==> answer
                == Err::<i128, _>(ModelError::InsufficientBalance)
            &&& m.balances[user] > 0 && !fits && i128::MIN <= m.pool_balance - due <= i128::MAX
                ==> answer == Err::<i128, _>(ModelError::Overflow)
            &&& m.balances[user] > 0 && !(i128::MIN <= m.pool_balance - due <= i128::MAX) ==> next
                == m
            &&& m.balances[user] > 0 && !fits && i128::MIN <= m.pool_balance - due <= i128::MAX
                ==> next == (ModelView { pool_balance: (m.pool_balance - due) as i128, ..m })
            &&& m.balances[user] > 0 && fits ==> {
                &&& answer == Ok::<i128, ModelError>(due as i128)
                &&& next.pool_balance == m.pool_balance - due
                &&& next.total_claimed == m.total_claimed + due
                &&& next.user_index_snapshot[user] == m.per_share_index
                &&& next.unclaimed_rewards[user] == 0
                &&& next.claimable(user) == 0
                &&& other != user ==> next.claimable(other) == m.claimable(other)
                &&& next == (ModelView {
                    pool_balance: next.pool_balance,
                    total_claimed: next.total_claimed,
                    user_index_snapshot: next.user_index_snapshot,
                    unclaimed_rewards: next.unclaimed_rewards,
                    ..m
                })
            }
        }),
{
    assert(0 <= m.balances[user]);
    let next = m.claim_next(user);
    if next.user_index_snapshot[user] == m.per_share_index {
        assert(0 * next.balances[user] == 0);
    }
}

/// From a distribution to a claim: a staker is paid the rise of the index on the
/// balance, on top of what had accrued, to the last whole unit.
pub proof fn law_distributed_then_claimed(m: ModelView, user: int, reward: i128)
    requires
        sound(m),
        0 <= user < 3,
        m.balances[user] > 0,
        m.unclaimed_rewards[user] == 0,
        m.user_index_snapshot[user] == m.per_share_index,
        m.total_staked > 0,
        m.distribute_outcome(reward) is Ok,
        (m.distribute_next(reward).per_share_index - m.per_share_index) <= i128::MAX,
        (m.distribute_next(reward).per_share_index - m.per_share_index) * m.balances[user]
            <= i128::MAX,
        m.distribute_next(reward).claim_outcome(user) is Ok,
    ensures
        ({
            let next = m.distribute_next(reward);
            let rise = next.per_share_index - m.per_share_index;
            let paid = next.claim_outcome(user)->Ok_0;
            &&& rise * m.total_staked <= reward * 1_000_000_000_000_000_000 < (rise + 1)
                * m.total_staked
            &&& paid * 1_000_000_000_000_000_000 <= rise * m.balances[user] < (paid + 1)
                * 1_000_000_000_000_000_000
        }),
{
    law_distributions(m, reward);
    let next = m.distribute_next(reward);
    let rise = next.per_share_index - m.per_share_index;
    let total = m.total_staked as int;
    assert(0 <= rise) by (nonlinear_arith)
        requires
            0 <= reward * 1_000_000_000_000_000_000,
            reward * 1_000_000_000_000_000_000 < (rise + 1) * total,
            total > 0,
    ;
    assert(sound(next)) by {
        assert forall|u: int| 0 <= u < 3 implies 0 <= #[trigger] next.balances[u]
            && next.user_index_snapshot[u] <= next.per_share_index && 0
            <= next.unclaimed_rewards[u] by {
            assert(0 <= m.balances[u]);
        }
    }
    law_accrual_is_the_rise_on_the_balance(next, user);
    law_claims(next, user, user);
}

/// The model as callers see it is what it holds.
pub proof fn law_view(m: PoolModel)
    ensures
        m@.balances == m.balances@,
        m@.total_staked == m.total_staked,
        m@.lock_period == m.lock_period,
        m@.stake_timestamps == m.stake_timestamps@,
        m@.has_stake_timestamp == m.has_stake_timestamp@,
        m@.reentrancy == m.reentrancy,
        m@.pending_upgrade_at == m.pending_upgrade_at,
        m@.upgrade_delay == m.upgrade_delay,
        m@.current_time == m.current_time,
        m@.per_share_index == m.per_share_index,
        m@.user_index_snapshot == m.user_index_snapshot@,
        m@.unclaimed_rewards == m.unclaimed_rewards@,
        m@.total_distributed == m.total_distributed,
        m@.total_claimed == m.total_claimed,
        m@.pool_balance == m.pool_balance,
        pool_model::sum3(m@.balances) == m.balances@[0] + m.balances@[1] + m.balances@[2],
{
}

/// A new snapshot is the current index, and nothing else changes.
pub proof fn law_snapshots(m: ModelView, user: int, other: int)
    requires
        m.sized(),
        0 <= user < 3,
        0 <= other < 3,
    ensures
        ({
            let next = m.with_snapshot(user);
            &&& next.user_index_snapshot[user] == m.per_share_index
            &&& other != user ==> next.user_index_snapshot[other] == m.user_index_snapshot[other]
            &&& next == (ModelView { user_index_snapshot: next.user_index_snapshot, ..m })
        }),
{
}

/// What the two checks say, wherever the sums are numbers: that no more was
/// claimed and set aside than was distributed, and that the stakes and what is
/// not claimed yet are in the pool.
pub proof fn law_checks(m: ModelView)
    requires
        sound(m),
        0 <= m.total_claimed,
        0 <= m.total_staked,
        m.total_claimed + m.unclaimed_rewards[0] + m.unclaimed_rewards[1] + m.unclaimed_rewards[2]
            <= i128::MAX,
        i128::MIN <= m.total_distributed - m.total_claimed <= i128::MAX,
        m.total_staked + m.total_distributed - m.total_claimed <= i128::MAX,
    ensures
        m.conserves() <==> m.total_claimed + m.unclaimed_rewards[0] + m.unclaimed_rewards[1]
            + m.unclaimed_rewards[2] <= m.total_distributed,
        m.covers() <==> m.total_staked + m.total_distributed - m.total_claimed <= m.pool_balance,
{
    assert(0 <= m.balances[0] && 0 <= m.balances[1] && 0 <= m.balances[2]);
}

} // verus!
