//! What holds of the staking pool as a whole.

use vstd::prelude::*;

use crate::mvp_staking_pool::{ContractError, PoolView, StakingPool, REWARD_INDEX_SCALE};
use crate::reentrancy_guard;
use crate::sums;
use crate::value::Address;

verus! {

/// Stake of all of `users`.
pub open spec fn stake_sum(pool: PoolView, users: Set<Address>) -> int {
    sums::sum_over(users, |u: Address| pool.staked(u) as int)
}

/// What the pool owes `user` in rewards, in units of the index: what can be
/// claimed, and the rise of the index on the stake.
pub open spec fn owed(pool: PoolView, user: Address) -> int {
    pool.claimable(user) * REWARD_INDEX_SCALE + pool.staked(user) * pool.rise(user)
}

/// What the pool owes all of `users` in rewards, in units of the index.
pub open spec fn owed_sum(pool: PoolView, users: Set<Address>) -> int {
    sums::sum_over(users, |u: Address| owed(pool, u))
}

/// The account of one user is in order.
pub open spec fn in_order(pool: PoolView, user: Address) -> bool {
    &&& 0 <= pool.used(user) <= pool.staked(user)
    &&& 0 <= pool.claimable(user)
    &&& pool.index(user) <= pool.global_index()
}

/// The books balance: every account is in order, nobody outside of `users` has
/// one, and the total is the sum of the stakes.
pub open spec fn balanced(pool: PoolView, users: Set<Address>) -> bool {
    &&& users.finite()
    &&& forall|u: Address| #[trigger] in_order(pool, u)
    &&& forall|u: Address| !users.contains(u) ==> #[trigger] pool.staked(u) == 0
    &&& forall|u: Address| !users.contains(u) ==> #[trigger] pool.claimable(u) == 0
    &&& pool.total() == stake_sum(pool, users)
}

/// The books balance, and rewards of `reserve`, funded and not paid out yet,
/// cover everything that is owed.
pub open spec fn solvent(pool: PoolView, users: Set<Address>, reserve: int) -> bool {
    balanced(pool, users) && owed_sum(pool, users) <= reserve * REWARD_INDEX_SCALE
}

proof fn lemma_accrual(pool: PoolView, user: Address)
    requires
        in_order(pool, user),
        pool.accrue_abort(user) is None,
    ensures
        ({
            let after = pool.accrued(user);
            &&& after.claimable(user) == pool.claimable(user) + pool.accrual(user)
            &&& pool.accrual(user) >= 0
            &&& after.rise(user) == 0
            &&& after.index(user) == pool.global_index()
            &&& after.staked(user) == pool.staked(user)
            &&& pool.accrual(user) * REWARD_INDEX_SCALE <= pool.staked(user) * pool.rise(user)
        }),
        forall|u: Address|
            u != user ==> #[trigger] pool.accrued(user).claimable(u) == pool.claimable(u),
        forall|u: Address|
            u != user ==> #[trigger] pool.accrued(user).index(u) == pool.index(u),
{
    let product = pool.staked(user) * pool.rise(user);
    assert(product >= 0) by (nonlinear_arith)
        requires
            pool.staked(user) >= 0,
            pool.rise(user) >= 0,
            product == pool.staked(user) * pool.rise(user),
    ;
    if pool.rise(user) == 0 {
        assert(product == 0) by (nonlinear_arith)
            requires
                pool.rise(user) == 0,
                product == pool.staked(user) * pool.rise(user),
        ;
    }
    if pool.staked(user) == 0 {
        assert(product == 0) by (nonlinear_arith)
            requires
                pool.staked(user) == 0,
                product == pool.staked(user) * pool.rise(user),
        ;
    }
    assert((product / (REWARD_INDEX_SCALE as int)) * REWARD_INDEX_SCALE <= product);
}

/// Crediting a user keeps the pool solvent.
proof fn lemma_solvent_accrued(pool: PoolView, users: Set<Address>, reserve: int, user: Address)
    requires
        solvent(pool, users, reserve),
        users.contains(user),
        pool.accrue_abort(user) is None,
    ensures
        solvent(pool.accrued(user), users, reserve),
        pool.accrued(user).rise(user) == 0,
        owed(pool.accrued(user), user) == pool.accrued(user).claimable(user) * REWARD_INDEX_SCALE,
{
    let after = pool.accrued(user);
    assert(in_order(pool, user));
    lemma_accrual(pool, user);
    assert forall|u: Address| #[trigger] in_order(after, u) by {
        assert(in_order(pool, u));
        assert(after.staked(u) == pool.staked(u) && after.used(u) == pool.used(u));
        if u != user {
            assert(after.claimable(u) == pool.claimable(u));
            assert(after.index(u) == pool.index(u));
        }
    }
    assert forall|u: Address| !users.contains(u) implies #[trigger] after.staked(u) == 0 by {
        assert(pool.staked(u) == 0);
    }
    assert forall|u: Address| !users.contains(u) implies #[trigger] after.claimable(u) == 0 by {
        assert(pool.claimable(u) == 0);
    }
    sums::lemma_sum_same(
        users,
        |u: Address| pool.staked(u) as int,
        |u: Address| after.staked(u) as int,
    );
    let f = |u: Address| owed(pool, u);
    let g = |u: Address| owed(after, u);
    assert forall|u: Address| users.contains(u) && u != user implies #[trigger] f(u) == g(u) by {
        assert(after.claimable(u) == pool.claimable(u));
        assert(after.index(u) == pool.index(u));
        assert(after.staked(u) == pool.staked(u));
    }
    sums::lemma_sum_update(users, f, g, user);
    assert(after.staked(user) * after.rise(user) == 0) by (nonlinear_arith)
        requires
            after.rise(user) == 0,
    ;
}

/// Solvency is about the accounts alone.
proof fn lemma_same_accounts(a: PoolView, b: PoolView, users: Set<Address>, reserve: int)
    requires
        solvent(a, users, reserve),
        b.staked_balances == a.staked_balances,
        b.used_stakes == a.used_stakes,
        b.user_reward_indexes == a.user_reward_indexes,
        b.claimable_rewards == a.claimable_rewards,
        b.total() == a.total(),
        b.global_index() == a.global_index(),
    ensures
        solvent(b, users, reserve),
{
    assert forall|u: Address| #[trigger] in_order(b, u) by {
        assert(in_order(a, u));
    }
    assert forall|u: Address| !users.contains(u) implies #[trigger] b.staked(u) == 0 by {
        assert(a.staked(u) == 0);
    }
    assert forall|u: Address| !users.contains(u) implies #[trigger] b.claimable(u) == 0 by {
        assert(a.claimable(u) == 0);
    }
    sums::lemma_sum_same(users, |u: Address| a.staked(u) as int, |u: Address| b.staked(u) as int);
    sums::lemma_sum_same(users, |u: Address| owed(a, u), |u: Address| owed(b, u));
}

/// Moving the stake of a user who has just been credited changes no debt.
proof fn lemma_solvent_moved(
    pool: PoolView,
    users: Set<Address>,
    reserve: int,
    user: Address,
    delta: int,
)
    requires
        solvent(pool, users, reserve),
        users.contains(user),
        pool.rise(user) == 0,
        pool.used(user) <= pool.staked(user) + delta <= i128::MAX,
        i128::MIN <= pool.total() + delta <= i128::MAX,
    ensures
        solvent(pool.with_stake(user, delta), users, reserve),
{
    let after = pool.with_stake(user, delta);
    assert forall|u: Address| #[trigger] in_order(after, u) by {
        assert(in_order(pool, u));
    }
    assert forall|u: Address| !users.contains(u) implies #[trigger] after.staked(u) == 0 by {
        assert(pool.staked(u) == 0);
    }
    assert forall|u: Address| !users.contains(u) implies #[trigger] after.claimable(u) == 0 by {
        assert(pool.claimable(u) == 0);
    }
    sums::lemma_sum_update(
        users,
        |u: Address| pool.staked(u) as int,
        |u: Address| after.staked(u) as int,
        user,
    );
    let f = |u: Address| owed(pool, u);
    let g = |u: Address| owed(after, u);
    assert forall|u: Address| users.contains(u) && u != user implies #[trigger] f(u) == g(u) by {}
    sums::lemma_sum_update(users, f, g, user);
    assert(after.rise(user) == 0);
    assert(pool.staked(user) * pool.rise(user) == 0) by (nonlinear_arith)
        requires
            pool.rise(user) == 0,
    ;
    assert(after.staked(user) * after.rise(user) == 0) by (nonlinear_arith)
        requires
            after.rise(user) == 0,
    ;
}

/// Whoever joins has an empty account, so that the set of users may grow
/// before a first stake without disturbing the books.
pub proof fn law_newcomer(pool: PoolView, users: Set<Address>, reserve: int, user: Address)
    requires
        solvent(pool, users, reserve),
    ensures
        solvent(pool, users.insert(user), reserve),
{
    if !users.contains(user) {
        assert(in_order(pool, user));
        assert(pool.staked(user) == 0 && pool.claimable(user) == 0);
        let f = |u: Address| pool.staked(u) as int;
        let g = |u: Address| owed(pool, u);
        assert(users.insert(user).remove(user) =~= users);
        sums::lemma_sum_split(users.insert(user), f, user);
        sums::lemma_sum_split(users.insert(user), g, user);
        assert(pool.staked(user) * pool.rise(user) == 0) by (nonlinear_arith)
            requires
                pool.staked(user) == 0,
        ;
    } else {
        assert(users.insert(user) =~= users);
    }
}

/// A pool that was just set up owes nothing.
pub proof fn law_fresh_pool_is_solvent(pool: PoolView)
    requires
        pool.total() == 0,
        pool.global_index() == 0,
        pool.staked_balances == Map::<Address, i128>::empty(),
        pool.used_stakes == Map::<Address, i128>::empty(),
        pool.user_reward_indexes == Map::<Address, i128>::empty(),
        pool.claimable_rewards == Map::<Address, i128>::empty(),
    ensures
        solvent(pool, Set::empty(), 0),
{
}

/// Staking keeps the pool solvent: the total stays the sum of the stakes, and
/// no reward is promised that was not funded.
pub proof fn law_stake_keeps_solvency(
    pool: PoolView,
    users: Set<Address>,
    reserve: int,
    user: Address,
    amount: i128,
    lock: bool,
)
    requires
        solvent(pool, users, reserve),
        users.contains(user),
        pool.stake_abort(user, amount) is None,
    ensures
        solvent(
            pool.accrued(user).with_stake(user, amount as int).with_lock(lock),
            users,
            reserve,
        ),
{
    lemma_solvent_accrued(pool, users, reserve, user);
    assert(in_order(pool.accrued(user), user));
    lemma_solvent_moved(pool.accrued(user), users, reserve, user, amount as int);
    lemma_same_accounts(
        pool.accrued(user).with_stake(user, amount as int),
        pool.accrued(user).with_stake(user, amount as int).with_lock(lock),
        users,
        reserve,
    );
}

/// Unstaking keeps the pool solvent, whether it goes through or is refused.
pub proof fn law_unstake_keeps_solvency(
    pool: PoolView,
    users: Set<Address>,
    reserve: int,
    user: Address,
    amount: i128,
    lock: bool,
)
    requires
        solvent(pool, users, reserve),
        users.contains(user),
        pool.unstake_abort(user, amount) is None,
    ensures
        pool.unstake_outcome(user, amount) is Ok ==> solvent(
            pool.accrued(user).with_stake(user, -amount).with_lock(lock),
            users,
            reserve,
        ),
        pool.unstake_outcome(user, amount) is Err ==> solvent(
            StakingPool::unstake_refused(pool, user),
            users,
            reserve,
        ),
{
    if pool.unstake_outcome(user, amount) is Ok {
        lemma_solvent_accrued(pool, users, reserve, user);
        assert(in_order(pool.accrued(user), user));
        lemma_solvent_moved(pool.accrued(user), users, reserve, user, -amount);
        lemma_same_accounts(
            pool.accrued(user).with_stake(user, -amount),
            pool.accrued(user).with_stake(user, -amount).with_lock(lock),
            users,
            reserve,
        );
    } else if !reentrancy_guard::held(pool.reentrancy) {
        lemma_solvent_accrued(pool, users, reserve, user);
        lemma_same_accounts(
            pool.accrued(user),
            pool.accrued(user).with_lock(false),
            users,
            reserve,
        );
    }
}

/// Marking stake as used keeps the pool solvent, and never marks more than the
/// user has staked.
pub proof fn law_utilize_keeps_solvency(
    pool: PoolView,
    users: Set<Address>,
    reserve: int,
    admin: Address,
    user: Address,
    amount: i128,
)
    requires
        solvent(pool, users, reserve),
        users.contains(user),
        pool.utilize_abort(admin, user, amount) is None,
        pool.utilize_outcome(admin, user, amount) is Ok,
    ensures
        solvent(
            pool.accrued(user).with_used(user, pool.used(user) + amount),
            users,
            reserve,
        ),
{
    lemma_solvent_accrued(pool, users, reserve, user);
    let before = pool.accrued(user);
    let after = before.with_used(user, pool.used(user) + amount);
    assert(in_order(before, user));
    assert forall|u: Address| #[trigger] in_order(after, u) by {
        assert(in_order(before, u));
        assert(after.staked(u) == before.staked(u));
    }
    assert forall|u: Address| !users.contains(u) implies #[trigger] after.staked(u) == 0 by {
        assert(before.staked(u) == 0);
    }
    assert forall|u: Address| !users.contains(u) implies #[trigger] after.claimable(u) == 0 by {
        assert(before.claimable(u) == 0);
    }
    sums::lemma_sum_same(
        users,
        |u: Address| before.staked(u) as int,
        |u: Address| after.staked(u) as int,
    );
    sums::lemma_sum_same(users, |u: Address| owed(before, u), |u: Address| owed(after, u));
}

/// Funding rewards adds no more to what is owed than what was funded.
pub proof fn law_funding_keeps_solvency(
    pool: PoolView,
    users: Set<Address>,
    reserve: int,
    from: Address,
    amount: i128,
    lock: bool,
)
    requires
        solvent(pool, users, reserve),
        pool.fund_abort(from, amount) is None,
    ensures
        solvent(
            pool.with_rewards(amount, pool.total()).with_lock(lock),
            users,
            reserve + amount,
        ),
{
    let total = pool.total();
    let after = pool.with_rewards(amount, total);
    let inc = PoolView::increment(amount, total);
    let scaled = amount * REWARD_INDEX_SCALE;
    assert(inc >= 0 && inc * total <= scaled) by (nonlinear_arith)
        requires
            inc == scaled / (total as int),
            total > 0,
            scaled >= 0,
    ;
    assert forall|u: Address| #[trigger] in_order(after, u) by {
        assert(in_order(pool, u));
    }
    assert forall|u: Address| !users.contains(u) implies #[trigger] after.staked(u) == 0 by {
        assert(pool.staked(u) == 0);
    }
    assert forall|u: Address| !users.contains(u) implies #[trigger] after.claimable(u) == 0 by {
        assert(pool.claimable(u) == 0);
    }
    let stake = |u: Address| pool.staked(u) as int;
    sums::lemma_sum_same(users, stake, |u: Address| after.staked(u) as int);
    let f = |u: Address| owed(pool, u);
    let h = |u: Address| owed(after, u);
    assert forall|u: Address| users.contains(u) implies #[trigger] h(u) == f(u) + inc * stake(
        u,
    ) by {
        assert(in_order(pool, u));
        assert(after.rise(u) == pool.rise(u) + inc);
        assert(pool.staked(u) * (pool.rise(u) + inc) == pool.staked(u) * pool.rise(u) + inc
            * pool.staked(u)) by (nonlinear_arith);
    }
    sums::lemma_sum_linear(users, f, stake, h, inc);
    assert((reserve + amount) * REWARD_INDEX_SCALE == reserve * REWARD_INDEX_SCALE + scaled)
        by (nonlinear_arith)
        requires
            scaled == amount * REWARD_INDEX_SCALE,
    ;
    lemma_same_accounts(after, after.with_lock(lock), users, reserve + amount);
}

/// Claiming pays no more than was funded and not paid out yet, and what is left
/// covers what is owed to everyone else.
pub proof fn law_claim_keeps_solvency(
    pool: PoolView,
    users: Set<Address>,
    reserve: int,
    to: Address,
    lock: bool,
)
    requires
        solvent(pool, users, reserve),
        users.contains(to),
        pool.claim_abort(to) is None,
    ensures
        0 <= pool.payout(to) <= reserve,
        solvent(
            pool.accrued(to).with_claimed(to).with_lock(lock),
            users,
            reserve - pool.payout(to),
        ),
{
    let before = pool.accrued(to);
    assert(in_order(pool, to));
    lemma_accrual(pool, to);
    lemma_solvent_accrued(pool, users, reserve, to);
    let paid = pool.payout(to);
    assert(before.claimable(to) == paid);
    let f = |u: Address| owed(before, u);
    assert forall|u: Address| users.contains(u) implies #[trigger] f(u) >= 0 by {
        assert(in_order(before, u));
        assert(before.staked(u) * before.rise(u) >= 0) by (nonlinear_arith)
            requires
                before.staked(u) >= 0,
                before.rise(u) >= 0,
        ;
    }
    sums::lemma_sum_bounds(users, f, to);
    let after = before.with_claimed(to);
    assert forall|u: Address| #[trigger] in_order(after, u) by {
        assert(in_order(before, u));
    }
    assert forall|u: Address| !users.contains(u) implies #[trigger] after.staked(u) == 0 by {
        assert(before.staked(u) == 0);
    }
    assert forall|u: Address| !users.contains(u) implies #[trigger] after.claimable(u) == 0 by {
        assert(before.claimable(u) == 0);
    }
    sums::lemma_sum_same(
        users,
        |u: Address| before.staked(u) as int,
        |u: Address| after.staked(u) as int,
    );
    let g = |u: Address| owed(after, u);
    assert forall|u: Address| users.contains(u) && u != to implies #[trigger] f(u) == g(u) by {}
    sums::lemma_sum_update(users, f, g, to);
    assert(after.staked(to) * after.rise(to) == 0) by (nonlinear_arith)
        requires
            after.rise(to) == 0,
    ;
    assert((reserve - paid) * REWARD_INDEX_SCALE == reserve * REWARD_INDEX_SCALE - paid
        * REWARD_INDEX_SCALE) by (nonlinear_arith);
    lemma_same_accounts(after, after.with_lock(lock), users, reserve - paid);
}

/// A look at what can be claimed keeps the pool solvent, changes no payout, and
/// a second look finds the same.
pub proof fn law_looking_is_harmless(
    pool: PoolView,
    users: Set<Address>,
    reserve: int,
    user: Address,
    other: Address,
)
    requires
        solvent(pool, users, reserve),
        users.contains(user),
        pool.accrue_abort(user) is None,
    ensures
        solvent(pool.accrued(user), users, reserve),
        pool.accrued(user).payout(other) == pool.payout(other),
        pool.accrued(user).accrued(user) =~= pool.accrued(user),
{
    lemma_solvent_accrued(pool, users, reserve, user);
    assert(in_order(pool, user));
    lemma_accrual(pool, user);
    let after = pool.accrued(user);
    assert(after.staked(user) * after.rise(user) == 0) by (nonlinear_arith)
        requires
            after.rise(user) == 0,
    ;
    if other != user {
        assert(after.claimable(other) == pool.claimable(other));
        assert(after.index(other) == pool.index(other));
    }
}

/// Shares: when `amount` is spread, a staker who was credited before gets at
/// most the exact share, and falls short of it by less than one unit and the
/// rounding of the index on the stake.
pub proof fn law_reward_is_proportional(pool: PoolView, from: Address, user: Address, amount: i128)
    requires
        pool.fund_abort(from, amount) is None,
        pool.rise(user) == 0,
        pool.index(user) == pool.global_index(),
        0 < pool.staked(user),
    ensures
        ({
            let gain = pool.with_rewards(amount, pool.total()).accrual(user);
            let share = pool.staked(user) * amount;
            &&& 0 <= gain * pool.total() <= share
            &&& (share - gain * pool.total()) * REWARD_INDEX_SCALE < pool.total() * (
            REWARD_INDEX_SCALE + pool.staked(user))
        }),
{
    let total = pool.total() as int;
    let s = pool.staked(user) as int;
    let scale = REWARD_INDEX_SCALE as int;
    let inc = PoolView::increment(amount, pool.total());
    let after = pool.with_rewards(amount, pool.total());
    let scaled = amount * scale;
    assert(inc >= 0 && scaled - total < inc * total <= scaled) by (nonlinear_arith)
        requires
            inc == scaled / total,
            total > 0,
            scaled >= 0,
    ;
    assert(after.rise(user) == inc);
    let gain = (s * inc) / scale;
    assert(after.accrual(user) == gain);
    assert(s * inc >= 0) by (nonlinear_arith)
        requires
            s > 0,
            inc >= 0,
    ;
    assert(gain >= 0 && s * inc - scale < gain * scale <= s * inc);
    assert(0 <= gain * total) by (nonlinear_arith)
        requires
            gain >= 0,
            total > 0,
    ;
    // gain * scale * total <= s * inc * total <= s * amount * scale
    assert((gain * scale) * total <= (s * inc) * total) by (nonlinear_arith)
        requires
            gain * scale <= s * inc,
            total > 0,
    ;
    assert((s * inc) * total == s * (inc * total)) by (nonlinear_arith);
    assert(s * (inc * total) <= s * scaled) by (nonlinear_arith)
        requires
            s > 0,
            inc * total <= scaled,
    ;
    assert((gain * scale) * total == (gain * total) * scale) by (nonlinear_arith);
    assert(s * scaled == (s * amount) * scale) by (nonlinear_arith)
        requires
            scaled == amount * scale,
    ;
    assert(gain * total <= s * amount) by (nonlinear_arith)
        requires
            (gain * total) * scale <= (s * amount) * scale,
            scale > 0,
    ;
    // (s * inc - scale) * total < gain * scale * total, and s * scaled - s * total < s * inc * total
    assert((s * inc) * total - scale * total < (gain * scale) * total) by (nonlinear_arith)
        requires
            s * inc - scale < gain * scale,
            total > 0,
    ;
    assert(s * scaled - s * total < s * (inc * total)) by (nonlinear_arith)
        requires
            s > 0,
            scaled - total < inc * total,
    ;
    assert((s * amount - gain * total) * scale == (s * amount) * scale - (gain * total) * scale)
        by (nonlinear_arith);
    assert(total * (scale + s) == scale * total + s * total) by (nonlinear_arith);
}

/// The sole staker gets every unit that was funded wherever the index divides
/// evenly.
pub proof fn law_sole_staker_gets_all(pool: PoolView, from: Address, user: Address, amount: i128)
    requires
        pool.fund_abort(from, amount) is None,
        pool.index(user) == pool.global_index(),
        pool.staked(user) == pool.total(),
        (amount * REWARD_INDEX_SCALE) % (pool.total() as int) == 0,
    ensures
        pool.with_rewards(amount, pool.total()).accrual(user) == amount,
{
    let total = pool.total() as int;
    let scale = REWARD_INDEX_SCALE as int;
    let inc = PoolView::increment(amount, pool.total());
    let after = pool.with_rewards(amount, pool.total());
    assert(inc >= 0 && total * inc == amount * scale) by (nonlinear_arith)
        requires
            inc == (amount * scale) / total,
            (amount * scale) % total == 0,
            total > 0,
            amount > 0,
            scale > 0,
    ;
    assert(after.rise(user) == inc);
    assert((amount * scale) / scale == amount) by (nonlinear_arith)
        requires
            scale > 0,
    ;
}

/// Two stakers of one amount who were credited at one index gain the same.
pub proof fn law_equal_stakers_gain_equally(pool: PoolView, a: Address, b: Address)
    requires
        pool.staked(a) == pool.staked(b),
        pool.index(a) == pool.index(b),
    ensures
        pool.accrual(a) == pool.accrual(b),
{
}

/// A newcomer's stake earns nothing of what was funded before: right after the
/// first stake there is nothing to claim, whatever the index is.
pub proof fn law_late_staker_earns_nothing_earlier(pool: PoolView, user: Address, amount: i128)
    requires
        in_order(pool, user),
        pool.staked(user) == 0,
        pool.claimable(user) == 0,
        pool.stake_abort(user, amount) is None,
    ensures
        pool.accrued(user).with_stake(user, amount as int).payout(user) == 0,
{
    lemma_accrual(pool, user);
    let after = pool.accrued(user).with_stake(user, amount as int);
    assert(pool.staked(user) * pool.rise(user) == 0) by (nonlinear_arith)
        requires
            pool.staked(user) == 0,
    ;
    assert(after.rise(user) == 0);
    assert(after.staked(user) * after.rise(user) == 0) by (nonlinear_arith)
        requires
            after.rise(user) == 0,
    ;
}

/// Whoever has no stake and nothing to claim stays without rewards however much
/// is funded.
pub proof fn law_bystander_gets_nothing(pool: PoolView, user: Address, amount: i128, total: i128)
    requires
        pool.staked(user) == 0,
        pool.claimable(user) == 0,
    ensures
        pool.payout(user) == 0,
        pool.with_rewards(amount, total).payout(user) == 0,
{
}

/// After a claim there is nothing left to claim.
pub proof fn law_claim_is_idempotent(pool: PoolView, to: Address, lock: bool)
    requires
        in_order(pool, to),
        pool.claim_abort(to) is None,
    ensures
        pool.accrued(to).with_claimed(to).with_lock(lock).payout(to) == 0,
{
    lemma_accrual(pool, to);
    let after = pool.accrued(to).with_claimed(to).with_lock(lock);
    assert(after.rise(to) == 0);
    assert(after.staked(to) * after.rise(to) == 0) by (nonlinear_arith)
        requires
            after.rise(to) == 0,
    ;
}

/// Used stake stays: a withdrawal of more than the unused part is refused, and
/// one that goes through leaves at least the used part staked.
pub proof fn law_used_stake_is_locked(pool: PoolView, user: Address, amount: i128)
    requires
        in_order(pool, user),
        pool.unstake_abort(user, amount) is None,
    ensures
        amount > pool.staked(user) - pool.used(user) ==> pool.unstake_outcome(user, amount) is Err,
        pool.unstake_outcome(user, amount) is Ok ==> pool.accrued(user).with_stake(
            user,
            -amount,
        ).staked(user) >= pool.used(user),
{
}

/// While the lock is held, every entry point that calls the token is refused.
pub proof fn law_lock_refuses_nested_calls(
    pool: PoolView,
    user: Address,
    amount: i128,
)
    ensures
        ({
            let locked = pool.with_lock(true);
            &&& locked.stake_abort(user, amount) == Some("reentrancy detected")
            &&& locked.fund_abort(user, amount) == Some("reentrancy detected")
            &&& locked.claim_abort(user) == Some("reentrancy detected")
            &&& locked.unstake_abort(user, amount) is None
            &&& locked.unstake_outcome(user, amount) == Err::<(), _>(
                ContractError::ReentrancyDetected,
            )
        }),
{
}

/// While paused, every entry point that changes something aborts, whatever
/// governance would say; a nested `unstake` and a call by someone who is not the
/// admin are refused before that.
pub proof fn law_pause_stops_changes(
    pool: PoolView,
    admin: Address,
    user: Address,
    amount: i128,
    abort: Option<&'static str>,
)
    requires
        pool.is_paused(),
        pool.governance.admin == Some(admin),
        !reentrancy_guard::held(pool.reentrancy),
    ensures
        pool.stake_abort(user, amount) == Some("contract is paused"),
        pool.unstake_abort(user, amount) == Some("contract is paused"),
        pool.utilize_abort(admin, user, amount) == Some("contract is paused"),
        pool.fund_abort(admin, amount) == Some("contract is paused"),
        pool.claim_abort(user) == Some("contract is paused"),
        pool.governed_abort(abort) == Some("contract is paused"),
{
}

} // verus!
