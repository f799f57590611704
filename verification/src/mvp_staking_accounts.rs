//! What each operation of the staking pool does to the accounts.

use vstd::prelude::*;

use crate::access_control::PausableError;
use crate::host::{Action, Data, Event, Topics, Value};
use crate::mvp_staking_pool;
use crate::mvp_staking_pool::{ContractError, PoolView, StakingPool};
use crate::upgrade_governance::{UpgradeGovernance, UpgradeGovernanceError};
use crate::value::Address;

verus! {

/// What is stored under `user`, or zero.
pub open spec fn stored(amounts: Map<Address, i128>, user: Address) -> int {
    if amounts.dom().contains(user) {
        amounts[user] as int
    } else {
        0
    }
}

/// What is stored, or zero.
pub open spec fn number(amount: Option<i128>) -> int {
    match amount {
        Some(x) => x as int,
        None => 0,
    }
}

/// How far the index has risen since `user` was last credited.
pub open spec fn risen(pool: PoolView, user: Address) -> int {
    number(pool.global_reward_index) - stored(pool.user_reward_indexes, user)
}

/// The account of `user` is one that the operations make: nothing in it is
/// negative, and it was credited at an index that was reached.
pub open spec fn sound(pool: PoolView, user: Address) -> bool {
    &&& 0 <= stored(pool.staked_balances, user)
    &&& 0 <= stored(pool.claimable_rewards, user)
    &&& 0 <= risen(pool, user)
}

/// The pool as callers see it is what is stored.
pub proof fn law_view(pool: StakingPool)
    ensures
        pool@.governance == pool.governance,
        pool@.token == pool.token,
        pool@.total_staked == pool.total_staked,
        pool@.paused == pool.paused,
        pool@.global_reward_index == pool.global_reward_index,
        pool@.staked_balances == pool.staked_balances@,
        pool@.used_stakes == pool.used_stakes@,
        pool@.user_reward_indexes == pool.user_reward_indexes@,
        pool@.claimable_rewards == pool.claimable_rewards@,
        pool@.reentrancy == pool.reentrancy,
{
}

/// Queries answer what is stored, and unused is what is staked and not used.
pub proof fn law_queries_answer_what_is_stored(pool: PoolView, user: Address)
    ensures
        pool.staked(user) == stored(pool.staked_balances, user),
        pool.used(user) == stored(pool.used_stakes, user),
        pool.index(user) == stored(pool.user_reward_indexes, user),
        pool.claimable(user) == stored(pool.claimable_rewards, user),
        pool.total() == number(pool.total_staked),
        pool.global_index() == number(pool.global_reward_index),
        pool.is_paused() <==> pool.paused == Some(true),
        0 <= stored(pool.used_stakes, user) <= stored(pool.staked_balances, user) ==> pool.unused(
            user,
        ) == stored(pool.staked_balances, user) - stored(pool.used_stakes, user),
{
}

/// What a staker is credited is the rise of the index on the stake, to the last
/// whole unit; the index counts in units of one to 10^12.
pub proof fn law_accrual_is_the_rise_on_the_stake(pool: PoolView, user: Address)
    requires
        sound(pool, user),
    ensures
        pool.accrual(user) * 1_000_000_000_000 <= stored(pool.staked_balances, user) * risen(
            pool,
            user,
        ) < (pool.accrual(user) + 1) * 1_000_000_000_000,
        pool.accrual(user) >= 0,
        stored(pool.staked_balances, user) == 0 || risen(pool, user) == 0 ==> pool.accrual(user)
            == 0,
{
    let s = stored(pool.staked_balances, user);
    let r = risen(pool, user);
    assert(s * r >= 0 && (s == 0 || r == 0 ==> s * r == 0)) by (nonlinear_arith)
        requires
            s >= 0,
            r >= 0,
    ;
}

/// A claim pays everything that is claimable: what was credited before and not
/// paid, and the rise of the index since on what is staked, whether anything is
/// still staked or not.
pub proof fn law_claim_pays_everything(pool: PoolView, user: Address)
    requires
        sound(pool, user),
    ensures
        ({
            let credited = stored(pool.claimable_rewards, user);
            let due = credited * 1_000_000_000_000 + stored(pool.staked_balances, user) * risen(
                pool,
                user,
            );
            &&& pool.payout(user) == credited + pool.accrual(user)
            &&& pool.payout(user) * 1_000_000_000_000 <= due < (pool.payout(user) + 1)
                * 1_000_000_000_000
            &&& pool.payout(user) >= credited
            &&& stored(pool.staked_balances, user) == 0 ==> pool.payout(user) == credited
        }),
{
    law_accrual_is_the_rise_on_the_stake(pool, user);
}

/// Crediting a user moves the rise of the index into what is claimable, and
/// changes nothing else; the other accounts stay as they were.
pub proof fn law_crediting(pool: PoolView, user: Address, other: Address)
    requires
        sound(pool, user),
        pool.accrue_abort(user) is None,
    ensures
        ({
            let after = pool.accrued(user);
            &&& stored(after.claimable_rewards, user) == stored(pool.claimable_rewards, user)
                + pool.accrual(user)
            &&& risen(after, user) == 0
            &&& after == (PoolView {
                claimable_rewards: after.claimable_rewards,
                user_reward_indexes: after.user_reward_indexes,
                ..pool
            })
            &&& other != user ==> stored(after.claimable_rewards, other) == stored(
                pool.claimable_rewards,
                other,
            )
            &&& other != user ==> stored(after.user_reward_indexes, other) == stored(
                pool.user_reward_indexes,
                other,
            )
            &&& after.payout(user) == pool.payout(user)
            &&& after.payout(other) == pool.payout(other)
        }),
{
    let after = pool.accrued(user);
    law_accrual_is_the_rise_on_the_stake(pool, user);
    assert(risen(after, user) == 0);
    law_accrual_is_the_rise_on_the_stake(after, user);
}

/// When crediting a user aborts: only where a number would not fit.
pub proof fn law_crediting_aborts_on_overflow(pool: PoolView, user: Address)
    ensures
        ({
            let s = stored(pool.staked_balances, user);
            let r = risen(pool, user);
            let abort = pool.accrue_abort(user);
            &&& r <= 0 || s <= 0 ==> abort is None
            &&& r > 0 && s > 0 && r > i128::MAX ==> abort == Some(
                "attempt to subtract with overflow",
            )
            &&& r > 0 && s > 0 && r <= i128::MAX && s * r > i128::MAX ==> abort == Some(
                "attempt to multiply with overflow",
            )
            &&& r > 0 && s > 0 && r <= i128::MAX && s * r <= i128::MAX && stored(
                pool.claimable_rewards,
                user,
            ) + pool.accrual(user) > i128::MAX ==> abort == Some("attempt to add with overflow")
            &&& r > 0 && s > 0 && r <= i128::MAX && s * r <= i128::MAX && stored(
                pool.claimable_rewards,
                user,
            ) + pool.accrual(user) <= i128::MAX ==> abort is None
        }),
{
}

/// Moving stake in or out costs nobody a reward: what each user would be paid is
/// the same before and after, for the one who moves stake too, down to an empty
/// stake; and so it is when stake is marked as used.
pub proof fn law_moving_stake_keeps_rewards(
    pool: PoolView,
    user: Address,
    delta: int,
    used: int,
    lock: bool,
    other: Address,
)
    requires
        sound(pool, user),
        pool.accrue_abort(user) is None,
        0 <= stored(pool.staked_balances, user) + delta <= i128::MAX,
    ensures
        ({
            let after = pool.accrued(user).with_stake(user, delta).with_lock(lock);
            let marked = pool.accrued(user).with_used(user, used);
            &&& after.payout(user) == pool.payout(user)
            &&& after.payout(other) == pool.payout(other)
            &&& marked.payout(user) == pool.payout(user)
            &&& marked.payout(other) == pool.payout(other)
        }),
{
    law_crediting(pool, user, other);
    let after = pool.accrued(user).with_stake(user, delta).with_lock(lock);
    let marked = pool.accrued(user).with_used(user, used);
    assert(risen(after, user) == 0 && risen(marked, user) == 0);
    law_accrual_is_the_rise_on_the_stake(after, user);
    law_accrual_is_the_rise_on_the_stake(marked, user);
    law_accrual_is_the_rise_on_the_stake(pool.accrued(user), user);
}

/// From funding to payment: whoever is staked when rewards are funded is paid
/// their rise of the index, on top of what was claimable before, even if all the
/// stake is withdrawn before the claim.
pub proof fn law_funded_then_unstaked_then_claimed(
    pool: PoolView,
    from: Address,
    user: Address,
    amount: i128,
    withdrawn: i128,
)
    requires
        sound(pool, user),
        risen(pool, user) == 0,
        pool.fund_abort(from, amount) is None,
        pool.with_rewards(amount, pool.total()).accrue_abort(user) is None,
        0 < withdrawn <= stored(pool.staked_balances, user),
    ensures
        ({
            let funded = pool.with_rewards(amount, pool.total()).with_lock(false);
            let left = funded.accrued(user).with_stake(user, -withdrawn).with_lock(false);
            let rise = number(funded.global_reward_index) - number(pool.global_reward_index);
            let credited = stored(pool.claimable_rewards, user);
            let share = stored(pool.staked_balances, user) * rise;
            &&& rise * number(pool.total_staked) <= amount * 1_000_000_000_000 < (rise + 1)
                * number(pool.total_staked)
            &&& left.payout(user) == funded.payout(user)
            &&& (left.payout(user) - credited) * 1_000_000_000_000 <= share < (left.payout(user)
                - credited + 1) * 1_000_000_000_000
        }),
{
    law_index_rises_with_funds(pool, from, amount);
    let funded = pool.with_rewards(amount, pool.total()).with_lock(false);
    assert(funded.accrue_abort(user) is None) by {
        let bare = pool.with_rewards(amount, pool.total());
        law_crediting_aborts_on_overflow(bare, user);
        law_crediting_aborts_on_overflow(funded, user);
        assert(funded.accrual(user) == bare.accrual(user));
    }
    assert(sound(funded, user));
    law_moving_stake_keeps_rewards(funded, user, -withdrawn, 0, false, user);
    law_claim_pays_everything(funded, user);
}

/// Funding raises the index by the funded amount per staked unit, to the last
/// whole unit of the index, and changes nothing else.
pub proof fn law_index_rises_with_funds(pool: PoolView, from: Address, amount: i128)
    requires
        pool.fund_abort(from, amount) is None,
    ensures
        ({
            let after = pool.with_rewards(amount, pool.total());
            let rise = number(after.global_reward_index) - number(pool.global_reward_index);
            let total = number(pool.total_staked);
            &&& rise * total <= amount * 1_000_000_000_000 < (rise + 1) * total
            &&& 0 <= rise
            &&& after == (PoolView { global_reward_index: after.global_reward_index, ..pool })
        }),
{
    let total = number(pool.total_staked);
    let scaled = amount * 1_000_000_000_000;
    let inc = scaled / total;
    assert(inc * total <= scaled < (inc + 1) * total && 0 <= inc) by (nonlinear_arith)
        requires
            0 < total,
            0 < scaled,
            inc == scaled / total,
    ;
    assert(PoolView::increment(amount, pool.total()) == inc);
}

/// Everybody can stake every positive amount on a running pool that has a token,
/// outside of another call, as long as the numbers fit; each refusal has its own
/// message.
pub proof fn law_stakes_go_through(pool: PoolView, user: Address, amount: i128)
    ensures
        ({
            let free = pool.reentrancy != Some(true);
            let running = free && pool.paused != Some(true);
            let fits = stored(pool.staked_balances, user) + amount <= i128::MAX && number(
                pool.total_staked,
            ) + amount <= i128::MAX;
            let credits = pool.accrue_abort(user) is None;
            let abort = pool.stake_abort(user, amount);
            &&& abort is None <==> running && amount > 0 && credits && fits && pool.token is Some
            &&& !free ==> abort == Some("reentrancy detected")
            &&& free && !running ==> abort == Some("contract is paused")
            &&& running && amount <= 0 ==> abort == Some("amount must be positive")
            &&& running && amount > 0 && !credits ==> abort == pool.accrue_abort(user)
            &&& running && amount > 0 && credits && !fits ==> abort == Some(
                "attempt to add with overflow",
            )
            &&& running && amount > 0 && credits && fits && pool.token is None ==> abort == Some(
                "token not set",
            )
        }),
{
}

/// A stake adds to what the user has staked, and to the total, and credits the
/// user; nobody else's account changes.
pub proof fn law_stake_is_booked(
    pool: PoolView,
    user: Address,
    delta: int,
    lock: bool,
    other: Address,
)
    requires
        i128::MIN <= stored(pool.staked_balances, user) + delta <= i128::MAX,
        i128::MIN <= number(pool.total_staked) + delta <= i128::MAX,
    ensures
        ({
            let after = pool.with_stake(user, delta);
            &&& stored(after.staked_balances, user) == stored(pool.staked_balances, user) + delta
            &&& number(after.total_staked) == number(pool.total_staked) + delta
            &&& other != user ==> stored(after.staked_balances, other) == stored(
                pool.staked_balances,
                other,
            )
            &&& after == (PoolView {
                staked_balances: after.staked_balances,
                total_staked: after.total_staked,
                ..pool
            })
            &&& pool.with_lock(lock) == (PoolView { reentrancy: Some(lock), ..pool })
        }),
{
}

/// Everybody can withdraw every positive amount up to what they have staked and
/// is not used, on a running pool that has a token; more is refused with an
/// error, and a nested call before anything else.
pub proof fn law_withdrawals_go_through(pool: PoolView, user: Address, amount: i128)
    requires
        0 <= stored(pool.used_stakes, user) <= stored(pool.staked_balances, user),
        0 <= number(pool.total_staked),
    ensures
        ({
            let free = pool.reentrancy != Some(true);
            let running = pool.paused != Some(true);
            let credits = pool.accrue_abort(user) is None;
            let covered = amount <= stored(pool.staked_balances, user) - stored(
                pool.used_stakes,
                user,
            );
            let abort = pool.unstake_abort(user, amount);
            let answer = pool.unstake_outcome(user, amount);
            &&& abort is None && answer is Ok <==> free && running && amount > 0 && credits
                && covered && pool.token is Some
            &&& !free ==> abort is None && answer == Err::<(), _>(
                ContractError::ReentrancyDetected,
            )
            &&& free && !covered ==> answer == Err::<(), _>(ContractError::InsufficientUnusedStake)
            &&& free && !running ==> abort == Some("contract is paused")
            &&& free && running && amount <= 0 ==> abort == Some("amount must be positive")
            &&& free && running && amount > 0 && !credits ==> abort == pool.accrue_abort(user)
            &&& free && running && amount > 0 && credits && !covered ==> abort is None
            &&& free && running && amount > 0 && credits && covered && pool.token is None ==> abort
                == Some("token not set")
        }),
{
}

/// A refused withdrawal changes no stake, and pays nothing: under the lock
/// nothing happens at all, and otherwise the user is credited and told what is
/// unused.
pub proof fn law_refused_withdrawals(pool: PoolView, user: Address, amount: i128)
    ensures
        ({
            let after = StakingPool::unstake_refused(pool, user);
            let asked = StakingPool::unstake_refused_actions(pool, user, amount);
            &&& after.staked_balances == pool.staked_balances
            &&& after.total_staked == pool.total_staked
            &&& after.used_stakes == pool.used_stakes
            &&& after.global_reward_index == pool.global_reward_index
            &&& pool.reentrancy == Some(true) ==> after == pool && asked.len() == 0
            &&& pool.reentrancy != Some(true) ==> after == (PoolView {
                reentrancy: Some(false),
                ..pool.accrued(user)
            })
            &&& pool.reentrancy != Some(true) ==> asked =~= seq![
                Action::RequireAuth(user),
                Action::Publish(
                    Event {
                        topics: Topics::Two(
                            Value::Symbol("mvp_staking_pool"),
                            Value::Symbol("unstake_rejected"),
                        ),
                        data: Data::Four(
                            Value::Address(user),
                            Value::I128(amount),
                            Value::I128(pool.unused(user)),
                            Value::Symbol("insufficient_unused"),
                        ),
                    },
                ),
            ]
        }),
{
}

/// The admin can mark every positive amount up to what is unused as used, on a
/// running pool; more is refused with an error, and so is everybody else.
pub proof fn law_stake_can_be_used(
    pool: PoolView,
    caller: Address,
    user: Address,
    amount: i128,
)
    requires
        0 <= stored(pool.used_stakes, user) <= stored(pool.staked_balances, user),
    ensures
        ({
            let mine = pool.governance.admin == Some(caller);
            let running = pool.paused != Some(true);
            let credits = pool.accrue_abort(user) is None;
            let covered = amount <= stored(pool.staked_balances, user) - stored(
                pool.used_stakes,
                user,
            );
            let abort = pool.utilize_abort(caller, user, amount);
            let answer = pool.utilize_outcome(caller, user, amount);
            &&& answer is Ok <==> mine && covered
            &&& abort is None && answer is Ok <==> mine && running && amount > 0 && credits
                && covered
            &&& !mine ==> answer == Err::<(), _>(ContractError::NotAuthorized)
            &&& mine && !covered ==> answer == Err::<(), _>(ContractError::UtilizationExceedsUnused)
            &&& pool.governance.admin is None ==> abort == Some("admin not set")
            &&& pool.governance.admin is Some && !mine ==> abort is None
            &&& mine && !running ==> abort == Some("contract is paused")
            &&& mine && running && amount <= 0 ==> abort == Some("amount must be positive")
            &&& mine && running && amount > 0 && !credits ==> abort == pool.accrue_abort(user)
            &&& mine && running && amount > 0 && credits ==> abort is None
        }),
{
}

/// Marking stake as used raises what is used, lowers what is unused by the same,
/// and leaves the stake itself and everybody else alone.
pub proof fn law_used_stake_is_booked(
    pool: PoolView,
    user: Address,
    amount: i128,
    other: Address,
)
    requires
        0 <= stored(pool.used_stakes, user),
        0 < amount <= stored(pool.staked_balances, user) - stored(pool.used_stakes, user),
    ensures
        ({
            let after = pool.with_used(user, stored(pool.used_stakes, user) + amount);
            &&& stored(after.used_stakes, user) == stored(pool.used_stakes, user) + amount
            &&& after.unused(user) == pool.unused(user) - amount
            &&& other != user ==> stored(after.used_stakes, other) == stored(
                pool.used_stakes,
                other,
            )
            &&& after == (PoolView { used_stakes: after.used_stakes, ..pool })
        }),
{
}

/// The admin can fund every positive amount on a running pool with stakers and a
/// token, outside of another call, as long as the numbers fit.
pub proof fn law_funds_go_through(pool: PoolView, from: Address, amount: i128)
    ensures
        ({
            let free = pool.reentrancy != Some(true);
            let set = free && pool.governance.admin is Some;
            let running = set && pool.paused != Some(true);
            let mine = pool.governance.admin == Some(from);
            let staked = number(pool.total_staked) > 0;
            let scaled = amount * 1_000_000_000_000;
            let abort = pool.fund_abort(from, amount);
            let good = running && amount > 0 && mine && staked && pool.token is Some;
            &&& !free ==> abort == Some("reentrancy detected")
            &&& free && !set ==> abort == Some("admin not set")
            &&& set && !running ==> abort == Some("contract is paused")
            &&& running && amount <= 0 ==> abort == Some("amount must be positive")
            &&& running && amount > 0 && !mine ==> abort == Some("from must be admin")
            &&& running && amount > 0 && mine && !staked ==> abort == Some("no stakers")
            &&& running && amount > 0 && mine && staked && pool.token is None ==> abort == Some(
                "token not set",
            )
            &&& good && scaled > i128::MAX ==> abort == Some("attempt to multiply with overflow")
            &&& good && scaled <= i128::MAX ==> (abort is None <==> number(
                pool.global_reward_index,
            ) + scaled / number(pool.total_staked) <= i128::MAX)
            &&& abort is None ==> good && scaled <= i128::MAX
        }),
{
}

/// Everybody can claim on a running pool, outside of another call; a token is
/// needed only where there is something to pay.
pub proof fn law_claims_go_through(pool: PoolView, to: Address)
    requires
        sound(pool, to),
    ensures
        ({
            let free = pool.reentrancy != Some(true);
            let running = free && pool.paused != Some(true);
            let credits = pool.accrue_abort(to) is None;
            let due = stored(pool.claimable_rewards, to) + pool.accrual(to);
            let abort = pool.claim_abort(to);
            &&& abort is None <==> running && credits && (due == 0 || pool.token is Some)
            &&& !free ==> abort == Some("reentrancy detected")
            &&& free && !running ==> abort == Some("contract is paused")
            &&& running && !credits ==> abort == pool.accrue_abort(to)
            &&& running && credits && due > 0 && pool.token is None ==> abort == Some(
                "token not set",
            )
        }),
{
    law_accrual_is_the_rise_on_the_stake(pool, to);
}

/// A claim takes everything off what is claimable and leaves the stake, and
/// everybody else's account, alone.
pub proof fn law_claim_is_booked(pool: PoolView, to: Address, other: Address)
    requires
        sound(pool, to),
        pool.accrue_abort(to) is None,
    ensures
        ({
            let after = pool.accrued(to).with_claimed(to);
            &&& stored(after.claimable_rewards, to) == 0
            &&& risen(after, to) == 0
            &&& after.payout(to) == 0
            &&& after.staked_balances == pool.staked_balances
            &&& after.used_stakes == pool.used_stakes
            &&& after.total_staked == pool.total_staked
            &&& after.global_reward_index == pool.global_reward_index
            &&& other != to ==> after.payout(other) == pool.payout(other)
            &&& after == (PoolView {
                claimable_rewards: after.claimable_rewards,
                user_reward_indexes: after.user_reward_indexes,
                ..pool
            })
        }),
{
    law_crediting(pool, to, other);
    let after = pool.accrued(to).with_claimed(to);
    law_accrual_is_the_rise_on_the_stake(after, to);
}

/// The pool is set up once; only its admin pauses it and lifts the pause, and
/// takes back a proposal, where there is one.
pub proof fn law_admin_gates(pool: StakingPool, v: PoolView, caller: Address)
    ensures
        pool.init_abort() is None <==> pool.governance.admin is None,
        pool.governance.admin is Some ==> pool.init_abort() == Some("already initialized"),
        v.admin_abort() is None <==> v.governance.admin is Some,
        v.governance.admin is None ==> v.admin_abort() == Some("admin not set"),
        v.pause_outcome(caller) is Ok <==> v.governance.admin == Some(caller),
        v.governance.admin != Some(caller) ==> v.pause_outcome(caller) == Err::<(), _>(
            PausableError::NotAuthorized,
        ),
        v.cancel_outcome(caller) is Ok <==> v.governance.admin == Some(caller)
            && v.governance.pending_upgrade_hash is Some,
        v.governance.admin != Some(caller) ==> v.cancel_outcome(caller) == Err::<(), _>(
            ContractError::NotAuthorized,
        ),
        v.governance.admin == Some(caller) && v.governance.pending_upgrade_hash is None
            ==> v.cancel_outcome(caller) == Err::<(), _>(ContractError::NoUpgradePending),
{
}

/// A running pool passes on what governance aborts with; its refusals are
/// reported by their kind, and writing governance changes nothing else.
pub proof fn law_governance_is_passed_on(
    pool: PoolView,
    abort: Option<&'static str>,
    governance: UpgradeGovernance,
    e: UpgradeGovernanceError,
)
    ensures
        pool.paused != Some(true) ==> pool.governed_abort(abort) == abort,
        pool.paused == Some(true) ==> pool.governed_abort(abort) == Some("contract is paused"),
        pool.with_governance(governance) == (PoolView { governance, ..pool }),
        mvp_staking_pool::reported(Ok(())) == Ok::<(), ContractError>(()),
        mvp_staking_pool::reported(Err(e)) is Err,
        e == UpgradeGovernanceError::UpgradeAlreadyPending ==> mvp_staking_pool::reported(Err(e))
            == Err::<(), _>(ContractError::UpgradeAlreadyPending),
        e == UpgradeGovernanceError::NoPendingUpgrade ==> mvp_staking_pool::reported(Err(e))
            == Err::<(), _>(ContractError::NoUpgradePending),
        e == UpgradeGovernanceError::UpgradeDelayNotElapsed ==> mvp_staking_pool::reported(Err(e))
            == Err::<(), _>(ContractError::UpgradeDelayNotMet),
        e == UpgradeGovernanceError::NotAuthorized || e
            == UpgradeGovernanceError::GuardianNotConfigured || e
            == UpgradeGovernanceError::InvalidUpgradeVersion || e
            == UpgradeGovernanceError::IncompatibleSchemaVersion ==> mvp_staking_pool::reported(
            Err(e),
        ) == Err::<(), _>(ContractError::NotAuthorized),
{
}

/// Events bear the name of the contract first, then their own, then the user;
/// those of the pause bear the name of the pause.
pub proof fn law_events_are_named(name: &'static str, data: Data, user: Address, amount: i128)
    ensures
        mvp_staking_pool::pool_event(name, data) == (Event {
            topics: Topics::Two(Value::Symbol("mvp_staking_pool"), Value::Symbol(name)),
            data,
        }),
        mvp_staking_pool::user_event(name, user, amount) == (Event {
            topics: Topics::Three(
                Value::Symbol("mvp_staking_pool"),
                Value::Symbol(name),
                Value::Address(user),
            ),
            data: Data::One(Value::I128(amount)),
        }),
        mvp_staking_pool::pausable_event(name) == (Event {
            topics: Topics::Two(Value::Symbol("Pausable"), Value::Symbol(name)),
            data: Data::Unit,
        }),
{
}

/// Errors are told apart by their numbers, one to seven.
pub proof fn law_errors_are_told_apart(a: ContractError, b: ContractError)
    ensures
        a.code_of() == b.code_of() ==> a == b,
        1 <= a.code_of() <= 7,
{
}

} // verus!
