//! A model of a staking pool with a lock period, an upgrade timelock and
//! rewards by a per-share index, for three stakers.
//!
//! The model defines what a pool that pays rewards has to keep: no reward is
//! made up, the pool stays solvent, whoever stakes late gets nothing of what
//! was distributed before, and rounding favours the pool.

use vstd::prelude::*;

use crate::arith;

verus! {

/// Units of the per-share index per reward unit and staked unit.
pub const INDEX_SCALE: i128 = 1_000_000_000_000_000_000;

#[derive(Clone, Copy, Debug, PartialEq, Eq, Structural)]
pub enum ModelError {
    InvalidAmount,
    InsufficientBalance,
    TokensLocked,
    ReentrancyDetected,
    UpgradeDelayNotMet,
    Overflow,
}

/// The state of the pool.
pub struct PoolModel {
    pub balances: [i128; 3],
    pub total_staked: i128,
    pub lock_period: u64,
    pub stake_timestamps: [u64; 3],
    pub has_stake_timestamp: [bool; 3],
    pub reentrancy: bool,
    pub pending_upgrade_at: Option<u64>,
    pub upgrade_delay: u64,
    pub current_time: u64,
    /// Reward per staked unit so far, scaled.
    pub per_share_index: i128,
    /// The index at each user's last stake or claim.
    pub user_index_snapshot: [i128; 3],
    /// Rewards of each user that are set aside but not claimed.
    pub unclaimed_rewards: [i128; 3],
    /// Rewards ever distributed.
    pub total_distributed: i128,
    /// Rewards ever claimed.
    pub total_claimed: i128,
    /// Reward tokens in the pool.
    pub pool_balance: i128,
}

/// The state with its arrays as sequences.
#[verifier::ext_equal]
pub struct ModelView {
    pub balances: Seq<i128>,
    pub total_staked: i128,
    pub lock_period: u64,
    pub stake_timestamps: Seq<u64>,
    pub has_stake_timestamp: Seq<bool>,
    pub reentrancy: bool,
    pub pending_upgrade_at: Option<u64>,
    pub upgrade_delay: u64,
    pub current_time: u64,
    pub per_share_index: i128,
    pub user_index_snapshot: Seq<i128>,
    pub unclaimed_rewards: Seq<i128>,
    pub total_distributed: i128,
    pub total_claimed: i128,
    pub pool_balance: i128,
}

impl View for PoolModel {
    type V = ModelView;

    open spec fn view(&self) -> ModelView {
        ModelView {
            balances: self.balances@,
            total_staked: self.total_staked,
            lock_period: self.lock_period,
            stake_timestamps: self.stake_timestamps@,
            has_stake_timestamp: self.has_stake_timestamp@,
            reentrancy: self.reentrancy,
            pending_upgrade_at: self.pending_upgrade_at,
            upgrade_delay: self.upgrade_delay,
            current_time: self.current_time,
            per_share_index: self.per_share_index,
            user_index_snapshot: self.user_index_snapshot@,
            unclaimed_rewards: self.unclaimed_rewards@,
            total_distributed: self.total_distributed,
            total_claimed: self.total_claimed,
            pool_balance: self.pool_balance,
        }
    }
}

/// `a`, or the greatest `u64` where `a` is greater.
pub open spec fn clamp_u64(a: int) -> int {
    if a > u64::MAX {
        u64::MAX as int
    } else {
        a
    }
}

/// Sum of the amounts of the three users.
pub open spec fn sum3(amounts: Seq<i128>) -> int {
    amounts[0] + amounts[1] + amounts[2]
}

impl ModelView {
    /// There are three users.
    pub open spec fn sized(self) -> bool {
        &&& self.balances.len() == 3
        &&& self.stake_timestamps.len() == 3
        &&& self.has_stake_timestamp.len() == 3
        &&& self.user_index_snapshot.len() == 3
        &&& self.unclaimed_rewards.len() == 3
    }

    pub open spec fn stake_outcome(self, user: int, amount: i128) -> Result<(), ModelError> {
        if amount <= 0 {
            Err(ModelError::InvalidAmount)
        } else if self.balances[user] + amount > i128::MAX || self.total_staked + amount
            > i128::MAX {
            Err(ModelError::Overflow)
        } else {
            Ok(())
        }
    }

    /// The pool after a stake; a refusal changes nothing.
    pub open spec fn stake_next(self, user: int, amount: i128) -> ModelView {
        if self.stake_outcome(user, amount) is Ok {
            ModelView {
                balances: self.balances.update(user, (self.balances[user] + amount) as i128),
                total_staked: (self.total_staked + amount) as i128,
                stake_timestamps: self.stake_timestamps.update(user, self.current_time),
                has_stake_timestamp: self.has_stake_timestamp.update(user, true),
                ..self
            }
        } else {
            self
        }
    }

    /// The lock of `user` has not run out yet.
    pub open spec fn locked(self, user: int) -> bool {
        self.lock_period > 0 && (!self.has_stake_timestamp[user] || self.current_time < clamp_u64(
            self.stake_timestamps[user] + self.lock_period,
        ))
    }

    pub open spec fn unstake_outcome(self, user: int, amount: i128) -> Result<(), ModelError> {
        if amount <= 0 {
            Err(ModelError::InvalidAmount)
        } else if self.balances[user] < amount {
            Err(ModelError::InsufficientBalance)
        } else if self.locked(user) {
            Err(ModelError::TokensLocked)
        } else {
            Ok(())
        }
    }

    /// The total has to stay an `i128`.
    pub open spec fn unstake_abort(self, user: int, amount: i128) -> Option<&'static str> {
        if self.unstake_outcome(user, amount) is Ok && self.total_staked - amount < i128::MIN {
            Some("attempt to subtract with overflow")
        } else {
            None
        }
    }

    /// The pool after an unstake; a refusal changes nothing.
    pub open spec fn unstake_next(self, user: int, amount: i128) -> ModelView {
        if self.unstake_outcome(user, amount) is Ok {
            ModelView {
                balances: self.balances.update(user, (self.balances[user] - amount) as i128),
                total_staked: (self.total_staked - amount) as i128,
                has_stake_timestamp: if self.balances[user] == amount {
                    self.has_stake_timestamp.update(user, false)
                } else {
                    self.has_stake_timestamp
                },
                ..self
            }
        } else {
            self
        }
    }

    pub open spec fn upgrade_outcome(self) -> Result<(), ModelError> {
        if self.pending_upgrade_at is None {
            Err(ModelError::UpgradeDelayNotMet)
        } else if self.upgrade_delay > 0 && self.current_time < clamp_u64(
            self.pending_upgrade_at->0 + self.upgrade_delay,
        ) {
            Err(ModelError::UpgradeDelayNotMet)
        } else {
            Ok(())
        }
    }

    /// Rise of the index when `reward` is spread over the whole stake.
    pub open spec fn increment(self, reward: i128) -> int {
        (reward * INDEX_SCALE) / (self.total_staked as int)
    }

    /// The index can take the rise for `reward`.
    pub open spec fn index_fits(self, reward: i128) -> bool {
        self.total_staked > 0 ==> reward * INDEX_SCALE <= i128::MAX && self.per_share_index
            + self.increment(reward) <= i128::MAX
    }

    pub open spec fn distribute_outcome(self, reward: i128) -> Result<(), ModelError> {
        if reward < 0 {
            Err(ModelError::InvalidAmount)
        } else if self.pool_balance + reward > i128::MAX || self.total_distributed + reward
            > i128::MAX || !self.index_fits(reward) {
            Err(ModelError::Overflow)
        } else {
            Ok(())
        }
    }

    /// The pool after a distribution. The sums are written one after the other,
    /// and one that overflows leaves those before it written.
    pub open spec fn distribute_next(self, reward: i128) -> ModelView {
        if reward < 0 || self.pool_balance + reward > i128::MAX {
            self
        } else if self.total_distributed + reward > i128::MAX {
            ModelView { pool_balance: (self.pool_balance + reward) as i128, ..self }
        } else {
            ModelView {
                pool_balance: (self.pool_balance + reward) as i128,
                total_distributed: (self.total_distributed + reward) as i128,
                per_share_index: if self.total_staked > 0 && self.index_fits(reward) {
                    (self.per_share_index + self.increment(reward)) as i128
                } else {
                    self.per_share_index
                },
                ..self
            }
        }
    }

    /// Reward that `user` has gained since the last stake or claim: the rise of
    /// the index on the balance, in whole units, rounded toward zero.
    pub open spec fn accrued(self, user: int) -> int {
        let rise = arith::clamp_i128(self.per_share_index - self.user_index_snapshot[user]);
        arith::clamp_i128(arith::quotient(rise * self.balances[user], INDEX_SCALE as int)) as int
    }

    /// What `user` can claim.
    pub open spec fn claimable(self, user: int) -> i128 {
        arith::clamp_i128(self.unclaimed_rewards[user] + self.accrued(user))
    }

    pub open spec fn claim_outcome(self, user: int) -> Result<i128, ModelError> {
        if self.balances[user] == 0 {
            Ok(0)
        } else if !arith::is_i128(self.pool_balance - self.claimable(user)) {
            Err(ModelError::InsufficientBalance)
        } else if !arith::is_i128(self.total_claimed + self.claimable(user)) {
            Err(ModelError::Overflow)
        } else {
            Ok(self.claimable(user))
        }
    }

    /// The pool after a claim. Without a stake nothing changes; a count of
    /// claims that overflows leaves the pool's balance written.
    pub open spec fn claim_next(self, user: int) -> ModelView {
        let paid = self.claimable(user);
        if self.balances[user] == 0 || !arith::is_i128(self.pool_balance - paid) {
            self
        } else if !arith::is_i128(self.total_claimed + paid) {
            ModelView { pool_balance: (self.pool_balance - paid) as i128, ..self }
        } else {
            ModelView {
                pool_balance: (self.pool_balance - paid) as i128,
                total_claimed: (self.total_claimed + paid) as i128,
                user_index_snapshot: self.user_index_snapshot.update(user, self.per_share_index),
                unclaimed_rewards: self.unclaimed_rewards.update(user, 0),
                ..self
            }
        }
    }

    /// The pool with the current index as the snapshot of `user`.
    pub open spec fn with_snapshot(self, user: int) -> ModelView {
        ModelView {
            user_index_snapshot: self.user_index_snapshot.update(user, self.per_share_index),
            ..self
        }
    }
}

impl PoolModel {
    pub fn new() -> (m: PoolModel)
        ensures
            m@ == (ModelView {
                balances: seq![0, 0, 0],
                total_staked: 0,
                lock_period: 0,
                stake_timestamps: seq![0, 0, 0],
                has_stake_timestamp: seq![false, false, false],
                reentrancy: false,
                pending_upgrade_at: None,
                upgrade_delay: 0,
                current_time: 0,
                per_share_index: 0,
                user_index_snapshot: seq![0, 0, 0],
                unclaimed_rewards: seq![0, 0, 0],
                total_distributed: 0,
                total_claimed: 0,
                pool_balance: 0,
            }),
    {
        PoolModel {
            balances: [0;3],
            total_staked: 0,
            lock_period: 0,
            stake_timestamps: [0;3],
            has_stake_timestamp: [false;3],
            reentrancy: false,
            pending_upgrade_at: None,
            upgrade_delay: 0,
            current_time: 0,
            per_share_index: 0,
            user_index_snapshot: [0;3],
            unclaimed_rewards: [0;3],
            total_distributed: 0,
            total_claimed: 0,
            pool_balance: 0,
        }
    }

    /// Sum of the balances.
    pub fn sum_balances(&self) -> (sum: i128)
        requires
            arith::is_i128(self.balances@[0] + self.balances@[1]),
            arith::is_i128(sum3(self.balances@)),
        ensures
            sum == sum3(self@.balances),
    {
        self.balances[0] + self.balances[1] + self.balances[2]
    }

    /// Take the reentrancy lock.
    pub fn enter_nonreentrant(&mut self) -> (r: Result<(), ModelError>)
        ensures
            r == (if old(self).reentrancy {
                Err(ModelError::ReentrancyDetected)
            } else {
                Ok(())
            }),
            final(self)@ == (ModelView { reentrancy: true, ..old(self)@ }),
    {
        if self.reentrancy {
            return Err(ModelError::ReentrancyDetected);
        }
        self.reentrancy = true;
        Ok(())
    }

    /// Release the reentrancy lock.
    pub fn exit_nonreentrant(&mut self)
        ensures
            final(self)@ == (ModelView { reentrancy: false, ..old(self)@ }),
    {
        self.reentrancy = false;
    }

    /// Book a stake.
    pub fn apply_stake(&mut self, user_idx: usize, amount: i128) -> (r: Result<(), ModelError>)
        requires
            user_idx < 3,
        ensures
            r == old(self)@.stake_outcome(user_idx as int, amount),
            final(self)@ == old(self)@.stake_next(user_idx as int, amount),
    {
        if amount <= 0 {
            return Err(ModelError::InvalidAmount);
        }
        let new_balance: i128 = match self.balances[user_idx].checked_add(amount) {
            Some(balance) => balance,
            None => {
                return Err(ModelError::Overflow);
            },
        };
        let new_total: i128 = match self.total_staked.checked_add(amount) {
            Some(total) => total,
            None => {
                return Err(ModelError::Overflow);
            },
        };
        self.balances[user_idx] = new_balance;
        self.total_staked = new_total;
        self.stake_timestamps[user_idx] = self.current_time;
        self.has_stake_timestamp[user_idx] = true;
        Ok(())
    }

    /// Book an unstake, once the lock of the user has run out.
    pub fn apply_unstake(&mut self, user_idx: usize, amount: i128) -> (r: Result<(), ModelError>)
        requires
            user_idx < 3,
            old(self)@.unstake_abort(user_idx as int, amount) is None,
        ensures
            r == old(self)@.unstake_outcome(user_idx as int, amount),
            final(self)@ == old(self)@.unstake_next(user_idx as int, amount),
    {
        if amount <= 0 {
            return Err(ModelError::InvalidAmount);
        }
        if self.balances[user_idx] < amount {
            return Err(ModelError::InsufficientBalance);
        }
        if self.lock_period > 0 {
            if !self.has_stake_timestamp[user_idx] {
                return Err(ModelError::TokensLocked);
            }
            let stake_time: u64 = self.stake_timestamps[user_idx];
            if self.current_time < stake_time.saturating_add(self.lock_period) {
                return Err(ModelError::TokensLocked);
            }
        }
        self.balances[user_idx] = self.balances[user_idx] - amount;
        self.total_staked = self.total_staked - amount;
        if self.balances[user_idx] == 0 {
            self.has_stake_timestamp[user_idx] = false;
        }
        Ok(())
    }

    /// Whether a proposed upgrade may be executed now.
    pub fn can_execute_upgrade(&self) -> (r: Result<(), ModelError>)
        ensures
            r == self@.upgrade_outcome(),
    {
        let proposed_at: u64 = match self.pending_upgrade_at {
            Some(at) => at,
            None => {
                return Err(ModelError::UpgradeDelayNotMet);
            },
        };
        if self.upgrade_delay > 0 && self.current_time < proposed_at.saturating_add(
            self.upgrade_delay,
        ) {
            return Err(ModelError::UpgradeDelayNotMet);
        }
        Ok(())
    }

    /// Take `reward_amount` into the pool, and raise the index for the stakers,
    /// if there are any. What does not divide evenly stays in the pool.
    pub fn apply_distribute(&mut self, reward_amount: i128) -> (r: Result<(), ModelError>)
        ensures
            r == old(self)@.distribute_outcome(reward_amount),
            final(self)@ == old(self)@.distribute_next(reward_amount),
    {
        if reward_amount < 0 {
            return Err(ModelError::InvalidAmount);
        }
        self.pool_balance = match self.pool_balance.checked_add(reward_amount) {
            Some(balance) => balance,
            None => {
                return Err(ModelError::Overflow);
            },
        };
        self.total_distributed = match self.total_distributed.checked_add(reward_amount) {
            Some(total) => total,
            None => {
                return Err(ModelError::Overflow);
            },
        };
        if self.total_staked > 0 {
            let scaled_reward: i128 = match reward_amount.checked_mul(INDEX_SCALE) {
                Some(scaled) => scaled,
                None => {
                    return Err(ModelError::Overflow);
                },
            };
            let increment: i128 = scaled_reward / self.total_staked;
            proof {
                vstd::arithmetic::div_mod::lemma_div_pos_is_pos(
                    scaled_reward as int,
                    self.total_staked as int,
                );
            }
            self.per_share_index = match self.per_share_index.checked_add(increment) {
                Some(index) => index,
                None => {
                    return Err(ModelError::Overflow);
                },
            };
        }
        Ok(())
    }

    /// Pay a user everything that can be claimed.
    pub fn apply_claim(&mut self, user_idx: usize) -> (r: Result<i128, ModelError>)
        requires
            user_idx < 3,
        ensures
            r == old(self)@.claim_outcome(user_idx as int),
            final(self)@ == old(self)@.claim_next(user_idx as int),
    {
        if self.balances[user_idx] == 0 {
            return Ok(0);
        }
        let index_diff: i128 = arith::saturating_sub(
            self.per_share_index,
            self.user_index_snapshot[user_idx],
        );
        let accrued: i128 = arith::scaled_product(
            index_diff,
            self.balances[user_idx],
            INDEX_SCALE,
        );
        let total_claimable: i128 = arith::saturating_add(
            self.unclaimed_rewards[user_idx],
            accrued,
        );
        self.pool_balance = match self.pool_balance.checked_sub(total_claimable) {
            Some(balance) => balance,
            None => {
                return Err(ModelError::InsufficientBalance);
            },
        };
        self.total_claimed = match self.total_claimed.checked_add(total_claimable) {
            Some(claimed) => claimed,
            None => {
                return Err(ModelError::Overflow);
            },
        };
        self.user_index_snapshot[user_idx] = self.per_share_index;
        self.unclaimed_rewards[user_idx] = 0;
        Ok(total_claimable)
    }

    /// Take the current index as the snapshot of a user who stakes, so that
    /// nothing distributed before accrues to the new stake.
    pub fn update_user_index_on_stake(&mut self, user_idx: usize)
        requires
            user_idx < 3,
        ensures
            final(self)@ == old(self)@.with_snapshot(user_idx as int),
    {
        self.user_index_snapshot[user_idx] = self.per_share_index;
    }

    /// Whether what was claimed and what is set aside is within what was
    /// distributed.
    pub fn check_reward_conservation(&self) -> (b: bool)
        ensures
            b == self@.conserves(),
    {
        let sum_unclaimed: i128 = arith::saturating_add(
            arith::saturating_add(self.unclaimed_rewards[0], self.unclaimed_rewards[1]),
            self.unclaimed_rewards[2],
        );
        let accounted_for: i128 = arith::saturating_add(self.total_claimed, sum_unclaimed);
        accounted_for <= self.total_distributed
    }

    /// Whether stakes and rewards not claimed yet are covered by the pool's
    /// balance.
    pub fn check_solvency(&self) -> (b: bool)
        ensures
            b == self@.covers(),
    {
        let claimable: i128 = arith::saturating_sub(self.total_distributed, self.total_claimed);
        let required_balance: i128 = arith::saturating_add(self.total_staked, claimable);
        required_balance <= self.pool_balance
    }
}

impl ModelView {
    /// What was claimed and what is set aside is within what was distributed,
    /// in sums that saturate.
    pub open spec fn conserves(self) -> bool {
        arith::clamp_i128(
            self.total_claimed + arith::clamp_i128(
                arith::clamp_i128(self.unclaimed_rewards[0] + self.unclaimed_rewards[1])
                    + self.unclaimed_rewards[2],
            ),
        ) <= self.total_distributed
    }

    /// Stakes and rewards not claimed yet are within the pool's balance, in sums
    /// that saturate.
    pub open spec fn covers(self) -> bool {
        arith::clamp_i128(
            self.total_staked + arith::clamp_i128(self.total_distributed - self.total_claimed),
        ) <= self.pool_balance
    }
}

/// Rise of the index on the balance of `user`, scaled.
pub open spec fn growth(m: ModelView, user: int) -> int {
    (m.per_share_index - m.user_index_snapshot[user]) * m.balances[user]
}

/// The books balance: three users, no balance and no set-aside reward below
/// zero, no snapshot ahead of the index, no count of claims below zero, and the
/// total is the sum of the balances.
pub open spec fn balanced(m: ModelView) -> bool {
    &&& m.sized()
    &&& forall|u: int|
        0 <= u < 3 ==> 0 <= #[trigger] m.balances[u] && m.user_index_snapshot[u]
            <= m.per_share_index && 0 <= m.unclaimed_rewards[u]
    &&& 0 <= m.total_claimed
    &&& m.total_staked == sum3(m.balances)
}

/// Rewards are conserved: the books balance, and what was claimed, what is set
/// aside and what the index still promises is, scaled, no more than what was
/// distributed.
pub open spec fn conserved(m: ModelView) -> bool {
    &&& balanced(m)
    &&& growth(m, 0) + growth(m, 1) + growth(m, 2) <= (m.total_distributed - m.total_claimed
        - sum3(m.unclaimed_rewards)) * INDEX_SCALE
}

proof fn lemma_growth_nonnegative(m: ModelView, user: int)
    requires
        balanced(m),
        0 <= user < 3,
    ensures
        0 <= growth(m, user),
{
    assert(0 <= m.balances[user]);
    assert(0 <= growth(m, user)) by (nonlinear_arith)
        requires
            growth(m, user) == (m.per_share_index - m.user_index_snapshot[user])
                * m.balances[user],
            m.user_index_snapshot[user] <= m.per_share_index,
            0 <= m.balances[user],
    ;
}

/// What accrues is no more than the growth, and not negative.
proof fn lemma_accrued(m: ModelView, user: int)
    requires
        balanced(m),
        0 <= user < 3,
    ensures
        0 <= m.accrued(user),
        m.accrued(user) * INDEX_SCALE <= growth(m, user),
{
    lemma_growth_nonnegative(m, user);
    assert(0 <= m.balances[user]);
    let gap = m.per_share_index - m.user_index_snapshot[user];
    let rise = arith::clamp_i128(gap) as int;
    let b = m.balances[user] as int;
    assert(0 <= rise <= gap);
    assert(0 <= rise * b <= gap * b) by (nonlinear_arith)
        requires
            0 <= rise <= gap,
            0 <= b,
    ;
    let product = rise * b;
    let share = product / (INDEX_SCALE as int);
    assert(0 <= share && share * INDEX_SCALE <= product);
    assert(0 <= arith::clamp_i128(share) <= share);
}

/// Staking never overflows within safe bounds: a positive amount of at most half
/// the range goes through on a total of at most half the range, and is added
/// exactly.
pub proof fn law_stake_no_overflow(m: ModelView, user: int, amount: i128)
    requires
        balanced(m),
        0 <= user < 3,
        0 < amount <= i128::MAX / 2,
        m.total_staked <= i128::MAX / 2,
    ensures
        m.stake_outcome(user, amount) is Ok,
        m.stake_next(user, amount).total_staked == m.total_staked + amount,
{
    assert(0 <= m.balances[0] && 0 <= m.balances[1] && 0 <= m.balances[2]);
}

/// Unstaking never goes below zero: up to the balance it goes through and takes
/// exactly the amount; beyond, it is refused and changes nothing.
pub proof fn law_unstake_no_underflow(m: ModelView, user: int, amount: i128)
    requires
        balanced(m),
        0 <= user < 3,
        amount > 0,
        !m.locked(user),
    ensures
        m.balances[user] >= amount ==> m.unstake_outcome(user, amount) is Ok && m.unstake_next(
            user,
            amount,
        ).balances[user] == m.balances[user] - amount && m.unstake_next(
            user,
            amount,
        ).balances[user] >= 0,
        m.balances[user] < amount ==> m.unstake_outcome(user, amount) == Err::<(), _>(
            ModelError::InsufficientBalance,
        ) && m.unstake_next(user, amount) == m,
{
    assert(0 <= m.balances[user]);
}

/// The lock period is enforced: until it has run out, an unstake within the
/// balance is refused with `TokensLocked` and changes nothing.
pub proof fn law_lock_period_enforced(m: ModelView, user: int, amount: i128)
    requires
        m.sized(),
        0 <= user < 3,
        m.lock_period > 0,
        m.has_stake_timestamp[user],
        m.current_time < clamp_u64(m.stake_timestamps[user] + m.lock_period),
        0 < amount <= m.balances[user],
    ensures
        m.unstake_outcome(user, amount) == Err::<(), _>(ModelError::TokensLocked),
        m.unstake_next(user, amount) == m,
{
}

/// The total stays the sum of the balances, and no balance goes below zero,
/// whatever operation comes next.
pub proof fn law_balance_conservation(m: ModelView, user: int, amount: i128)
    requires
        balanced(m),
        0 <= user < 3,
    ensures
        m.unstake_abort(user, amount) is None,
        balanced(m.stake_next(user, amount)),
        balanced(m.unstake_next(user, amount)),
        balanced(m.distribute_next(amount)),
        balanced(m.claim_next(user)),
        balanced(m.with_snapshot(user)),
{
    assert(0 <= m.balances[0] && 0 <= m.balances[1] && 0 <= m.balances[2]);
    let staked = m.stake_next(user, amount);
    assert forall|u: int| 0 <= u < 3 implies 0 <= #[trigger] staked.balances[u]
        && staked.user_index_snapshot[u] <= staked.per_share_index && 0
        <= staked.unclaimed_rewards[u] by {
        assert(0 <= m.balances[u]);
    }
    let unstaked = m.unstake_next(user, amount);
    assert forall|u: int| 0 <= u < 3 implies 0 <= #[trigger] unstaked.balances[u]
        && unstaked.user_index_snapshot[u] <= unstaked.per_share_index && 0
        <= unstaked.unclaimed_rewards[u] by {
        assert(0 <= m.balances[u]);
    }
    let distributed = m.distribute_next(amount);
    if amount >= 0 && m.total_staked > 0 {
        vstd::arithmetic::div_mod::lemma_div_pos_is_pos(
            amount * INDEX_SCALE,
            m.total_staked as int,
        );
    }
    assert(m.per_share_index <= distributed.per_share_index);
    assert forall|u: int| 0 <= u < 3 implies 0 <= #[trigger] distributed.balances[u]
        && distributed.user_index_snapshot[u] <= distributed.per_share_index && 0
        <= distributed.unclaimed_rewards[u] by {
        assert(0 <= m.balances[u]);
    }
    let claimed = m.claim_next(user);
    lemma_accrued(m, user);
    assert forall|u: int| 0 <= u < 3 implies 0 <= #[trigger] claimed.balances[u]
        && claimed.user_index_snapshot[u] <= claimed.per_share_index && 0
        <= claimed.unclaimed_rewards[u] by {
        assert(0 <= m.balances[u]);
    }
    let snapped = m.with_snapshot(user);
    assert forall|u: int| 0 <= u < 3 implies 0 <= #[trigger] snapped.balances[u]
        && snapped.user_index_snapshot[u] <= snapped.per_share_index && 0
        <= snapped.unclaimed_rewards[u] by {
        assert(0 <= m.balances[u]);
    }
}

/// An upgrade cannot be executed before its delay has elapsed, and can be from
/// then on.
pub proof fn law_upgrade_delay_respected(m: ModelView, proposed_at: u64)
    requires
        m.pending_upgrade_at == Some(proposed_at),
        m.upgrade_delay > 0,
    ensures
        m.current_time < clamp_u64(proposed_at + m.upgrade_delay) ==> m.upgrade_outcome() == Err::<
            (),
            _,
        >(ModelError::UpgradeDelayNotMet),
        m.current_time >= clamp_u64(proposed_at + m.upgrade_delay) ==> m.upgrade_outcome() is Ok,
{
}

/// A distribution promises no more than it brings in.
proof fn lemma_conserved_distribute(m: ModelView, reward: i128)
    requires
        conserved(m),
    ensures
        conserved(m.distribute_next(reward)),
{
    law_balance_conservation(m, 0, 0);
    let after = m.distribute_next(reward);
    assert(0 <= m.balances[0] && 0 <= m.balances[1] && 0 <= m.balances[2]);
    let inc = after.per_share_index - m.per_share_index;
    let scale = INDEX_SCALE as int;
    if reward >= 0 {
        if m.total_staked > 0 {
            vstd::arithmetic::div_mod::lemma_div_pos_is_pos(
                reward * INDEX_SCALE,
                m.total_staked as int,
            );
            let total = m.total_staked as int;
            let scaled = reward * scale;
            assert((scaled / total) * total <= scaled) by (nonlinear_arith)
                requires
                    total > 0,
            ;
        }
        assert(balanced(after)) by {
            assert forall|u: int| 0 <= u < 3 implies 0 <= #[trigger] after.balances[u]
                && after.user_index_snapshot[u] <= after.per_share_index && 0
                <= after.unclaimed_rewards[u] by {
                assert(0 <= m.balances[u]);
            }
        }
        assert forall|u: int| 0 <= u < 3 implies #[trigger] growth(after, u) == growth(m, u) + inc
            * m.balances[u] by {
            assert(((m.per_share_index + inc) - m.user_index_snapshot[u]) * m.balances[u] == (
            m.per_share_index - m.user_index_snapshot[u]) * m.balances[u] + inc * m.balances[u])
                by (nonlinear_arith);
        }
        assert(inc * m.balances[0] + inc * m.balances[1] + inc * m.balances[2] == inc * (
        m.balances[0] + m.balances[1] + m.balances[2])) by (nonlinear_arith);
        assert(inc * m.total_staked == 0 || inc * m.total_staked <= reward * scale) by {
            if inc == 0 {
                assert(inc * m.total_staked == 0) by (nonlinear_arith)
                    requires
                        inc == 0,
                ;
            }
        }
        let before_room = m.total_distributed - m.total_claimed - sum3(m.unclaimed_rewards);
        let after_room = after.total_distributed - after.total_claimed - sum3(
            after.unclaimed_rewards,
        );
        assert(growth(after, 0) == growth(m, 0) + inc * m.balances[0]);
        assert(growth(after, 1) == growth(m, 1) + inc * m.balances[1]);
        assert(growth(after, 2) == growth(m, 2) + inc * m.balances[2]);
        assert(after_room * scale == before_room * scale + (after_room - before_room) * scale)
            by (nonlinear_arith);
    }
}

/// A claim pays no more than the index promises.
proof fn lemma_conserved_claim(m: ModelView, user: int)
    requires
        conserved(m),
        0 <= user < 3,
    ensures
        conserved(m.claim_next(user)),
{
    law_balance_conservation(m, user, 0);
    law_conserved_pool_checks_out(m);
    lemma_accrued(m, 0);
    lemma_accrued(m, 1);
    lemma_accrued(m, 2);
    assert(0 <= m.balances[0] && 0 <= m.balances[1] && 0 <= m.balances[2]);
    let after = m.claim_next(user);
    let scale = INDEX_SCALE as int;
    lemma_accrued(m, user);
    assert(0 <= m.balances[user]);
    if m.claim_outcome(user) is Ok && m.balances[user] != 0 {
        assert(growth(after, user) == 0) by (nonlinear_arith)
            requires
                growth(after, user) == (after.per_share_index - after.user_index_snapshot[user])
                    * after.balances[user],
                after.per_share_index == after.user_index_snapshot[user],
        ;
        assert forall|u: int| 0 <= u < 3 && u != user implies #[trigger] growth(after, u)
            == growth(m, u) by {}
        assert(m.claimable(user) == m.unclaimed_rewards[user] + m.accrued(user));
        let before_room = m.total_distributed - m.total_claimed - sum3(m.unclaimed_rewards);
        let after_room = after.total_distributed - after.total_claimed - sum3(
            after.unclaimed_rewards,
        );
        assert(after_room == before_room - m.accrued(user));
        assert((before_room - m.accrued(user)) * scale == before_room * scale - m.accrued(user)
            * scale) by (nonlinear_arith);
        assert(growth(after, 0) + growth(after, 1) + growth(after, 2) == growth(m, 0) + growth(
            m,
            1,
        ) + growth(m, 2) - growth(m, user));
    } else {
        assert(growth(after, 0) == growth(m, 0));
        assert(growth(after, 1) == growth(m, 1));
        assert(growth(after, 2) == growth(m, 2));
    }
}

/// Lowering a balance, or taking a new snapshot, promises no more.
proof fn lemma_conserved_lower(m: ModelView, after: ModelView, user: int)
    requires
        conserved(m),
        balanced(after),
        0 <= user < 3,
        growth(after, user) <= growth(m, user),
        forall|u: int| 0 <= u < 3 && u != user ==> #[trigger] growth(after, u) == growth(m, u),
        after.total_distributed == m.total_distributed,
        after.total_claimed == m.total_claimed,
        after.unclaimed_rewards == m.unclaimed_rewards,
    ensures
        conserved(after),
{
    assert(0 != user ==> growth(after, 0) == growth(m, 0));
    assert(1 != user ==> growth(after, 1) == growth(m, 1));
    assert(2 != user ==> growth(after, 2) == growth(m, 2));
}

/// Reward conservation: no operation makes up rewards. A stake is one together
/// with its snapshot, without which earlier rewards would accrue to it.
pub proof fn law_reward_conservation(m: ModelView, user: int, amount: i128)
    requires
        conserved(m),
        0 <= user < 3,
    ensures
        conserved(m.distribute_next(amount)),
        conserved(m.claim_next(user)),
        conserved(m.unstake_next(user, amount)),
        conserved(m.stake_next(user, amount).with_snapshot(user)),
{
    lemma_conserved_distribute(m, amount);
    lemma_conserved_claim(m, user);
    law_balance_conservation(m, user, amount);
    lemma_growth_nonnegative(m, user);
    assert(0 <= m.balances[user]);

    let unstaked = m.unstake_next(user, amount);
    if m.unstake_outcome(user, amount) is Ok {
        let gap = m.per_share_index - m.user_index_snapshot[user];
        assert(gap * (m.balances[user] - amount) <= gap * m.balances[user]) by (nonlinear_arith)
            requires
                gap >= 0,
                amount > 0,
        ;
    }
    assert forall|u: int| 0 <= u < 3 && u != user implies #[trigger] growth(unstaked, u) == growth(
        m,
        u,
    ) by {}
    lemma_conserved_lower(m, unstaked, user);

    let staked = m.stake_next(user, amount);
    law_balance_conservation(staked, user, 0);
    let snapped = staked.with_snapshot(user);
    assert(growth(snapped, user) == 0) by (nonlinear_arith)
        requires
            growth(snapped, user) == (snapped.per_share_index - snapped.user_index_snapshot[user])
                * snapped.balances[user],
            snapped.per_share_index == snapped.user_index_snapshot[user],
    ;
    assert forall|u: int| 0 <= u < 3 && u != user implies #[trigger] growth(snapped, u) == growth(
        m,
        u,
    ) by {}
    lemma_conserved_lower(m, snapped, user);
}

/// Where rewards are conserved, what was claimed and what is set aside is within
/// what was distributed, and so is everything that the users can still claim.
pub proof fn law_conserved_pool_checks_out(m: ModelView)
    requires
        conserved(m),
    ensures
        m.conserves(),
        m.total_claimed + sum3(m.unclaimed_rewards) + m.accrued(0) + m.accrued(1) + m.accrued(2)
            <= m.total_distributed,
{
    assert(0 <= m.balances[0] && 0 <= m.balances[1] && 0 <= m.balances[2]);
    lemma_accrued(m, 0);
    lemma_accrued(m, 1);
    lemma_accrued(m, 2);
    let room = m.total_distributed - m.total_claimed - sum3(m.unclaimed_rewards);
    let due = m.accrued(0) + m.accrued(1) + m.accrued(2);
    let scale = INDEX_SCALE as int;
    assert(due * scale == m.accrued(0) * scale + m.accrued(1) * scale + m.accrued(2) * scale)
        by (nonlinear_arith)
        requires
            due == m.accrued(0) + m.accrued(1) + m.accrued(2),
    ;
    assert(due <= room) by (nonlinear_arith)
        requires
            due * scale <= room * scale,
            scale > 0,
    ;
}

/// A pool that nobody has touched conserves rewards.
pub proof fn law_fresh_pool_conserves(m: ModelView)
    requires
        m.sized(),
        forall|u: int|
            0 <= u < 3 ==> #[trigger] m.balances[u] == 0 && m.user_index_snapshot[u]
                == m.per_share_index && m.unclaimed_rewards[u] == 0,
        m.total_staked == 0,
        m.total_distributed == 0,
        m.total_claimed == 0,
    ensures
        conserved(m),
{
    assert(m.balances[0] == 0 && m.balances[1] == 0 && m.balances[2] == 0);
    assert(growth(m, 0) == 0 && growth(m, 1) == 0 && growth(m, 2) == 0) by (nonlinear_arith)
        requires
            growth(m, 0) == (m.per_share_index - m.user_index_snapshot[0]) * m.balances[0],
            growth(m, 1) == (m.per_share_index - m.user_index_snapshot[1]) * m.balances[1],
            growth(m, 2) == (m.per_share_index - m.user_index_snapshot[2]) * m.balances[2],
            m.balances[0] == 0,
            m.balances[1] == 0,
            m.balances[2] == 0,
    ;
}

/// Solvency, in exact sums: stakes and rewards not claimed yet are within the
/// pool's balance.
pub open spec fn solvent(m: ModelView) -> bool {
    m.total_staked + (m.total_distributed - m.total_claimed) <= m.pool_balance
}

/// The pool stays solvent: distributions that go through, claims that go
/// through and unstakes keep it so, and a stake does as far as the pool has room
/// for it.
pub proof fn law_reward_solvency(m: ModelView, user: int, amount: i128)
    requires
        m.sized(),
        solvent(m),
        0 <= user < 3,
        m.unstake_abort(user, amount) is None,
    ensures
        m.distribute_outcome(amount) is Ok ==> solvent(m.distribute_next(amount)),
        m.claim_outcome(user) is Ok ==> solvent(m.claim_next(user)),
        solvent(m.unstake_next(user, amount)),
        m.total_staked + amount + (m.total_distributed - m.total_claimed) <= m.pool_balance
            ==> solvent(m.stake_next(user, amount)),
{
}

/// In a solvent pool that conserves rewards, everything that all users can
/// still claim is there, besides all stakes.
pub proof fn law_solvent_pool_can_pay(m: ModelView)
    requires
        conserved(m),
        solvent(m),
    ensures
        m.total_staked + sum3(m.unclaimed_rewards) + m.accrued(0) + m.accrued(1) + m.accrued(2)
            <= m.pool_balance,
{
    law_conserved_pool_checks_out(m);
}

/// A solvent pool passes the check in sums that saturate too.
pub proof fn law_solvent_pool_checks_out(m: ModelView)
    requires
        solvent(m),
        0 <= m.total_staked,
        arith::is_i128(m.total_distributed - m.total_claimed),
    ensures
        m.covers(),
{
}

/// No free rewards: whoever stakes for the first time after a distribution gets
/// nothing of it; a claim right after the stake succeeds with zero.
pub proof fn law_no_free_rewards(m: ModelView, reward: i128, user: int, amount: i128)
    requires
        balanced(m),
        0 <= user < 3,
        m.balances[user] == 0,
        m.unclaimed_rewards[user] == 0,
        m.distribute_outcome(reward) is Ok,
        m.distribute_next(reward).stake_outcome(user, amount) is Ok,
    ensures
        ({
            let after = m.distribute_next(reward).stake_next(user, amount).with_snapshot(user);
            &&& after.accrued(user) == 0
            &&& after.claim_outcome(user) == Ok::<i128, ModelError>(0)
            &&& after.claim_next(user).unclaimed_rewards[user] == 0
        }),
{
    let after = m.distribute_next(reward).stake_next(user, amount).with_snapshot(user);
    assert(after.per_share_index - after.user_index_snapshot[user] == 0);
    assert(arith::clamp_i128(0) * after.balances[user] == 0) by (nonlinear_arith);
}

/// Rounding favours the pool: of one distribution, the users together can claim
/// at most what was distributed, and the pool keeps the rest.
pub proof fn law_rounding_direction(m: ModelView, reward: i128)
    requires
        balanced(m),
        m.total_staked > 0,
        m.distribute_outcome(reward) is Ok,
        forall|u: int|
            0 <= u < 3 ==> #[trigger] m.user_index_snapshot[u] == m.per_share_index,
    ensures
        ({
            let after = m.distribute_next(reward);
            &&& after.pool_balance == m.pool_balance + reward
            &&& after.accrued(0) + after.accrued(1) + after.accrued(2) <= reward
            &&& m.pool_balance <= after.pool_balance - after.accrued(0) - after.accrued(1)
                - after.accrued(2)
        }),
{
    let after = m.distribute_next(reward);
    assert(balanced(after)) by {
        vstd::arithmetic::div_mod::lemma_div_pos_is_pos(
            reward * INDEX_SCALE,
            m.total_staked as int,
        );
        assert forall|u: int| 0 <= u < 3 implies 0 <= #[trigger] after.balances[u]
            && after.user_index_snapshot[u] <= after.per_share_index && 0
            <= after.unclaimed_rewards[u] by {
            assert(0 <= m.balances[u]);
            assert(m.user_index_snapshot[u] == m.per_share_index);
        }
    }
    assert(m.user_index_snapshot[0] == m.per_share_index);
    assert(m.user_index_snapshot[1] == m.per_share_index);
    assert(m.user_index_snapshot[2] == m.per_share_index);
    lemma_accrued(after, 0);
    lemma_accrued(after, 1);
    lemma_accrued(after, 2);
    let total = m.total_staked as int;
    let scale = INDEX_SCALE as int;
    let scaled = reward * scale;
    let inc = scaled / total;
    assert(inc * total <= scaled) by (nonlinear_arith)
        requires
            inc == scaled / total,
            total > 0,
    ;
    assert(growth(after, 0) + growth(after, 1) + growth(after, 2) == inc * total) by (
        nonlinear_arith)
        requires
            growth(after, 0) == inc * m.balances[0],
            growth(after, 1) == inc * m.balances[1],
            growth(after, 2) == inc * m.balances[2],
            total == m.balances[0] + m.balances[1] + m.balances[2],
    ;
    let due = after.accrued(0) + after.accrued(1) + after.accrued(2);
    assert(due * scale == after.accrued(0) * scale + after.accrued(1) * scale + after.accrued(2)
        * scale) by (nonlinear_arith)
        requires
            due == after.accrued(0) + after.accrued(1) + after.accrued(2),
    ;
    assert(due <= reward) by (nonlinear_arith)
        requires
            due * scale <= reward * scale,
            scale > 0,
    ;
}

} // verus!
