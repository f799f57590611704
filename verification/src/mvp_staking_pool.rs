//! A pool of staked tokens with rewards by a global index.
//!
//! Whoever funds rewards raises one index, the reward per staked unit so far.
//! A user's share is worked out from the rise of the index since that user was
//! last looked at, so that no call walks over the users.
//!
//! An entry point that calls the token is in two parts, with the reentrancy
//! lock held in between: `begin_..` up to the transfer, `finish_..` after it.

use vstd::prelude::*;

use crate::access_control::{require_admin_auth, require_admin_permission, PausableError};
use crate::arith;
use crate::host::{Action, Data, Env, Event, Topics, Value};
use crate::reentrancy_guard;
use crate::table::Table;
use crate::upgrade_governance;
use crate::upgrade_governance::{UpgradeGovernance, UpgradeGovernanceError, UpgradeGovernanceKey};
use crate::value::{Address, Bytes32};

verus! {

/// Units of the reward index per whole reward unit per staked unit.
pub const REWARD_INDEX_SCALE: i128 = 1_000_000_000_000;

#[derive(Clone, Copy, Debug, PartialEq, Eq, Structural)]
pub enum ContractError {
    UpgradeAlreadyPending,
    NoUpgradePending,
    UpgradeDelayNotMet,
    NotAuthorized,
    /// Unstake amount exceeds unused stake; used stake stays locked.
    InsufficientUnusedStake,
    /// Utilization exceeds the user's unused stake.
    UtilizationExceedsUnused,
    /// Nested call rejected.
    ReentrancyDetected,
}

impl ContractError {
    pub open spec fn code_of(self) -> u32 {
        match self {
            Self::UpgradeAlreadyPending => 1,
            Self::NoUpgradePending => 2,
            Self::UpgradeDelayNotMet => 3,
            Self::NotAuthorized => 4,
            Self::InsufficientUnusedStake => 5,
            Self::UtilizationExceedsUnused => 6,
            Self::ReentrancyDetected => 7,
        }
    }

    /// The number under which callers see the error.
    pub fn code(self) -> (c: u32)
        ensures
            c == self.code_of(),
    {
        match self {
            Self::UpgradeAlreadyPending => 1,
            Self::NoUpgradePending => 2,
            Self::UpgradeDelayNotMet => 3,
            Self::NotAuthorized => 4,
            Self::InsufficientUnusedStake => 5,
            Self::UtilizationExceedsUnused => 6,
            Self::ReentrancyDetected => 7,
        }
    }
}

/// What the contract keeps in storage.
pub struct StakingPool {
    pub governance: UpgradeGovernance,
    pub token: Option<Address>,
    pub total_staked: Option<i128>,
    pub paused: Option<bool>,
    pub global_reward_index: Option<i128>,
    pub staked_balances: Table<Address, i128>,
    /// Stake consumed by company operations, which cannot be unstaked.
    pub used_stakes: Table<Address, i128>,
    pub user_reward_indexes: Table<Address, i128>,
    pub claimable_rewards: Table<Address, i128>,
    pub reentrancy: Option<bool>,
}

/// The storage with its tables as maps.
#[verifier::ext_equal]
pub struct PoolView {
    pub governance: UpgradeGovernance,
    pub token: Option<Address>,
    pub total_staked: Option<i128>,
    pub paused: Option<bool>,
    pub global_reward_index: Option<i128>,
    pub staked_balances: Map<Address, i128>,
    pub used_stakes: Map<Address, i128>,
    pub user_reward_indexes: Map<Address, i128>,
    pub claimable_rewards: Map<Address, i128>,
    pub reentrancy: Option<bool>,
}

impl View for StakingPool {
    type V = PoolView;

    open spec fn view(&self) -> PoolView {
        PoolView {
            governance: self.governance,
            token: self.token,
            total_staked: self.total_staked,
            paused: self.paused,
            global_reward_index: self.global_reward_index,
            staked_balances: self.staked_balances@,
            used_stakes: self.used_stakes@,
            user_reward_indexes: self.user_reward_indexes@,
            claimable_rewards: self.claimable_rewards@,
            reentrancy: self.reentrancy,
        }
    }
}

/// The amount stored for `user`; zero where nothing is.
pub open spec fn amount_of(amounts: Map<Address, i128>, user: Address) -> i128 {
    if amounts.dom().contains(user) {
        amounts[user]
    } else {
        0
    }
}

fn read_amount(amounts: &Table<Address, i128>, user: &Address) -> (x: i128)
    ensures
        x == amount_of(amounts@, *user),
{
    match amounts.get(user) {
        Some(x) => *x,
        None => 0,
    }
}

impl PoolView {
    pub open spec fn total(self) -> i128 {
        self.total_staked.unwrap_or(0)
    }

    pub open spec fn global_index(self) -> i128 {
        self.global_reward_index.unwrap_or(0)
    }

    pub open spec fn is_paused(self) -> bool {
        self.paused.unwrap_or(false)
    }

    pub open spec fn staked(self, user: Address) -> i128 {
        amount_of(self.staked_balances, user)
    }

    pub open spec fn used(self, user: Address) -> i128 {
        amount_of(self.used_stakes, user)
    }

    pub open spec fn index(self, user: Address) -> i128 {
        amount_of(self.user_reward_indexes, user)
    }

    pub open spec fn claimable(self, user: Address) -> i128 {
        amount_of(self.claimable_rewards, user)
    }

    /// Stake that may be withdrawn.
    pub open spec fn unused(self, user: Address) -> i128 {
        arith::clamp_i128(self.staked(user) - self.used(user))
    }

    /// Rise of the index that `user` has not been credited for yet.
    pub open spec fn rise(self, user: Address) -> int {
        if self.global_index() > self.index(user) {
            self.global_index() - self.index(user)
        } else {
            0
        }
    }

    /// Reward that `user` is due on top of what is already claimable.
    pub open spec fn accrual(self, user: Address) -> int {
        if self.staked(user) > 0 {
            (self.staked(user) * self.rise(user)) / (REWARD_INDEX_SCALE as int)
        } else {
            0
        }
    }

    /// Message with which crediting `user` aborts, if it does.
    pub open spec fn accrue_abort(self, user: Address) -> Option<&'static str> {
        if self.rise(user) == 0 || self.staked(user) <= 0 {
            None
        } else if self.rise(user) > i128::MAX {
            Some("attempt to subtract with overflow")
        } else if self.staked(user) * self.rise(user) > i128::MAX {
            Some("attempt to multiply with overflow")
        } else if self.claimable(user) + self.accrual(user) > i128::MAX {
            Some("attempt to add with overflow")
        } else {
            None
        }
    }

    /// The pool once `user` has been credited up to the current index.
    pub open spec fn accrued(self, user: Address) -> PoolView {
        PoolView {
            claimable_rewards: if self.accrual(user) > 0 {
                self.claimable_rewards.insert(
                    user,
                    (self.claimable(user) + self.accrual(user)) as i128,
                )
            } else {
                self.claimable_rewards
            },
            user_reward_indexes: if self.rise(user) > 0 {
                self.user_reward_indexes.insert(user, self.global_index())
            } else {
                self.user_reward_indexes
            },
            ..self
        }
    }

    /// The pool with the reentrancy lock taken or released.
    pub open spec fn with_lock(self, lock: bool) -> PoolView {
        PoolView { reentrancy: Some(lock), ..self }
    }

    /// The pool with the stake of `user`, and the total, changed by `delta`.
    pub open spec fn with_stake(self, user: Address, delta: int) -> PoolView {
        PoolView {
            staked_balances: self.staked_balances.insert(
                user,
                (self.staked(user) + delta) as i128,
            ),
            total_staked: Some((self.total() + delta) as i128),
            ..self
        }
    }

    /// The pool with `used` as the used stake of `user`; none where it is not
    /// positive.
    pub open spec fn with_used(self, user: Address, used: int) -> PoolView {
        PoolView {
            used_stakes: if used <= 0 {
                self.used_stakes.remove(user)
            } else {
                self.used_stakes.insert(user, used as i128)
            },
            ..self
        }
    }

    /// Rise of the index when `amount` is spread over a stake of `total`.
    pub open spec fn increment(amount: i128, total: i128) -> int {
        (amount * REWARD_INDEX_SCALE) / (total as int)
    }

    /// The pool with the index raised for `amount` spread over `total`.
    pub open spec fn with_rewards(self, amount: i128, total: i128) -> PoolView {
        PoolView {
            global_reward_index: Some(
                (self.global_index() + PoolView::increment(amount, total)) as i128,
            ),
            ..self
        }
    }

    /// The pool with nothing left to claim for `user`.
    pub open spec fn with_claimed(self, user: Address) -> PoolView {
        PoolView { claimable_rewards: self.claimable_rewards.insert(user, 0), ..self }
    }

    pub open spec fn pause_abort(self) -> Option<&'static str> {
        if self.is_paused() {
            Some("contract is paused")
        } else {
            None
        }
    }

    pub open spec fn token_abort(self) -> Option<&'static str> {
        if self.token is Some {
            None
        } else {
            Some("token not set")
        }
    }

    pub open spec fn admin_abort(self) -> Option<&'static str> {
        if self.governance.admin is Some {
            None
        } else {
            Some("admin not set")
        }
    }

    pub open spec fn lock_abort(self) -> Option<&'static str> {
        if reentrancy_guard::held(self.reentrancy) {
            Some("reentrancy detected")
        } else {
            None
        }
    }

    /// The checks that a movement of stake makes first.
    pub open spec fn movement_abort(self, user: Address, amount: i128) -> Option<&'static str> {
        if self.pause_abort() is Some {
            self.pause_abort()
        } else if positive_abort(amount) is Some {
            positive_abort(amount)
        } else {
            self.accrue_abort(user)
        }
    }

    pub open spec fn stake_abort(self, user: Address, amount: i128) -> Option<&'static str> {
        if self.lock_abort() is Some {
            self.lock_abort()
        } else if self.movement_abort(user, amount) is Some {
            self.movement_abort(user, amount)
        } else if self.staked(user) + amount > i128::MAX || self.total() + amount > i128::MAX {
            Some("attempt to add with overflow")
        } else {
            self.token_abort()
        }
    }

    /// What `unstake` answers.
    pub open spec fn unstake_outcome(self, user: Address, amount: i128) -> Result<
        (),
        ContractError,
    > {
        if reentrancy_guard::held(self.reentrancy) {
            Err(ContractError::ReentrancyDetected)
        } else if amount > self.unused(user) {
            Err(ContractError::InsufficientUnusedStake)
        } else {
            Ok(())
        }
    }

    pub open spec fn unstake_abort(self, user: Address, amount: i128) -> Option<&'static str> {
        if reentrancy_guard::held(self.reentrancy) {
            None
        } else if self.movement_abort(user, amount) is Some {
            self.movement_abort(user, amount)
        } else if amount > self.unused(user) {
            None
        } else if self.token_abort() is Some {
            self.token_abort()
        } else if self.staked(user) - amount < i128::MIN || self.total() - amount < i128::MIN {
            Some("attempt to subtract with overflow")
        } else {
            None
        }
    }

    /// What `utilize_stake` answers.
    pub open spec fn utilize_outcome(self, admin: Address, user: Address, amount: i128) -> Result<
        (),
        ContractError,
    > {
        if self.governance.admin != Some(admin) {
            Err(ContractError::NotAuthorized)
        } else if amount > self.unused(user) {
            Err(ContractError::UtilizationExceedsUnused)
        } else {
            Ok(())
        }
    }

    pub open spec fn utilize_abort(self, admin: Address, user: Address, amount: i128) -> Option<
        &'static str,
    > {
        if self.admin_abort() is Some {
            self.admin_abort()
        } else if self.governance.admin != Some(admin) {
            None
        } else if self.movement_abort(user, amount) is Some {
            self.movement_abort(user, amount)
        } else if amount <= self.unused(user) && self.used(user) + amount > i128::MAX {
            Some("attempt to add with overflow")
        } else {
            None
        }
    }

    pub open spec fn fund_abort(self, from: Address, amount: i128) -> Option<&'static str> {
        if self.lock_abort() is Some {
            self.lock_abort()
        } else if self.admin_abort() is Some {
            self.admin_abort()
        } else if self.pause_abort() is Some {
            self.pause_abort()
        } else if positive_abort(amount) is Some {
            positive_abort(amount)
        } else if self.governance.admin != Some(from) {
            Some("from must be admin")
        } else if self.total() <= 0 {
            Some("no stakers")
        } else if self.token_abort() is Some {
            self.token_abort()
        } else if amount * REWARD_INDEX_SCALE > i128::MAX {
            Some("attempt to multiply with overflow")
        } else if self.global_index() + PoolView::increment(amount, self.total()) > i128::MAX {
            Some("attempt to add with overflow")
        } else {
            None
        }
    }

    /// What `claim` pays out.
    pub open spec fn payout(self, user: Address) -> int {
        if self.claimable(user) + self.accrual(user) > 0 {
            self.claimable(user) + self.accrual(user)
        } else {
            0
        }
    }

    pub open spec fn claim_abort(self, to: Address) -> Option<&'static str> {
        if self.lock_abort() is Some {
            self.lock_abort()
        } else if self.pause_abort() is Some {
            self.pause_abort()
        } else if self.accrue_abort(to) is Some {
            self.accrue_abort(to)
        } else if self.payout(to) > 0 {
            self.token_abort()
        } else {
            None
        }
    }
}

/// Message of the abort of an amount that is not positive.
pub open spec fn positive_abort(amount: i128) -> Option<&'static str> {
    if amount <= 0 {
        Some("amount must be positive")
    } else {
        None
    }
}

/// Find out whether a movement of `amount` would abort for not being positive.
pub fn require_positive_amount(amount: i128) -> (abort: Option<&'static str>)
    ensures
        abort == positive_abort(amount),
{
    if amount <= 0 {
        Some("amount must be positive")
    } else {
        None
    }
}

pub open spec fn user_event(name: &'static str, user: Address, amount: i128) -> Event {
    Event {
        topics: Topics::Three(
            Value::Symbol("mvp_staking_pool"),
            Value::Symbol(name),
            Value::Address(user),
        ),
        data: Data::One(Value::I128(amount)),
    }
}

pub open spec fn pool_event(name: &'static str, data: Data) -> Event {
    Event {
        topics: Topics::Two(Value::Symbol("mvp_staking_pool"), Value::Symbol(name)),
        data,
    }
}

impl StakingPool {
    /// Storage before `init`.
    pub fn new() -> (pool: StakingPool)
        ensures
            pool@ == (PoolView {
                governance: UpgradeGovernance::empty(),
                token: None,
                total_staked: None,
                paused: None,
                global_reward_index: None,
                staked_balances: Map::empty(),
                used_stakes: Map::empty(),
                user_reward_indexes: Map::empty(),
                claimable_rewards: Map::empty(),
                reentrancy: None,
            }),
    {
        StakingPool {
            governance: UpgradeGovernance::new(),
            token: None,
            total_staked: None,
            paused: None,
            global_reward_index: None,
            staked_balances: Table::new(),
            used_stakes: Table::new(),
            user_reward_indexes: Table::new(),
            claimable_rewards: Table::new(),
            reentrancy: None,
        }
    }

    fn get_total_staked(&self) -> (x: i128)
        ensures
            x == self@.total(),
    {
        self.total_staked.unwrap_or(0)
    }

    fn get_global_reward_index(&self) -> (x: i128)
        ensures
            x == self@.global_index(),
    {
        self.global_reward_index.unwrap_or(0)
    }

    fn get_unused_stake(&self, user: &Address) -> (x: i128)
        ensures
            x == self@.unused(*user),
    {
        let total: i128 = read_amount(&self.staked_balances, user);
        let used: i128 = read_amount(&self.used_stakes, user);
        arith::saturating_sub(total, used)
    }

    fn put_used_stake(&mut self, user: &Address, used: i128)
        ensures
            final(self)@ == old(self)@.with_used(*user, used as int),
    {
        if used <= 0 {
            self.used_stakes.remove(user);
        } else {
            self.used_stakes.set(*user, used);
        }
    }

    /// Find out whether crediting `user` would abort.
    fn check_accrue(&self, user: &Address) -> (abort: Option<&'static str>)
        ensures
            abort == self@.accrue_abort(*user),
    {
        let global_idx: i128 = self.get_global_reward_index();
        let user_idx: i128 = read_amount(&self.user_reward_indexes, user);
        if global_idx <= user_idx {
            return None;
        }
        let staked: i128 = read_amount(&self.staked_balances, user);
        if staked <= 0 {
            return None;
        }
        let delta: i128 = match global_idx.checked_sub(user_idx) {
            Some(delta) => delta,
            None => {
                return Some("attempt to subtract with overflow");
            },
        };
        proof {
            assert(staked * delta > 0) by (nonlinear_arith)
                requires
                    staked > 0,
                    delta > 0,
            ;
        }
        let product: i128 = match staked.checked_mul(delta) {
            Some(product) => product,
            None => {
                return Some("attempt to multiply with overflow");
            },
        };
        let accrued: i128 = product / REWARD_INDEX_SCALE;
        if read_amount(&self.claimable_rewards, user).checked_add(accrued).is_none() {
            return Some("attempt to add with overflow");
        }
        None
    }

    /// Credit `user` for the rise of the index since the last time.
    fn accrue_user_rewards(&mut self, user: &Address)
        requires
            old(self)@.accrue_abort(*user) is None,
        ensures
            final(self)@ == old(self)@.accrued(*user),
    {
        let global_idx: i128 = self.get_global_reward_index();
        let user_idx: i128 = read_amount(&self.user_reward_indexes, user);
        if global_idx <= user_idx {
            proof {
                assert(self@.staked(*user) * self@.rise(*user) == 0) by (nonlinear_arith)
                    requires
                        self@.rise(*user) == 0,
                ;
            }
            return ;
        }
        let staked: i128 = read_amount(&self.staked_balances, user);
        if staked > 0 {
            let delta: i128 = global_idx - user_idx;
            proof {
                assert(staked * delta > 0) by (nonlinear_arith)
                    requires
                        staked > 0,
                        delta > 0,
                ;
            }
            let accrued: i128 = (staked * delta) / REWARD_INDEX_SCALE;
            if accrued > 0 {
                let current: i128 = read_amount(&self.claimable_rewards, user);
                self.claimable_rewards.set(*user, current + accrued);
            }
        }
        self.user_reward_indexes.set(*user, global_idx);
    }
}

impl StakingPool {
    pub open spec fn init_abort(self) -> Option<&'static str> {
        if self.governance.admin is Some {
            Some("already initialized")
        } else {
            None
        }
    }

    /// Find out whether `init` would abort.
    pub fn check_init(&self) -> (abort: Option<&'static str>)
        ensures
            abort == self.init_abort(),
    {
        if self.governance.has(UpgradeGovernanceKey::Admin) {
            Some("already initialized")
        } else {
            None
        }
    }

    /// Set the admin and the token, once.
    pub fn init(&mut self, env: &mut Env, admin: &Address, token: &Address)
        requires
            old(self).init_abort() is None,
        ensures
            final(self)@ == (PoolView {
                governance: UpgradeGovernance {
                    admin: Some(*admin),
                    contract_version: Some(2),
                    ..old(self).governance
                },
                token: Some(*token),
                total_staked: Some(0),
                global_reward_index: Some(0),
                ..old(self)@
            }),
            final(env).after(
                *old(env),
                seq![
                    Action::Publish(
                        pool_event(
                            "init",
                            Data::Three(
                                Value::Address(*admin),
                                Value::Address(*token),
                                Value::U32(2),
                            ),
                        ),
                    ),
                ],
            ),
    {
        self.governance.admin = Some(*admin);
        self.token = Some(*token);
        self.governance.contract_version = Some(2);
        self.total_staked = Some(0);
        self.global_reward_index = Some(0);
        env.publish(
            Event {
                topics: Topics::Two(Value::Symbol("mvp_staking_pool"), Value::Symbol("init")),
                data: Data::Three(Value::Address(*admin), Value::Address(*token), Value::U32(2)),
            },
        );
    }

    pub fn contract_version(&self) -> (version: u32)
        ensures
            version == self.governance.version(),
    {
        self.governance.contract_version.unwrap_or(0)
    }

    pub fn is_paused(&self) -> (b: bool)
        ensures
            b == self@.is_paused(),
    {
        self.paused.unwrap_or(false)
    }

    fn check_movement(&self, user: &Address, amount: i128) -> (abort: Option<&'static str>)
        ensures
            abort == self@.movement_abort(*user, amount),
    {
        if self.is_paused() {
            return Some("contract is paused");
        }
        match require_positive_amount(amount) {
            Some(message) => Some(message),
            None => self.check_accrue(user),
        }
    }

    fn locked(&self) -> (b: bool)
        ensures
            b == reentrancy_guard::held(self.reentrancy),
    {
        self.reentrancy.unwrap_or(false)
    }

    /// Find out whether `stake` would abort.
    pub fn check_stake(&self, user: &Address, amount: i128) -> (abort: Option<&'static str>)
        ensures
            abort == self@.stake_abort(*user, amount),
    {
        if self.locked() {
            return Some("reentrancy detected");
        }
        if let Some(message) = self.check_movement(user, amount) {
            return Some(message);
        }
        if read_amount(&self.staked_balances, user).checked_add(amount).is_none()
            || self.get_total_staked().checked_add(amount).is_none() {
            return Some("attempt to add with overflow");
        }
        if self.token.is_none() {
            return Some("token not set");
        }
        None
    }

    /// First part of `stake`: the stake is booked, the lock is held, and the
    /// tokens are asked for.
    pub fn begin_stake(&mut self, env: &mut Env, user: &Address, amount: i128)
        requires
            old(self)@.stake_abort(*user, amount) is None,
        ensures
            final(self)@ == old(self)@.accrued(*user).with_stake(*user, amount as int).with_lock(
                true,
            ),
            final(env).after(
                *old(env),
                seq![
                    Action::RequireAuth(*user),
                    Action::Transfer {
                        token: old(self).token->0,
                        from: *user,
                        to: old(env).this,
                        amount,
                    },
                ],
            ),
    {
        let _ = reentrancy_guard::enter(&mut self.reentrancy, ContractError::ReentrancyDetected);
        env.require_auth(user);
        self.accrue_user_rewards(user);

        let current_balance: i128 = read_amount(&self.staked_balances, user);
        self.staked_balances.set(*user, current_balance + amount);
        let total: i128 = self.get_total_staked();
        self.total_staked = Some(total + amount);

        let token = self.token.unwrap();
        let this = env.this;
        env.transfer(&token, user, &this, amount);
    }

    /// Last part of `stake`: the lock is released.
    pub fn finish_stake(&mut self, env: &mut Env, user: &Address, amount: i128)
        ensures
            final(self)@ == old(self)@.with_lock(false),
            final(env).after(
                *old(env),
                seq![Action::Publish(user_event("stake", *user, amount))],
            ),
    {
        reentrancy_guard::exit(&mut self.reentrancy);
        env.publish(
            Event {
                topics: Topics::Three(
                    Value::Symbol("mvp_staking_pool"),
                    Value::Symbol("stake"),
                    Value::Address(*user),
                ),
                data: Data::One(Value::I128(amount)),
            },
        );
    }

    /// Take `amount` from `user` into the pool.
    pub fn stake(&mut self, env: &mut Env, user: &Address, amount: i128)
        requires
            old(self)@.stake_abort(*user, amount) is None,
        ensures
            final(self)@ == old(self)@.accrued(*user).with_stake(*user, amount as int).with_lock(
                false,
            ),
            final(env).after(
                *old(env),
                seq![
                    Action::RequireAuth(*user),
                    Action::Transfer {
                        token: old(self).token->0,
                        from: *user,
                        to: old(env).this,
                        amount,
                    },
                    Action::Publish(user_event("stake", *user, amount)),
                ],
            ),
    {
        self.begin_stake(env, user, amount);
        self.finish_stake(env, user, amount);
    }

    /// Find out whether `unstake` would abort.
    pub fn check_unstake(&self, user: &Address, amount: i128) -> (abort: Option<&'static str>)
        ensures
            abort == self@.unstake_abort(*user, amount),
    {
        if self.locked() {
            return None;
        }
        if let Some(message) = self.check_movement(user, amount) {
            return Some(message);
        }
        if amount > self.get_unused_stake(user) {
            return None;
        }
        if self.token.is_none() {
            return Some("token not set");
        }
        if read_amount(&self.staked_balances, user).checked_sub(amount).is_none()
            || self.get_total_staked().checked_sub(amount).is_none() {
            return Some("attempt to subtract with overflow");
        }
        None
    }

    /// The event of a refused withdrawal.
    pub open spec fn rejected_event(user: Address, amount: i128, unused: i128) -> Event {
        pool_event(
            "unstake_rejected",
            Data::Four(
                Value::Address(user),
                Value::I128(amount),
                Value::I128(unused),
                Value::Symbol("insufficient_unused"),
            ),
        )
    }

    /// The state that a refused withdrawal leaves: under a held lock nothing
    /// changes; otherwise `user` has been credited and the lock is free.
    pub open spec fn unstake_refused(pre: PoolView, user: Address) -> PoolView {
        if reentrancy_guard::held(pre.reentrancy) {
            pre
        } else {
            pre.accrued(user).with_lock(false)
        }
    }

    /// What a refused withdrawal asks of the ledger.
    pub open spec fn unstake_refused_actions(pre: PoolView, user: Address, amount: i128) -> Seq<
        Action,
    > {
        if reentrancy_guard::held(pre.reentrancy) {
            seq![]
        } else {
            seq![
                Action::RequireAuth(user),
                Action::Publish(StakingPool::rejected_event(user, amount, pre.unused(user))),
            ]
        }
    }

    /// First part of `unstake`: the withdrawal is booked, the lock is held, and
    /// the tokens are sent.
    pub fn begin_unstake(&mut self, env: &mut Env, user: &Address, amount: i128) -> (r: Result<
        (),
        ContractError,
    >)
        requires
            old(self)@.unstake_abort(*user, amount) is None,
        ensures
            r == old(self)@.unstake_outcome(*user, amount),
            r is Ok ==> final(self)@ == old(self)@.accrued(*user).with_stake(
                *user,
                -amount,
            ).with_lock(true) && final(env).after(
                *old(env),
                seq![
                    Action::RequireAuth(*user),
                    Action::Transfer {
                        token: old(self).token->0,
                        from: old(env).this,
                        to: *user,
                        amount,
                    },
                ],
            ),
            r is Err ==> final(self)@ == StakingPool::unstake_refused(old(self)@, *user)
                && final(env).after(
                *old(env),
                StakingPool::unstake_refused_actions(old(self)@, *user, amount),
            ),
    {
        match reentrancy_guard::enter(&mut self.reentrancy, ContractError::ReentrancyDetected) {
            Err(e) => {
                return Err(e);
            },
            Ok(()) => {},
        }
        env.require_auth(user);
        self.accrue_user_rewards(user);

        let current_balance: i128 = read_amount(&self.staked_balances, user);
        let unused: i128 = self.get_unused_stake(user);
        if amount > unused {
            env.publish(
                Event {
                    topics: Topics::Two(
                        Value::Symbol("mvp_staking_pool"),
                        Value::Symbol("unstake_rejected"),
                    ),
                    data: Data::Four(
                        Value::Address(*user),
                        Value::I128(amount),
                        Value::I128(unused),
                        Value::Symbol("insufficient_unused"),
                    ),
                },
            );
            reentrancy_guard::exit(&mut self.reentrancy);
            return Err(ContractError::InsufficientUnusedStake);
        }
        let token = self.token.unwrap();
        self.staked_balances.set(*user, current_balance - amount);
        let total: i128 = self.get_total_staked();
        self.total_staked = Some(total - amount);

        let this = env.this;
        env.transfer(&token, &this, user, amount);
        Ok(())
    }

    /// Last part of `unstake`: the lock is released.
    pub fn finish_unstake(&mut self, env: &mut Env, user: &Address, amount: i128)
        ensures
            final(self)@ == old(self)@.with_lock(false),
            final(env).after(
                *old(env),
                seq![Action::Publish(user_event("unstake", *user, amount))],
            ),
    {
        reentrancy_guard::exit(&mut self.reentrancy);
        env.publish(
            Event {
                topics: Topics::Three(
                    Value::Symbol("mvp_staking_pool"),
                    Value::Symbol("unstake"),
                    Value::Address(*user),
                ),
                data: Data::One(Value::I128(amount)),
            },
        );
    }

    /// Give `amount` of unused stake back to `user`. Used stake stays locked.
    pub fn unstake(&mut self, env: &mut Env, user: &Address, amount: i128) -> (r: Result<
        (),
        ContractError,
    >)
        requires
            old(self)@.unstake_abort(*user, amount) is None,
        ensures
            r == old(self)@.unstake_outcome(*user, amount),
            r is Ok ==> final(self)@ == old(self)@.accrued(*user).with_stake(
                *user,
                -amount,
            ).with_lock(false) && final(env).after(
                *old(env),
                seq![
                    Action::RequireAuth(*user),
                    Action::Transfer {
                        token: old(self).token->0,
                        from: old(env).this,
                        to: *user,
                        amount,
                    },
                    Action::Publish(user_event("unstake", *user, amount)),
                ],
            ),
            r is Err ==> final(self)@ == StakingPool::unstake_refused(old(self)@, *user)
                && final(env).after(
                *old(env),
                StakingPool::unstake_refused_actions(old(self)@, *user, amount),
            ),
    {
        match self.begin_unstake(env, user, amount) {
            Err(e) => Err(e),
            Ok(()) => {
                self.finish_unstake(env, user, amount);
                Ok(())
            },
        }
    }

    /// Stake of `user` that company operations have consumed.
    pub fn used_stake(&self, user: &Address) -> (x: i128)
        ensures
            x == self@.used(*user),
    {
        read_amount(&self.used_stakes, user)
    }

    /// Stake of `user` that may still be withdrawn.
    pub fn unused_stake(&self, user: &Address) -> (x: i128)
        ensures
            x == self@.unused(*user),
    {
        self.get_unused_stake(user)
    }

    /// Find out whether `utilize_stake` would abort.
    pub fn check_utilize_stake(&self, admin: &Address, user: &Address, amount: i128) -> (abort:
        Option<&'static str>)
        ensures
            abort == self@.utilize_abort(*admin, *user, amount),
    {
        match self.governance.admin {
            None => {
                return Some("admin not set");
            },
            Some(current_admin) => if *admin != current_admin {
                return None;
            },
        }
        if let Some(message) = self.check_movement(user, amount) {
            return Some(message);
        }
        if amount <= self.get_unused_stake(user) && read_amount(
            &self.used_stakes,
            user,
        ).checked_add(amount).is_none() {
            return Some("attempt to add with overflow");
        }
        None
    }

    /// Mark unused stake of `user` as used. The tokens stay in the pool, and
    /// `user` cannot withdraw them.
    pub fn utilize_stake(&mut self, env: &mut Env, admin: &Address, user: &Address, amount: i128) -> (r:
        Result<(), ContractError>)
        requires
            old(self)@.utilize_abort(*admin, *user, amount) is None,
        ensures
            r == old(self)@.utilize_outcome(*admin, *user, amount),
            r is Ok ==> final(self)@ == old(self)@.accrued(*user).with_used(
                *user,
                old(self)@.used(*user) + amount,
            ) && final(env).after(
                *old(env),
                seq![
                    Action::RequireAuth(*admin),
                    Action::Publish(
                        pool_event(
                            "stake_utilized",
                            Data::Four(
                                Value::Address(*user),
                                Value::I128(amount),
                                Value::I128((old(self)@.used(*user) + amount) as i128),
                                Value::I128(
                                    arith::clamp_i128(
                                        old(self)@.staked(*user) - (old(self)@.used(*user)
                                            + amount),
                                    ),
                                ),
                            ),
                        ),
                    ),
                ],
            ),
            r is Err ==> final(self)@ == (if r == Err::<(), _>(ContractError::NotAuthorized) {
                old(self)@
            } else {
                old(self)@.accrued(*user)
            }) && final(env).after(*old(env), seq![Action::RequireAuth(*admin)]),
    {
        let current_admin = self.governance.admin.unwrap();
        match require_admin_permission(env, &current_admin, admin, ContractError::NotAuthorized) {
            Err(e) => {
                return Err(e);
            },
            Ok(()) => {},
        }
        self.accrue_user_rewards(user);

        let total: i128 = read_amount(&self.staked_balances, user);
        let unused: i128 = self.get_unused_stake(user);
        if amount > unused {
            return Err(ContractError::UtilizationExceedsUnused);
        }
        let used: i128 = read_amount(&self.used_stakes, user);
        let new_used: i128 = used + amount;
        self.put_used_stake(user, new_used);

        let new_unused: i128 = arith::saturating_sub(total, new_used);
        env.publish(
            Event {
                topics: Topics::Two(
                    Value::Symbol("mvp_staking_pool"),
                    Value::Symbol("stake_utilized"),
                ),
                data: Data::Four(
                    Value::Address(*user),
                    Value::I128(amount),
                    Value::I128(new_used),
                    Value::I128(new_unused),
                ),
            },
        );
        Ok(())
    }

    /// Stake of `user`, used and unused.
    pub fn staked_balance(&self, user: &Address) -> (x: i128)
        ensures
            x == self@.staked(*user),
    {
        read_amount(&self.staked_balances, user)
    }

    /// Stake of all users.
    pub fn total_staked(&self) -> (x: i128)
        ensures
            x == self@.total(),
    {
        self.get_total_staked()
    }

    /// Find out whether `fund_rewards` would abort.
    pub fn check_fund_rewards(&self, from: &Address, amount: i128) -> (abort: Option<&'static str>)
        ensures
            abort == self@.fund_abort(*from, amount),
    {
        if self.locked() {
            return Some("reentrancy detected");
        }
        let admin = match self.governance.admin {
            None => {
                return Some("admin not set");
            },
            Some(admin) => admin,
        };
        if self.is_paused() {
            return Some("contract is paused");
        }
        if let Some(message) = require_positive_amount(amount) {
            return Some(message);
        }
        if *from != admin {
            return Some("from must be admin");
        }
        let total: i128 = self.get_total_staked();
        if total <= 0 {
            return Some("no stakers");
        }
        if self.token.is_none() {
            return Some("token not set");
        }
        let scaled: i128 = match amount.checked_mul(REWARD_INDEX_SCALE) {
            Some(scaled) => scaled,
            None => {
                return Some("attempt to multiply with overflow");
            },
        };
        let increment: i128 = scaled / total;
        proof {
            vstd::arithmetic::div_mod::lemma_div_pos_is_pos(scaled as int, total as int);
        }
        if self.get_global_reward_index().checked_add(increment).is_none() {
            return Some("attempt to add with overflow");
        }
        None
    }

    /// First part of `fund_rewards`: the lock is held, the index goes up, and
    /// the tokens are asked for.
    pub fn begin_fund_rewards(&mut self, env: &mut Env, from: &Address, amount: i128)
        requires
            old(self)@.fund_abort(*from, amount) is None,
        ensures
            final(self)@ == old(self)@.with_rewards(amount, old(self)@.total()).with_lock(true),
            final(env).after(
                *old(env),
                seq![
                    Action::RequireAuth(*from),
                    Action::Transfer {
                        token: old(self).token->0,
                        from: *from,
                        to: old(env).this,
                        amount,
                    },
                ],
            ),
    {
        let _ = reentrancy_guard::enter(&mut self.reentrancy, ContractError::ReentrancyDetected);
        let admin = self.governance.admin.unwrap();
        require_admin_auth(env, &admin);
        let total: i128 = self.get_total_staked();
        let increment: i128 = (amount * REWARD_INDEX_SCALE) / total;
        proof {
            vstd::arithmetic::div_mod::lemma_div_pos_is_pos(
                amount * REWARD_INDEX_SCALE,
                total as int,
            );
        }
        let new_idx: i128 = self.get_global_reward_index() + increment;
        self.global_reward_index = Some(new_idx);
        let token = self.token.unwrap();
        let this = env.this;
        env.transfer(&token, from, &this, amount);
    }

    /// Last part of `fund_rewards`: the lock is released.
    pub fn finish_fund_rewards(&mut self, env: &mut Env, from: &Address, amount: i128)
        ensures
            final(self)@ == old(self)@.with_lock(false),
            final(env).after(
                *old(env),
                seq![Action::Publish(user_event("fund_rewards", *from, amount))],
            ),
    {
        reentrancy_guard::exit(&mut self.reentrancy);
        env.publish(
            Event {
                topics: Topics::Three(
                    Value::Symbol("mvp_staking_pool"),
                    Value::Symbol("fund_rewards"),
                    Value::Address(*from),
                ),
                data: Data::One(Value::I128(amount)),
            },
        );
    }

    /// Spread `amount` from the admin over all stakers, by share.
    pub fn fund_rewards(&mut self, env: &mut Env, from: &Address, amount: i128)
        requires
            old(self)@.fund_abort(*from, amount) is None,
        ensures
            final(self)@ == old(self)@.with_rewards(amount, old(self)@.total()).with_lock(false),
            final(env).after(
                *old(env),
                seq![
                    Action::RequireAuth(*from),
                    Action::Transfer {
                        token: old(self).token->0,
                        from: *from,
                        to: old(env).this,
                        amount,
                    },
                    Action::Publish(user_event("fund_rewards", *from, amount)),
                ],
            ),
    {
        self.begin_fund_rewards(env, from, amount);
        self.finish_fund_rewards(env, from, amount);
    }

    /// Find out whether `claimable` would abort.
    pub fn check_claimable(&self, user: &Address) -> (abort: Option<&'static str>)
        ensures
            abort == self@.accrue_abort(*user),
    {
        self.check_accrue(user)
    }

    /// Credit `user`, and tell what can be claimed.
    pub fn claimable(&mut self, user: &Address) -> (x: i128)
        requires
            old(self)@.accrue_abort(*user) is None,
        ensures
            final(self)@ == old(self)@.accrued(*user),
            x == old(self)@.claimable(*user) + old(self)@.accrual(*user),
    {
        self.accrue_user_rewards(user);
        proof {
            lemma_accrued(old(self)@, *user);
        }
        read_amount(&self.claimable_rewards, user)
    }

    /// Find out whether `claim` would abort.
    pub fn check_claim(&self, to: &Address) -> (abort: Option<&'static str>)
        ensures
            abort == self@.claim_abort(*to),
    {
        if self.locked() {
            return Some("reentrancy detected");
        }
        if self.is_paused() {
            return Some("contract is paused");
        }
        if let Some(message) = self.check_accrue(to) {
            return Some(message);
        }
        let global_idx: i128 = self.get_global_reward_index();
        let user_idx: i128 = read_amount(&self.user_reward_indexes, to);
        let staked: i128 = read_amount(&self.staked_balances, to);
        proof {
            lemma_accrued(self@, *to);
        }
        let accrued: i128 = if global_idx > user_idx && staked > 0 {
            proof {
                assert(staked * (global_idx - user_idx) > 0) by (nonlinear_arith)
                    requires
                        staked > 0,
                        global_idx > user_idx,
                ;
            }
            (staked * (global_idx - user_idx)) / REWARD_INDEX_SCALE
        } else {
            0
        };
        if read_amount(&self.claimable_rewards, to) + accrued > 0 && self.token.is_none() {
            return Some("token not set");
        }
        None
    }

    /// First part of `claim`: with something to pay, the payment is booked, the
    /// lock is held, and the tokens are sent; with nothing, the call is over.
    pub fn begin_claim(&mut self, env: &mut Env, to: &Address) -> (amount: i128)
        requires
            old(self)@.claim_abort(*to) is None,
        ensures
            amount == old(self)@.payout(*to),
            amount == 0 ==> final(self)@ == old(self)@.accrued(*to).with_lock(false) && final(env).after(*old(env), seq![Action::RequireAuth(*to)]),
            amount > 0 ==> final(self)@ == old(self)@.accrued(*to).with_claimed(*to).with_lock(
                true,
            ) && final(env).after(
                *old(env),
                seq![
                    Action::RequireAuth(*to),
                    Action::Transfer {
                        token: old(self).token->0,
                        from: old(env).this,
                        to: *to,
                        amount,
                    },
                ],
            ),
    {
        let _ = reentrancy_guard::enter(&mut self.reentrancy, ContractError::ReentrancyDetected);
        env.require_auth(to);
        proof {
            lemma_accrued(old(self)@, *to);
            lemma_accrued(old(self)@.with_lock(true), *to);
        }
        self.accrue_user_rewards(to);

        let amount: i128 = read_amount(&self.claimable_rewards, to);
        if amount <= 0 {
            reentrancy_guard::exit(&mut self.reentrancy);
            return 0;
        }
        self.claimable_rewards.set(*to, 0);
        let token = self.token.unwrap();
        let this = env.this;
        env.transfer(&token, &this, to, amount);
        amount
    }

    /// Last part of `claim`: the lock is released.
    pub fn finish_claim(&mut self, env: &mut Env, to: &Address, amount: i128)
        ensures
            final(self)@ == old(self)@.with_lock(false),
            final(env).after(
                *old(env),
                seq![Action::Publish(user_event("claim", *to, amount))],
            ),
    {
        reentrancy_guard::exit(&mut self.reentrancy);
        env.publish(
            Event {
                topics: Topics::Three(
                    Value::Symbol("mvp_staking_pool"),
                    Value::Symbol("claim"),
                    Value::Address(*to),
                ),
                data: Data::One(Value::I128(amount)),
            },
        );
    }

    /// Pay `to` everything that can be claimed, and tell how much it was.
    pub fn claim(&mut self, env: &mut Env, to: &Address) -> (amount: i128)
        requires
            old(self)@.claim_abort(*to) is None,
        ensures
            amount == old(self)@.payout(*to),
            amount == 0 ==> final(self)@ == old(self)@.accrued(*to).with_lock(false) && final(env).after(*old(env), seq![Action::RequireAuth(*to)]),
            amount > 0 ==> final(self)@ == old(self)@.accrued(*to).with_claimed(*to).with_lock(
                false,
            ) && final(env).after(
                *old(env),
                seq![
                    Action::RequireAuth(*to),
                    Action::Transfer {
                        token: old(self).token->0,
                        from: old(env).this,
                        to: *to,
                        amount,
                    },
                    Action::Publish(user_event("claim", *to, amount)),
                ],
            ),
    {
        let amount: i128 = self.begin_claim(env, to);
        if amount > 0 {
            self.finish_claim(env, to, amount);
        }
        amount
    }
}

/// What crediting does to the user credited.
proof fn lemma_accrued(pool: PoolView, user: Address)
    requires
        pool.accrue_abort(user) is None,
    ensures
        pool.accrual(user) >= 0,
        pool.accrued(user).claimable(user) == pool.claimable(user) + pool.accrual(user),
{
    let product = pool.staked(user) * pool.rise(user);
    if pool.staked(user) > 0 {
        assert(product >= 0) by (nonlinear_arith)
            requires
                pool.staked(user) > 0,
                pool.rise(user) >= 0,
                product == pool.staked(user) * pool.rise(user),
        ;
        if pool.rise(user) == 0 {
            assert(product == 0) by (nonlinear_arith)
                requires
                    pool.rise(user) == 0,
                    product == pool.staked(user) * pool.rise(user),
            ;
        }
    }
}

/// How an error of upgrade governance is reported by this contract.
pub open spec fn governance_error(e: UpgradeGovernanceError) -> ContractError {
    match e {
        UpgradeGovernanceError::UpgradeAlreadyPending => ContractError::UpgradeAlreadyPending,
        UpgradeGovernanceError::NoPendingUpgrade => ContractError::NoUpgradePending,
        UpgradeGovernanceError::UpgradeDelayNotElapsed => ContractError::UpgradeDelayNotMet,
        _ => ContractError::NotAuthorized,
    }
}

/// An answer of upgrade governance as this contract reports it.
pub open spec fn reported(r: Result<(), UpgradeGovernanceError>) -> Result<(), ContractError> {
    match r {
        Ok(()) => Ok(()),
        Err(e) => Err(governance_error(e)),
    }
}

fn report(r: Result<(), UpgradeGovernanceError>) -> (out: Result<(), ContractError>)
    ensures
        out == reported(r),
{
    match r {
        Ok(()) => Ok(()),
        Err(e) => match e {
            UpgradeGovernanceError::UpgradeAlreadyPending => Err(
                ContractError::UpgradeAlreadyPending,
            ),
            UpgradeGovernanceError::NoPendingUpgrade => Err(ContractError::NoUpgradePending),
            UpgradeGovernanceError::UpgradeDelayNotElapsed => Err(
                ContractError::UpgradeDelayNotMet,
            ),
            _ => Err(ContractError::NotAuthorized),
        },
    }
}

impl PoolView {
    pub open spec fn with_governance(self, governance: UpgradeGovernance) -> PoolView {
        PoolView { governance, ..self }
    }

    /// Abort of an entry point of upgrade governance, which itself aborts with
    /// `abort`: while paused, nothing is passed on to it.
    pub open spec fn governed_abort(self, abort: Option<&'static str>) -> Option<&'static str> {
        if self.pause_abort() is Some {
            self.pause_abort()
        } else {
            abort
        }
    }

    /// What `cancel_upgrade` answers.
    pub open spec fn cancel_outcome(self, admin: Address) -> Result<(), ContractError> {
        if self.governance.admin != Some(admin) {
            Err(ContractError::NotAuthorized)
        } else if self.governance.pending_upgrade_hash is None {
            Err(ContractError::NoUpgradePending)
        } else {
            Ok(())
        }
    }

    /// What `pause` and `unpause` answer.
    pub open spec fn pause_outcome(self, admin: Address) -> Result<(), PausableError> {
        if self.governance.admin == Some(admin) {
            Ok(())
        } else {
            Err(PausableError::NotAuthorized)
        }
    }
}

pub open spec fn pausable_event(name: &'static str) -> Event {
    Event {
        topics: Topics::Two(Value::Symbol("Pausable"), Value::Symbol(name)),
        data: Data::Unit,
    }
}

impl StakingPool {
    /// Find out whether `pause` or `unpause` would abort.
    pub fn check_admin(&self) -> (abort: Option<&'static str>)
        ensures
            abort == self@.admin_abort(),
    {
        if self.governance.admin.is_some() {
            None
        } else {
            Some("admin not set")
        }
    }

    /// Find out whether `set_guardian` or `set_upgrade_delay` would abort.
    pub fn check_setting(&self) -> (abort: Option<&'static str>)
        ensures
            abort == self@.governed_abort(upgrade_governance::admin_abort(self.governance)),
    {
        if self.is_paused() {
            return Some("contract is paused");
        }
        upgrade_governance::check_admin(&self.governance)
    }

    /// Set the guardian of emergency upgrades.
    pub fn set_guardian(&mut self, env: &mut Env, admin: &Address, guardian: &Address) -> (r:
        Result<(), ContractError>)
        requires
            old(self)@.governed_abort(
                upgrade_governance::admin_abort(old(self).governance),
            ) is None,
        ensures
            r == reported(upgrade_governance::setting_outcome(old(self).governance, *admin)),
            final(self)@ == old(self)@.with_governance(
                upgrade_governance::guardian_next(
                    old(self).governance,
                    *admin,
                    Some(*guardian),
                ),
            ),
            final(env).after(
                *old(env),
                upgrade_governance::setting_actions(
                    old(self).governance,
                    *admin,
                    upgrade_governance::guardian_event("mvp_staking_pool", Some(*guardian)),
                ),
            ),
    {
        let r = upgrade_governance::set_guardian(
            env,
            &mut self.governance,
            admin,
            Some(*guardian),
            "mvp_staking_pool",
        );
        report(r)
    }

    /// Set the delay of ordinary upgrades.
    pub fn set_upgrade_delay(&mut self, env: &mut Env, admin: &Address, delay: u64) -> (r: Result<
        (),
        ContractError,
    >)
        requires
            old(self)@.governed_abort(
                upgrade_governance::admin_abort(old(self).governance),
            ) is None,
        ensures
            r == reported(upgrade_governance::setting_outcome(old(self).governance, *admin)),
            final(self)@ == old(self)@.with_governance(
                upgrade_governance::delay_next(old(self).governance, *admin, delay),
            ),
            final(env).after(
                *old(env),
                upgrade_governance::setting_actions(
                    old(self).governance,
                    *admin,
                    upgrade_governance::delay_event("mvp_staking_pool", delay),
                ),
            ),
    {
        let r = upgrade_governance::set_upgrade_delay(
            env,
            &mut self.governance,
            admin,
            delay,
            "mvp_staking_pool",
        );
        report(r)
    }

    /// Find out whether `propose_upgrade` would abort.
    pub fn check_propose_upgrade(&self, admin: &Address) -> (abort: Option<&'static str>)
        ensures
            abort == self@.governed_abort(
                upgrade_governance::propose_upgrade_abort(self.governance, *admin),
            ),
    {
        if self.is_paused() {
            return Some("contract is paused");
        }
        upgrade_governance::check_propose_upgrade(&self.governance, admin)
    }

    /// Propose an upgrade. The pool numbers no versions and proposes version
    /// zero, which never follows the current one: the admin is answered
    /// `NotAuthorized`, or that a proposal is already stored.
    pub fn propose_upgrade(&mut self, env: &mut Env, admin: &Address, new_wasm_hash: &Bytes32) -> (r:
        Result<(), ContractError>)
        requires
            old(self)@.governed_abort(
                upgrade_governance::propose_upgrade_abort(old(self).governance, *admin),
            ) is None,
        ensures
            r == reported(
                upgrade_governance::propose_outcome(old(self).governance, *admin, 0, None),
            ),
            r is Err,
            final(self)@ == old(self)@,
            final(env).after(
                *old(env),
                upgrade_governance::refused_actions(old(self).governance, *admin),
            ),
    {
        let r = upgrade_governance::propose_upgrade(
            env,
            &mut self.governance,
            admin,
            new_wasm_hash,
            0,
            None,
            "mvp_staking_pool",
        );
        report(r)
    }

    /// Find out whether `execute_upgrade` would abort.
    pub fn check_execute_upgrade(&self, admin: &Address, new_wasm_hash: &Bytes32) -> (abort: Option<&'static str>)
        ensures
            abort == self@.governed_abort(
                upgrade_governance::execute_upgrade_abort(
                    self.governance,
                    *admin,
                    *new_wasm_hash,
                ),
            ),
    {
        if self.is_paused() {
            return Some("contract is paused");
        }
        upgrade_governance::check_execute_upgrade(&self.governance, admin, new_wasm_hash)
    }

    /// Execute a proposed upgrade once its delay has elapsed.
    pub fn execute_upgrade(&mut self, env: &mut Env, admin: &Address, new_wasm_hash: &Bytes32) -> (r:
        Result<(), ContractError>)
        requires
            old(self)@.governed_abort(
                upgrade_governance::execute_upgrade_abort(
                    old(self).governance,
                    *admin,
                    *new_wasm_hash,
                ),
            ) is None,
        ensures
            r == reported(
                upgrade_governance::execute_outcome(
                    old(self).governance,
                    *admin,
                    *new_wasm_hash,
                    old(env).now,
                ),
            ),
            final(self)@ == old(self)@.with_governance(
                upgrade_governance::execute_next(
                    old(self).governance,
                    *admin,
                    *new_wasm_hash,
                    old(env).now,
                ),
            ),
            final(env).after(
                *old(env),
                upgrade_governance::execute_actions(
                    old(self).governance,
                    *admin,
                    *new_wasm_hash,
                    old(env).now,
                    "mvp_staking_pool",
                ),
            ),
    {
        let r = upgrade_governance::execute_upgrade(
            env,
            &mut self.governance,
            admin,
            new_wasm_hash,
            "mvp_staking_pool",
        );
        report(r)
    }

    /// Find out whether `emergency_upgrade` would abort.
    pub fn check_emergency_upgrade(&self, admin: &Address) -> (abort: Option<&'static str>)
        ensures
            abort == self@.governed_abort(
                upgrade_governance::emergency_upgrade_abort(self.governance, *admin),
            ),
    {
        if self.is_paused() {
            return Some("contract is paused");
        }
        upgrade_governance::check_emergency_upgrade(&self.governance, admin)
    }

    /// Upgrade at once, with a mandatory guardian. As with `propose_upgrade`,
    /// version zero is asked for, which is always refused.
    pub fn emergency_upgrade(&mut self, env: &mut Env, admin: &Address, new_wasm_hash: &Bytes32) -> (r:
        Result<(), ContractError>)
        requires
            old(self)@.governed_abort(
                upgrade_governance::emergency_upgrade_abort(old(self).governance, *admin),
            ) is None,
        ensures
            r == Err::<(), _>(ContractError::NotAuthorized),
            final(self)@ == old(self)@,
            final(env).after(
                *old(env),
                upgrade_governance::refused_actions(old(self).governance, *admin),
            ),
    {
        let r = upgrade_governance::emergency_upgrade(
            env,
            &mut self.governance,
            admin,
            new_wasm_hash,
            0,
            None,
            "mvp_staking_pool",
            true,
        );
        report(r)
    }

    /// Find out whether `cancel_upgrade` would abort.
    pub fn check_cancel_upgrade(&self) -> (abort: Option<&'static str>)
        ensures
            abort == self@.governed_abort(self@.admin_abort()),
    {
        if self.is_paused() {
            return Some("contract is paused");
        }
        self.check_admin()
    }

    /// Take back a proposal. Its version stays stored, without effect.
    pub fn cancel_upgrade(&mut self, env: &mut Env, admin: &Address) -> (r: Result<
        (),
        ContractError,
    >)
        requires
            old(self)@.governed_abort(old(self)@.admin_abort()) is None,
        ensures
            r == old(self)@.cancel_outcome(*admin),
            r is Ok ==> final(self)@ == old(self)@.with_governance(
                UpgradeGovernance {
                    pending_upgrade_hash: None,
                    pending_upgrade_at: None,
                    ..old(self).governance
                },
            ) && final(env).after(
                *old(env),
                seq![
                    Action::RequireAuth(*admin),
                    Action::Publish(
                        pool_event("cancel_upgrade", Data::One(Value::Address(*admin))),
                    ),
                ],
            ),
            r is Err ==> final(self)@ == old(self)@ && final(env).after(
                *old(env),
                seq![Action::RequireAuth(*admin)],
            ),
    {
        let current_admin = self.governance.admin.unwrap();
        match require_admin_permission(env, &current_admin, admin, ContractError::NotAuthorized) {
            Err(e) => {
                return Err(e);
            },
            Ok(()) => {},
        }
        if !self.governance.has(UpgradeGovernanceKey::PendingUpgradeHash) {
            return Err(ContractError::NoUpgradePending);
        }
        self.governance.pending_upgrade_hash = None;
        self.governance.pending_upgrade_at = None;
        env.publish(
            Event {
                topics: Topics::Two(
                    Value::Symbol("mvp_staking_pool"),
                    Value::Symbol("cancel_upgrade"),
                ),
                data: Data::One(Value::Address(*admin)),
            },
        );
        Ok(())
    }

    /// Pause the pool: every movement of stake and reward, and every change of
    /// upgrade governance, aborts.
    pub fn pause(&mut self, env: &mut Env, admin: &Address) -> (r: Result<(), PausableError>)
        requires
            old(self)@.admin_abort() is None,
        ensures
            r == old(self)@.pause_outcome(*admin),
            r is Ok ==> final(self)@ == (PoolView { paused: Some(true), ..old(self)@ }) && final(env).after(
                *old(env),
                seq![Action::RequireAuth(*admin), Action::Publish(pausable_event("pause"))],
            ),
            r is Err ==> final(self)@ == old(self)@ && final(env).after(
                *old(env),
                seq![Action::RequireAuth(*admin)],
            ),
    {
        let current_admin = self.governance.admin.unwrap();
        match require_admin_permission(env, &current_admin, admin, PausableError::NotAuthorized) {
            Err(e) => {
                return Err(e);
            },
            Ok(()) => {},
        }
        self.paused = Some(true);
        env.publish(
            Event {
                topics: Topics::Two(Value::Symbol("Pausable"), Value::Symbol("pause")),
                data: Data::Unit,
            },
        );
        Ok(())
    }

    /// Let changes go on.
    pub fn unpause(&mut self, env: &mut Env, admin: &Address) -> (r: Result<(), PausableError>)
        requires
            old(self)@.admin_abort() is None,
        ensures
            r == old(self)@.pause_outcome(*admin),
            r is Ok ==> final(self)@ == (PoolView { paused: Some(false), ..old(self)@ }) && final(env).after(
                *old(env),
                seq![Action::RequireAuth(*admin), Action::Publish(pausable_event("unpause"))],
            ),
            r is Err ==> final(self)@ == old(self)@ && final(env).after(
                *old(env),
                seq![Action::RequireAuth(*admin)],
            ),
    {
        let current_admin = self.governance.admin.unwrap();
        match require_admin_permission(env, &current_admin, admin, PausableError::NotAuthorized) {
            Err(e) => {
                return Err(e);
            },
            Ok(()) => {},
        }
        self.paused = Some(false);
        env.publish(
            Event {
                topics: Topics::Two(Value::Symbol("Pausable"), Value::Symbol("unpause")),
                data: Data::Unit,
            },
        );
        Ok(())
    }
}

} // verus!
