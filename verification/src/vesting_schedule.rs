//! Linear vesting with a cliff.
//!
//! From the cliff on, the vested amount is the elapsed share of the total; before
//! it, nothing. At the cliff itself, where the amount jumps, it is the midpoint of
//! the jump.

use vstd::prelude::*;

use crate::access_control::require_admin_auth;
use crate::arith;
use crate::host::{Action, Env};
use crate::table::Table;
use crate::value::Address;

verus! {

#[derive(Clone, Copy, Debug, PartialEq, Eq, Structural)]
pub enum ContractError {
    AlreadyInitialized,
    NotAuthorized,
    Paused,
    InvalidAmount,
    InsufficientBalance,
    /// Vesting schedule does not exist
    ScheduleNotFound,
    /// Vesting schedule already exists for beneficiary
    ScheduleAlreadyExists,
    /// Invalid time parameters (end_time <= start_time)
    InvalidTimeParameters,
    /// Cliff time must be between start and end time
    InvalidCliffTime,
    /// Cannot claim before cliff time
    CliffNotReached,
    /// Schedule is not revocable
    NotRevocable,
    /// Schedule already revoked
    AlreadyRevoked,
    /// Token not set
    TokenNotSet,
}

impl ContractError {
    pub open spec fn code_of(self) -> u32 {
        match self {
            Self::AlreadyInitialized => 1,
            Self::NotAuthorized => 2,
            Self::Paused => 3,
            Self::InvalidAmount => 4,
            Self::InsufficientBalance => 5,
            Self::ScheduleNotFound => 6,
            Self::ScheduleAlreadyExists => 7,
            Self::InvalidTimeParameters => 8,
            Self::InvalidCliffTime => 9,
            Self::CliffNotReached => 10,
            Self::NotRevocable => 11,
            Self::AlreadyRevoked => 12,
            Self::TokenNotSet => 13,
        }
    }

    /// The number under which callers see the error.
    pub fn code(self) -> (c: u32)
        ensures
            c == self.code_of(),
    {
        match self {
            Self::AlreadyInitialized => 1,
            Self::NotAuthorized => 2,
            Self::Paused => 3,
            Self::InvalidAmount => 4,
            Self::InsufficientBalance => 5,
            Self::ScheduleNotFound => 6,
            Self::ScheduleAlreadyExists => 7,
            Self::InvalidTimeParameters => 8,
            Self::InvalidCliffTime => 9,
            Self::CliffNotReached => 10,
            Self::NotRevocable => 11,
            Self::AlreadyRevoked => 12,
            Self::TokenNotSet => 13,
        }
    }
}

#[derive(Clone, Copy, Debug)]
pub struct VestingSchedule {
    pub beneficiary: Address,
    /// Total amount to vest
    pub total_amount: i128,
    /// Amount already claimed
    pub claimed_amount: i128,
    /// Start timestamp (in seconds)
    pub start_time: u64,
    /// End timestamp (in seconds)
    pub end_time: u64,
    /// Before this, no tokens can be claimed
    pub cliff_time: u64,
    /// Whether the schedule is revocable
    pub revocable: bool,
    /// Whether the schedule has been revoked
    pub revoked: bool,
}

impl VestingSchedule {
    /// The elapsed share of the total at time `now`, rounded toward zero, and no
    /// more than the total.
    pub open spec fn line(self, now: u64) -> int {
        let share = arith::quotient(
            (now - self.start_time) * self.total_amount,
            self.end_time - self.start_time,
        );
        if share < self.total_amount {
            share
        } else {
            self.total_amount as int
        }
    }

    /// What has vested at time `now`: nothing before the cliff, everything from
    /// the end on, and in between the elapsed share; at the cliff itself half of
    /// it, the midpoint of the jump, rounded toward zero.
    pub open spec fn vested(self, now: u64) -> int {
        if now < self.cliff_time {
            0
        } else if now >= self.end_time {
            self.total_amount as int
        } else if self.end_time <= self.start_time {
            0
        } else if now == self.cliff_time {
            arith::quotient(self.line(now), 2)
        } else {
            self.line(now)
        }
    }

    /// Message with which working out the vested amount aborts, if it does.
    pub open spec fn vested_abort(self, now: u64) -> Option<&'static str> {
        if now < self.cliff_time || now >= self.end_time || self.end_time <= self.start_time {
            None
        } else if now < self.start_time {
            Some("attempt to subtract with overflow")
        } else if !arith::is_i128((now - self.start_time) * self.total_amount) {
            Some("attempt to multiply with overflow")
        } else {
            None
        }
    }

    /// What can be claimed at time `now`.
    pub open spec fn claimable(self, now: u64) -> i128 {
        arith::clamp_i128(self.vested(now) - self.claimed_amount)
    }

    /// The schedule is one that `create_vesting_schedule` lets in, with a
    /// claimed part of what has to vest.
    pub open spec fn valid(self) -> bool {
        &&& 0 < self.total_amount
        &&& 0 <= self.claimed_amount <= self.total_amount
        &&& self.start_time < self.end_time
        &&& self.start_time <= self.cliff_time <= self.end_time
    }

    /// A schedule on which nothing has happened yet.
    pub open spec fn fresh(
        beneficiary: Address,
        total_amount: i128,
        start_time: u64,
        end_time: u64,
        cliff_time: u64,
        revocable: bool,
    ) -> VestingSchedule {
        VestingSchedule {
            beneficiary,
            total_amount,
            claimed_amount: 0,
            start_time,
            end_time,
            cliff_time,
            revocable,
            revoked: false,
        }
    }

    /// The schedule after a claim at time `now`.
    pub open spec fn with_claim(self, now: u64) -> VestingSchedule {
        VestingSchedule {
            claimed_amount: (self.claimed_amount + self.claimable(now)) as i128,
            ..self
        }
    }
}

/// Find out whether `calculate_vested_amount` would abort.
pub fn check_vested_amount(schedule: &VestingSchedule, current_time: u64) -> (abort: Option<
    &'static str,
>)
    ensures
        abort == schedule.vested_abort(current_time),
{
    if current_time < schedule.cliff_time || current_time >= schedule.end_time
        || schedule.end_time <= schedule.start_time {
        return None;
    }
    if current_time < schedule.start_time {
        return Some("attempt to subtract with overflow");
    }
    let elapsed: i128 = (current_time - schedule.start_time) as i128;
    if elapsed.checked_mul(schedule.total_amount).is_none() {
        return Some("attempt to multiply with overflow");
    }
    None
}

/// What has vested at a given time.
pub fn calculate_vested_amount(schedule: &VestingSchedule, current_time: u64) -> (vested: i128)
    requires
        schedule.vested_abort(current_time) is None,
    ensures
        vested == schedule.vested(current_time),
{
    if current_time < schedule.cliff_time {
        return 0;
    }
    if current_time >= schedule.end_time {
        return schedule.total_amount;
    }
    if schedule.end_time <= schedule.start_time {
        return 0;
    }
    let elapsed: u64 = current_time - schedule.start_time;
    let total_duration: u64 = schedule.end_time - schedule.start_time;
    let product: i128 = (elapsed as i128) * schedule.total_amount;
    let share: i128 = product / (total_duration as i128);
    let vested: i128 = if share < schedule.total_amount {
        share
    } else {
        schedule.total_amount
    };
    if current_time == schedule.cliff_time {
        vested / 2
    } else {
        vested
    }
}

/// What can be claimed at a given time: vested and not claimed yet.
pub fn calculate_claimable_amount(schedule: &VestingSchedule, current_time: u64) -> (claimable:
    i128)
    requires
        schedule.vested_abort(current_time) is None,
    ensures
        claimable == schedule.claimable(current_time),
{
    let vested: i128 = calculate_vested_amount(schedule, current_time);
    arith::saturating_sub(vested, schedule.claimed_amount)
}

/// What the contract keeps in storage.
pub struct VestingScheduleContract {
    pub contract_version: Option<u32>,
    pub admin: Option<Address>,
    pub paused: Option<bool>,
    pub token: Option<Address>,
    pub schedules: Table<Address, VestingSchedule>,
}

/// The storage with its table as a map.
#[verifier::ext_equal]
pub struct VestingView {
    pub contract_version: Option<u32>,
    pub admin: Option<Address>,
    pub paused: Option<bool>,
    pub token: Option<Address>,
    pub schedules: Map<Address, VestingSchedule>,
}

impl View for VestingScheduleContract {
    type V = VestingView;

    open spec fn view(&self) -> VestingView {
        VestingView {
            contract_version: self.contract_version,
            admin: self.admin,
            paused: self.paused,
            token: self.token,
            schedules: self.schedules@,
        }
    }
}

impl VestingView {
    pub open spec fn initialize_abort(self) -> Option<&'static str> {
        if self.admin is Some {
            Some("already initialized")
        } else {
            None
        }
    }

    pub open spec fn is_paused(self) -> bool {
        self.paused.unwrap_or(false)
    }

    pub open spec fn pause_abort(self) -> Option<&'static str> {
        if self.is_paused() {
            Some("contract is paused")
        } else {
            None
        }
    }

    pub open spec fn admin_abort(self) -> Option<&'static str> {
        if self.admin is None {
            Some("admin not set")
        } else {
            None
        }
    }

    /// Abort on entry to what only the admin may change, and not while paused.
    pub open spec fn entry_abort(self) -> Option<&'static str> {
        if self.pause_abort() is Some {
            self.pause_abort()
        } else {
            self.admin_abort()
        }
    }

    pub open spec fn create_abort(
        self,
        beneficiary: Address,
        total_amount: i128,
        start_time: u64,
        end_time: u64,
        cliff_time: u64,
    ) -> Option<&'static str> {
        if self.entry_abort() is Some {
            self.entry_abort()
        } else if total_amount <= 0 {
            Some("invalid amount")
        } else if end_time <= start_time {
            Some("invalid time parameters")
        } else if cliff_time < start_time || cliff_time > end_time {
            Some("invalid cliff time")
        } else if self.schedules.dom().contains(beneficiary) {
            Some("schedule already exists")
        } else {
            None
        }
    }

    pub open spec fn found_abort(self, beneficiary: Address) -> Option<&'static str> {
        if self.schedules.dom().contains(beneficiary) {
            None
        } else {
            Some("vesting schedule not found")
        }
    }

    pub open spec fn claim_abort(self, beneficiary: Address, now: u64) -> Option<&'static str> {
        let schedule = self.schedules[beneficiary];
        if self.pause_abort() is Some {
            self.pause_abort()
        } else if self.found_abort(beneficiary) is Some {
            self.found_abort(beneficiary)
        } else if schedule.revoked {
            Some("schedule revoked")
        } else if schedule.vested_abort(now) is Some {
            schedule.vested_abort(now)
        } else if schedule.claimable(now) <= 0 {
            Some("nothing to claim")
        } else if self.token is None {
            Some("token not set")
        } else {
            None
        }
    }

    pub open spec fn revoke_abort(self, beneficiary: Address) -> Option<&'static str> {
        if self.entry_abort() is Some {
            self.entry_abort()
        } else if self.found_abort(beneficiary) is Some {
            self.found_abort(beneficiary)
        } else if !self.schedules[beneficiary].revocable {
            Some("not revocable")
        } else if self.schedules[beneficiary].revoked {
            Some("already revoked")
        } else {
            None
        }
    }

    pub open spec fn claimable_abort(self, beneficiary: Address, now: u64) -> Option<
        &'static str,
    > {
        if self.found_abort(beneficiary) is Some {
            self.found_abort(beneficiary)
        } else if self.schedules[beneficiary].revoked {
            None
        } else {
            self.schedules[beneficiary].vested_abort(now)
        }
    }

    /// What `beneficiary` can claim at time `now`; nothing once revoked.
    pub open spec fn claimable(self, beneficiary: Address, now: u64) -> i128 {
        if self.schedules[beneficiary].revoked {
            0
        } else {
            self.schedules[beneficiary].claimable(now)
        }
    }

    pub open spec fn with_schedule(
        self,
        beneficiary: Address,
        schedule: VestingSchedule,
    ) -> VestingView {
        VestingView { schedules: self.schedules.insert(beneficiary, schedule), ..self }
    }
}

impl VestingScheduleContract {
    /// Storage before `initialize`.
    pub fn new() -> (c: VestingScheduleContract)
        ensures
            c@ == (VestingView {
                contract_version: None,
                admin: None,
                paused: None,
                token: None,
                schedules: Map::empty(),
            }),
    {
        VestingScheduleContract {
            contract_version: None,
            admin: None,
            paused: None,
            token: None,
            schedules: Table::new(),
        }
    }

    /// Find out whether `initialize` would abort.
    pub fn check_initialize(&self) -> (abort: Option<&'static str>)
        ensures
            abort == self@.initialize_abort(),
    {
        if self.admin.is_some() {
            Some("already initialized")
        } else {
            None
        }
    }

    /// Set the admin and the token, once.
    pub fn initialize(&mut self, env: &mut Env, admin: &Address, token: &Address)
        requires
            old(self)@.initialize_abort() is None,
        ensures
            final(self)@ == (VestingView {
                admin: Some(*admin),
                token: Some(*token),
                contract_version: Some(1),
                ..old(self)@
            }),
            final(env).after(*old(env), seq![Action::RequireAuth(*admin)]),
    {
        env.require_auth(admin);
        self.admin = Some(*admin);
        self.token = Some(*token);
        self.contract_version = Some(1);
    }

    fn is_paused(&self) -> (b: bool)
        ensures
            b == self@.is_paused(),
    {
        self.paused.unwrap_or(false)
    }

    /// Find out whether `pause` or `unpause` would abort.
    pub fn check_admin(&self) -> (abort: Option<&'static str>)
        ensures
            abort == self@.admin_abort(),
    {
        if self.admin.is_none() {
            Some("admin not set")
        } else {
            None
        }
    }

    /// Find out whether `set_admin` would abort.
    pub fn check_set_admin(&self) -> (abort: Option<&'static str>)
        ensures
            abort == self@.entry_abort(),
    {
        if self.is_paused() {
            return Some("contract is paused");
        }
        self.check_admin()
    }

    /// Gate of what only the admin may do. The entry points take no caller, so
    /// that the stored admin has to have authorised the call.
    fn require_admin(&self, env: &mut Env)
        requires
            self.admin is Some,
        ensures
            final(env).after(*old(env), seq![Action::RequireAuth(self.admin->0)]),
    {
        let admin = self.admin.unwrap();
        require_admin_auth(env, &admin);
    }

    /// Find out whether `create_vesting_schedule` would abort.
    pub fn check_create_vesting_schedule(
        &self,
        beneficiary: &Address,
        total_amount: i128,
        start_time: u64,
        end_time: u64,
        cliff_time: u64,
    ) -> (abort: Option<&'static str>)
        ensures
            abort == self@.create_abort(
                *beneficiary,
                total_amount,
                start_time,
                end_time,
                cliff_time,
            ),
    {
        if let Some(message) = self.check_set_admin() {
            return Some(message);
        }
        if total_amount <= 0 {
            return Some("invalid amount");
        }
        if end_time <= start_time {
            return Some("invalid time parameters");
        }
        if cliff_time < start_time || cliff_time > end_time {
            return Some("invalid cliff time");
        }
        if self.schedules.has(beneficiary) {
            return Some("schedule already exists");
        }
        None
    }

    /// Create the schedule of a beneficiary who has none yet.
    pub fn create_vesting_schedule(
        &mut self,
        env: &mut Env,
        beneficiary: &Address,
        total_amount: i128,
        start_time: u64,
        end_time: u64,
        cliff_time: u64,
        revocable: bool,
    )
        requires
            old(self)@.create_abort(
                *beneficiary,
                total_amount,
                start_time,
                end_time,
                cliff_time,
            ) is None,
        ensures
            final(self)@ == old(self)@.with_schedule(
                *beneficiary,
                VestingSchedule {
                    beneficiary: *beneficiary,
                    total_amount,
                    claimed_amount: 0,
                    start_time,
                    end_time,
                    cliff_time,
                    revocable,
                    revoked: false,
                },
            ),
            final(self)@.schedules[*beneficiary] == VestingSchedule::fresh(
                *beneficiary,
                total_amount,
                start_time,
                end_time,
                cliff_time,
                revocable,
            ),
            final(env).after(*old(env), seq![Action::RequireAuth(old(self).admin->0)]),
    {
        self.require_admin(env);
        let schedule = VestingSchedule {
            beneficiary: *beneficiary,
            total_amount,
            claimed_amount: 0,
            start_time,
            end_time,
            cliff_time,
            revocable,
            revoked: false,
        };
        self.schedules.set(*beneficiary, schedule);
    }

    /// Find out whether `claim` would abort.
    pub fn check_claim(&self, env: &Env, beneficiary: &Address) -> (abort: Option<&'static str>)
        ensures
            abort == self@.claim_abort(*beneficiary, env.now),
    {
        if self.is_paused() {
            return Some("contract is paused");
        }
        let schedule: VestingSchedule = match self.schedules.get(beneficiary) {
            Some(schedule) => *schedule,
            None => {
                return Some("vesting schedule not found");
            },
        };
        if schedule.revoked {
            return Some("schedule revoked");
        }
        if let Some(message) = check_vested_amount(&schedule, env.timestamp()) {
            return Some(message);
        }
        if calculate_claimable_amount(&schedule, env.timestamp()) <= 0 {
            return Some("nothing to claim");
        }
        if self.token.is_none() {
            return Some("token not set");
        }
        None
    }

    /// Claim what has vested. The claim is booked; no tokens move here.
    pub fn claim(&mut self, env: &mut Env, beneficiary: &Address)
        requires
            old(self)@.claim_abort(*beneficiary, old(env).now) is None,
        ensures
            final(self)@ == old(self)@.with_schedule(
                *beneficiary,
                old(self)@.schedules[*beneficiary].with_claim(old(env).now),
            ),
            final(env).after(*old(env), seq![Action::RequireAuth(*beneficiary)]),
    {
        env.require_auth(beneficiary);
        let mut schedule: VestingSchedule = *self.schedules.get(beneficiary).unwrap();
        let current_time: u64 = env.timestamp();
        let claimable: i128 = calculate_claimable_amount(&schedule, current_time);
        schedule.claimed_amount = schedule.claimed_amount + claimable;
        self.schedules.set(*beneficiary, schedule);
    }

    /// Find out whether `revoke` would abort.
    pub fn check_revoke(&self, beneficiary: &Address) -> (abort: Option<&'static str>)
        ensures
            abort == self@.revoke_abort(*beneficiary),
    {
        if let Some(message) = self.check_set_admin() {
            return Some(message);
        }
        match self.schedules.get(beneficiary) {
            None => Some("vesting schedule not found"),
            Some(schedule) => if !schedule.revocable {
                Some("not revocable")
            } else if schedule.revoked {
                Some("already revoked")
            } else {
                None
            },
        }
    }

    /// Revoke a revocable schedule.
    pub fn revoke(&mut self, env: &mut Env, beneficiary: &Address)
        requires
            old(self)@.revoke_abort(*beneficiary) is None,
        ensures
            final(self)@ == old(self)@.with_schedule(
                *beneficiary,
                VestingSchedule { revoked: true, ..old(self)@.schedules[*beneficiary] },
            ),
            final(env).after(*old(env), seq![Action::RequireAuth(old(self).admin->0)]),
    {
        self.require_admin(env);
        let mut schedule: VestingSchedule = *self.schedules.get(beneficiary).unwrap();
        schedule.revoked = true;
        self.schedules.set(*beneficiary, schedule);
    }

    /// Find out whether `get_vesting_schedule` would abort.
    pub fn check_get_vesting_schedule(&self, beneficiary: &Address) -> (abort: Option<
        &'static str,
    >)
        ensures
            abort == self@.found_abort(*beneficiary),
    {
        if self.schedules.has(beneficiary) {
            None
        } else {
            Some("vesting schedule not found")
        }
    }

    /// The schedule of a beneficiary.
    pub fn get_vesting_schedule(&self, beneficiary: &Address) -> (schedule: VestingSchedule)
        requires
            self@.found_abort(*beneficiary) is None,
        ensures
            schedule == self@.schedules[*beneficiary],
    {
        *self.schedules.get(beneficiary).unwrap()
    }

    /// Find out whether `get_claimable_amount` would abort.
    pub fn check_get_claimable_amount(&self, env: &Env, beneficiary: &Address) -> (abort: Option<
        &'static str,
    >)
        ensures
            abort == self@.claimable_abort(*beneficiary, env.now),
    {
        match self.schedules.get(beneficiary) {
            None => Some("vesting schedule not found"),
            Some(schedule) => if schedule.revoked {
                None
            } else {
                check_vested_amount(schedule, env.timestamp())
            },
        }
    }

    /// What a beneficiary can claim now; nothing once revoked.
    pub fn get_claimable_amount(&self, env: &Env, beneficiary: &Address) -> (claimable: i128)
        requires
            self@.claimable_abort(*beneficiary, env.now) is None,
        ensures
            claimable == self@.claimable(*beneficiary, env.now),
    {
        let schedule: VestingSchedule = *self.schedules.get(beneficiary).unwrap();
        if schedule.revoked {
            return 0;
        }
        calculate_claimable_amount(&schedule, env.timestamp())
    }

    /// Hand the contract to another admin.
    pub fn set_admin(&mut self, env: &mut Env, new_admin: &Address)
        requires
            old(self)@.entry_abort() is None,
        ensures
            final(self)@ == (VestingView { admin: Some(*new_admin), ..old(self)@ }),
            final(env).after(*old(env), seq![Action::RequireAuth(old(self).admin->0)]),
    {
        self.require_admin(env);
        self.admin = Some(*new_admin);
    }

    /// Pause the contract: no entry point but this one and `unpause` changes
    /// anything.
    pub fn pause(&mut self, env: &mut Env)
        requires
            old(self)@.admin_abort() is None,
        ensures
            final(self)@ == (VestingView { paused: Some(true), ..old(self)@ }),
            final(env).after(*old(env), seq![Action::RequireAuth(old(self).admin->0)]),
    {
        self.require_admin(env);
        self.paused = Some(true);
    }

    /// Let changes go on.
    pub fn unpause(&mut self, env: &mut Env)
        requires
            old(self)@.admin_abort() is None,
        ensures
            final(self)@ == (VestingView { paused: Some(false), ..old(self)@ }),
            final(env).after(*old(env), seq![Action::RequireAuth(old(self).admin->0)]),
    {
        self.require_admin(env);
        self.paused = Some(false);
    }
}

/// Shape of the curve: nothing vests before the cliff, everything has vested
/// from the end on, in between it is the elapsed share, at the cliff half of it,
/// and at every time the vested amount lies between zero and the total.
pub proof fn law_vesting_curve(schedule: VestingSchedule, now: u64)
    requires
        schedule.valid(),
    ensures
        now < schedule.cliff_time ==> schedule.vested(now) == 0,
        now >= schedule.end_time ==> schedule.vested(now) == schedule.total_amount,
        0 <= schedule.vested(now) <= schedule.total_amount,
        schedule.cliff_time <= now < schedule.end_time ==> schedule.line(now) == ((now
            - schedule.start_time) * schedule.total_amount) / (schedule.end_time
            - schedule.start_time),
        schedule.cliff_time < now < schedule.end_time ==> schedule.vested(now)
            == schedule.line(now),
        now == schedule.cliff_time && now < schedule.end_time ==> schedule.vested(now)
            == schedule.line(now) / 2,
{
    if schedule.cliff_time <= now < schedule.end_time {
        let elapsed = now - schedule.start_time;
        let duration = schedule.end_time - schedule.start_time;
        let total = schedule.total_amount as int;
        assert(0 <= elapsed * total && 0 <= (elapsed * total) / duration < total) by (
            nonlinear_arith)
            requires
                0 <= elapsed < duration,
                0 < total,
        ;
    }
}

/// Vesting never goes back.
pub proof fn law_vesting_is_monotone(schedule: VestingSchedule, earlier: u64, later: u64)
    requires
        schedule.valid(),
        earlier <= later,
    ensures
        schedule.vested(earlier) <= schedule.vested(later),
{
    law_vesting_curve(schedule, earlier);
    law_vesting_curve(schedule, later);
    if schedule.cliff_time <= earlier && later < schedule.end_time {
        let a = earlier - schedule.start_time;
        let b = later - schedule.start_time;
        let duration = schedule.end_time - schedule.start_time;
        let total = schedule.total_amount as int;
        assert(a * total <= b * total) by (nonlinear_arith)
            requires
                a <= b,
                0 < total,
        ;
        vstd::arithmetic::div_mod::lemma_div_is_ordered(a * total, b * total, duration);
    }
}

/// A claim takes exactly what has vested: afterwards the claimed amount is the
/// vested amount, whatever was claimed before, it stays within the total, and
/// nothing is left to claim at that time.
pub proof fn law_claim_takes_what_has_vested(schedule: VestingSchedule, now: u64)
    requires
        schedule.valid(),
        schedule.claimed_amount <= schedule.vested(now),
    ensures
        schedule.with_claim(now).claimed_amount == schedule.vested(now),
        schedule.with_claim(now).valid(),
        schedule.with_claim(now).claimable(now) == 0,
{
    law_vesting_curve(schedule, now);
}

/// What was claimed has always vested: a claim keeps the claimed amount at or
/// below what has vested at every later time.
pub proof fn law_claimed_never_exceeds_vested(schedule: VestingSchedule, now: u64, later: u64)
    requires
        schedule.valid(),
        schedule.claimed_amount <= schedule.vested(now),
        now <= later,
    ensures
        schedule.claimed_amount <= schedule.vested(later),
        schedule.with_claim(now).claimed_amount <= schedule.with_claim(now).vested(later),
{
    law_vesting_is_monotone(schedule, now, later);
    law_claim_takes_what_has_vested(schedule, now);
    law_vesting_is_monotone(schedule.with_claim(now), now, later);
}

/// A revoked schedule pays nothing any more, and cannot be revoked again.
pub proof fn law_revoked_pays_nothing(contract: VestingView, beneficiary: Address, now: u64)
    requires
        contract.revoke_abort(beneficiary) is None,
    ensures
        ({
            let after = contract.with_schedule(
                beneficiary,
                VestingSchedule { revoked: true, ..contract.schedules[beneficiary] },
            );
            &&& after.claimable(beneficiary, now) == 0
            &&& after.claim_abort(beneficiary, now) == Some("schedule revoked")
            &&& after.revoke_abort(beneficiary) == Some("already revoked")
        }),
{
}

/// While paused, no schedule is made, claimed on or revoked, and no admin is
/// set; once the pause is lifted, each goes through, or aborts, as before.
pub proof fn law_pause_stops_changes(
    contract: VestingView,
    beneficiary: Address,
    total_amount: i128,
    start: u64,
    end: u64,
    cliff: u64,
    now: u64,
)
    requires
        !contract.is_paused(),
    ensures
        ({
            let paused = VestingView { paused: Some(true), ..contract };
            let resumed = VestingView { paused: Some(false), ..paused };
            let message = Some("contract is paused");
            &&& paused.create_abort(beneficiary, total_amount, start, end, cliff) == message
            &&& paused.claim_abort(beneficiary, now) == message
            &&& paused.revoke_abort(beneficiary) == message
            &&& paused.entry_abort() == message
            &&& resumed.create_abort(beneficiary, total_amount, start, end, cliff)
                == contract.create_abort(beneficiary, total_amount, start, end, cliff)
            &&& resumed.claim_abort(beneficiary, now) == contract.claim_abort(beneficiary, now)
            &&& resumed.revoke_abort(beneficiary) == contract.revoke_abort(beneficiary)
            &&& resumed.entry_abort() == contract.entry_abort()
        }),
{
}

} // verus!
