//! Instalment schedules of rental deals: who pays what, when, and what was
//! waived.

use vstd::prelude::*;

use crate::host::{Action, Data, Env, Event, Topics, Value};
use crate::table::Table;
use crate::value::{Address, Bytes32};

verus! {

#[derive(Clone, Copy, Debug, PartialEq, Eq, Structural)]
pub enum InstalmentStatus {
    Pending,
    Paid,
    Overdue,
    Waived,
}

#[derive(Clone, Copy, Debug)]
pub struct ScheduledInstalment {
    pub instalment_number: u32,
    pub due_timestamp: u64,
    pub amount_due: i128,
    pub amount_paid: i128,
    pub status: InstalmentStatus,
    pub paid_at: Option<u64>,
    pub last_tx_id: Option<Bytes32>,
}

#[derive(Clone, Copy, Debug, PartialEq, Eq, Structural)]
pub enum WaiverReason {
    Hardship,
    DisputeResolved,
    AdminAdjustment,
    Promotional,
}

impl WaiverReason {
    pub open spec fn code_of(self) -> u32 {
        match self {
            Self::Hardship => 1,
            Self::DisputeResolved => 2,
            Self::AdminAdjustment => 3,
            Self::Promotional => 4,
        }
    }

    /// The number that stands for the reason in events.
    pub fn code(self) -> (c: u32)
        ensures
            c == self.code_of(),
    {
        match self {
            Self::Hardship => 1,
            Self::DisputeResolved => 2,
            Self::AdminAdjustment => 3,
            Self::Promotional => 4,
        }
    }
}

/// Who waived an instalment, why, how much of it and when.
#[derive(Clone, Copy, Debug)]
pub struct WaiverAudit {
    pub actor: Address,
    pub reason: WaiverReason,
    pub amount_waived: i128,
    pub waived_at: u64,
}

#[derive(Clone, Copy, Debug)]
pub struct Config {
    pub admin: Address,
    pub operator: Address,
}

/// What the contract keeps in storage.
pub struct RentSchedule {
    pub config: Option<Config>,
    pub paused: Option<bool>,
    /// Schedule per deal, in the order in which it was handed in.
    pub schedules: Table<String, Vec<ScheduledInstalment>>,
    /// Audit record per deal and instalment number.
    pub waivers: Table<(String, u32), WaiverAudit>,
}

impl ScheduledInstalment {
    /// What is still owed.
    pub open spec fn remaining(self) -> int {
        self.amount_due - self.amount_paid
    }

    /// Nothing can happen to it any more.
    pub open spec fn settled(self) -> bool {
        self.status is Paid || self.status is Waived
    }

    /// No more was paid than is due.
    pub open spec fn in_bounds(self) -> bool {
        0 <= self.amount_paid <= self.amount_due
    }

    /// The instalment after a payment of `amount`.
    pub open spec fn with_payment(self, amount: i128, tx_id: Bytes32, paid_at: u64) -> Self {
        let paid = (self.amount_paid + amount) as i128;
        ScheduledInstalment {
            amount_paid: paid,
            last_tx_id: Some(tx_id),
            status: if paid == self.amount_due {
                InstalmentStatus::Paid
            } else {
                self.status
            },
            paid_at: if paid == self.amount_due {
                Some(paid_at)
            } else {
                self.paid_at
            },
            ..self
        }
    }

    /// The instalment with another status.
    pub open spec fn with_status(self, status: InstalmentStatus) -> Self {
        ScheduledInstalment { status, ..self }
    }
}

/// `i` is the first place of `schedule` that holds instalment `number`.
pub open spec fn first_at(schedule: Seq<ScheduledInstalment>, number: u32, i: int) -> bool {
    &&& 0 <= i < schedule.len()
    &&& schedule[i].instalment_number == number
    &&& forall|j: int| 0 <= j < i ==> (#[trigger] schedule[j]).instalment_number != number
}

/// Instalment `number` occurs in `schedule`.
pub open spec fn listed(schedule: Seq<ScheduledInstalment>, number: u32) -> bool {
    exists|i: int| first_at(schedule, number, i)
}

/// The first place of a listed instalment.
pub open spec fn place(schedule: Seq<ScheduledInstalment>, number: u32) -> int {
    choose|i: int| first_at(schedule, number, i)
}

proof fn lemma_place(schedule: Seq<ScheduledInstalment>, number: u32, i: int)
    requires
        first_at(schedule, number, i),
    ensures
        listed(schedule, number),
        place(schedule, number) == i,
{
    let k = place(schedule, number);
    assert(first_at(schedule, number, k));
    if k < i {
        assert(schedule[k].instalment_number != number);
    } else if i < k {
        assert(schedule[i].instalment_number != number);
    }
}

/// Find the first instalment with the given number.
fn find_instalment(schedule: &Vec<ScheduledInstalment>, number: u32) -> (p: Option<usize>)
    ensures
        match p {
            Some(i) => listed(schedule@, number) && i == place(schedule@, number) && i
                < schedule.len(),
            None => !listed(schedule@, number),
        },
{
    let mut i: usize = 0;
    while i < schedule.len()
        invariant
            i <= schedule.len(),
            forall|j: int| 0 <= j < i ==> (#[trigger] schedule@[j]).instalment_number != number,
        decreases schedule.len() - i,
    {
        if schedule[i].instalment_number == number {
            proof {
                lemma_place(schedule@, number, i as int);
            }
            return Some(i);
        }
        i += 1;
    }
    None
}

/// What is still owed of an instalment.
pub fn instalment_remaining(inst: &ScheduledInstalment) -> (r: i128)
    requires
        i128::MIN <= inst.remaining() <= i128::MAX,
    ensures
        r == inst.remaining(),
{
    inst.amount_due - inst.amount_paid
}

/// Message of the abort of a difference that is no `i128`.
pub open spec fn remaining_abort(inst: ScheduledInstalment) -> Option<&'static str> {
    if i128::MIN <= inst.remaining() <= i128::MAX {
        None
    } else {
        Some("attempt to subtract with overflow")
    }
}

fn check_remaining(inst: &ScheduledInstalment) -> (abort: Option<&'static str>)
    ensures
        abort == remaining_abort(*inst),
{
    if inst.amount_due.checked_sub(inst.amount_paid).is_some() {
        None
    } else {
        Some("attempt to subtract with overflow")
    }
}

/// Message of the abort of a payment that is not positive.
pub open spec fn positive_payment_abort(amount: i128) -> Option<&'static str> {
    if amount <= 0 {
        Some("InvalidAmount")
    } else {
        None
    }
}

/// Find out whether a payment of `amount` would abort for not being positive.
pub fn assert_positive_payment(amount: i128) -> (abort: Option<&'static str>)
    ensures
        abort == positive_payment_abort(amount),
{
    if amount <= 0 {
        Some("InvalidAmount")
    } else {
        None
    }
}

/// Sum of what is due over the first `n` instalments.
pub open spec fn due_sum(instalments: Seq<ScheduledInstalment>, n: nat) -> int
    decreases n,
{
    if n == 0 {
        0
    } else {
        due_sum(instalments, (n - 1) as nat) + instalments[n - 1].amount_due
    }
}

/// Every partial sum of what is due is an `i128`.
pub open spec fn due_sum_fits(instalments: Seq<ScheduledInstalment>) -> bool {
    forall|n: nat|
        n <= instalments.len() ==> i128::MIN <= #[trigger] due_sum(instalments, n) <= i128::MAX
}

/// Add up what is due, or `None` where a partial sum is no `i128`.
fn total_due(instalments: &Vec<ScheduledInstalment>) -> (total: Option<i128>)
    ensures
        match total {
            Some(t) => due_sum_fits(instalments@) && t == due_sum(
                instalments@,
                instalments@.len(),
            ),
            None => !due_sum_fits(instalments@),
        },
{
    let mut total: i128 = 0;
    let mut i: usize = 0;
    while i < instalments.len()
        invariant
            i <= instalments.len(),
            total == due_sum(instalments@, i as nat),
            forall|n: nat|
                n <= i ==> i128::MIN <= #[trigger] due_sum(instalments@, n) <= i128::MAX,
        decreases instalments.len() - i,
    {
        let ghost next = due_sum(instalments@, (i + 1) as nat);
        match total.checked_add(instalments[i].amount_due) {
            Some(t) => {
                total = t;
            },
            None => {
                return None;
            },
        }
        i += 1;
        assert forall|n: nat| n <= i implies i128::MIN <= #[trigger] due_sum(instalments@, n)
            <= i128::MAX by {
            if n == i {
                assert(due_sum(instalments@, n) == next);
            }
        }
    }
    Some(total)
}

/// The record of a waiver of `inst` at time `now`.
pub open spec fn waiver_of(
    inst: ScheduledInstalment,
    actor: Address,
    reason: WaiverReason,
    now: u64,
) -> WaiverAudit {
    WaiverAudit { actor, reason, amount_waived: inst.remaining() as i128, waived_at: now }
}

pub open spec fn event(name: &'static str) -> Event {
    Event {
        topics: Topics::Two(Value::Symbol("rent_schedule"), Value::Symbol(name)),
        data: Data::Unit,
    }
}

pub open spec fn deal_event(name: &'static str, deal_id: String, data: Data) -> Event {
    Event {
        topics: Topics::Three(
            Value::Symbol("rent_schedule"),
            Value::Symbol(name),
            Value::Text(deal_id),
        ),
        data,
    }
}

/// The event of a payment that turned `before` into `after`.
pub open spec fn payment_event(
    deal_id: String,
    before: ScheduledInstalment,
    after: ScheduledInstalment,
    number: u32,
    amount: i128,
    tx_id: Bytes32,
) -> Event {
    if after.amount_paid == before.amount_due {
        deal_event(
            "instalment_paid",
            deal_id,
            Data::Three(
                Value::U32(number),
                Value::I128(before.amount_due),
                Value::Bytes(tx_id),
            ),
        )
    } else {
        deal_event(
            "partial_payment_recorded",
            deal_id,
            Data::Five(
                Value::U32(number),
                Value::I128(amount),
                Value::I128(after.amount_paid),
                Value::I128(after.remaining() as i128),
                Value::Bytes(tx_id),
            ),
        )
    }
}

impl RentSchedule {
    pub open spec fn paused_now(self) -> bool {
        self.paused.unwrap_or(false)
    }

    /// The schedule of each deal.
    pub open spec fn deals(self) -> Map<Seq<char>, Seq<ScheduledInstalment>> {
        self.schedules@.map_values(|v: Vec<ScheduledInstalment>| v@)
    }

    /// The instalment of a deal that bears `number`.
    pub open spec fn instalment(self, deal: Seq<char>, number: u32) -> ScheduledInstalment {
        self.deals()[deal][place(self.deals()[deal], number)]
    }

    /// The schedules with one instalment of a deal replaced.
    pub open spec fn deals_with(
        self,
        deal: Seq<char>,
        number: u32,
        inst: ScheduledInstalment,
    ) -> Map<Seq<char>, Seq<ScheduledInstalment>> {
        let schedule = self.deals()[deal];
        self.deals().insert(deal, schedule.update(place(schedule, number), inst))
    }

    /// Storage before `init`.
    pub fn new() -> (s: RentSchedule)
        ensures
            s.config is None,
            s.paused is None,
            s.deals() == Map::<Seq<char>, Seq<ScheduledInstalment>>::empty(),
            s.waivers@ == Map::<(Seq<char>, u32), WaiverAudit>::empty(),
    {
        let s = RentSchedule {
            config: None,
            paused: None,
            schedules: Table::new(),
            waivers: Table::new(),
        };
        assert(s.deals() =~= Map::empty());
        s
    }

    pub open spec fn config_abort(self) -> Option<&'static str> {
        if self.config is Some {
            None
        } else {
            Some("NotInitialized")
        }
    }

    pub open spec fn pause_abort(self) -> Option<&'static str> {
        if self.paused_now() {
            Some("ContractPaused")
        } else {
            None
        }
    }

    /// Only the admin gets through.
    pub open spec fn admin_abort(self, caller: Address) -> Option<&'static str> {
        if self.config is None {
            Some("NotInitialized")
        } else if caller != self.config->0.admin {
            Some("NotAuthorized")
        } else {
            None
        }
    }

    /// The admin and the operator get through.
    pub open spec fn staff_abort(self, caller: Address) -> Option<&'static str> {
        if self.config is None {
            Some("NotInitialized")
        } else if caller != self.config->0.admin && caller != self.config->0.operator {
            Some("NotAuthorized")
        } else {
            None
        }
    }

    /// The deal has to have a schedule that lists the instalment.
    pub open spec fn lookup_abort(self, deal: Seq<char>, number: u32) -> Option<&'static str> {
        if !self.deals().dom().contains(deal) {
            Some("NoSchedule")
        } else if !listed(self.deals()[deal], number) {
            Some("NotFound")
        } else {
            None
        }
    }

    pub open spec fn init_abort(self) -> Option<&'static str> {
        if self.config is Some {
            Some("AlreadyInitialized")
        } else {
            None
        }
    }

    pub open spec fn create_schedule_abort(
        self,
        caller: Address,
        deal: Seq<char>,
        instalments: Seq<ScheduledInstalment>,
    ) -> Option<&'static str> {
        if self.pause_abort() is Some {
            self.pause_abort()
        } else if self.staff_abort(caller) is Some {
            self.staff_abort(caller)
        } else if self.deals().dom().contains(deal) {
            Some("ScheduleExists")
        } else if !due_sum_fits(instalments) {
            Some("attempt to add with overflow")
        } else {
            None
        }
    }

    pub open spec fn record_payment_abort(
        self,
        deal: Seq<char>,
        number: u32,
        amount: i128,
    ) -> Option<&'static str> {
        let inst = self.instalment(deal, number);
        if self.pause_abort() is Some {
            self.pause_abort()
        } else if self.config_abort() is Some {
            self.config_abort()
        } else if positive_payment_abort(amount) is Some {
            positive_payment_abort(amount)
        } else if self.lookup_abort(deal, number) is Some {
            self.lookup_abort(deal, number)
        } else if inst.settled() {
            Some("InvalidStatus")
        } else if remaining_abort(inst) is Some {
            remaining_abort(inst)
        } else if amount > inst.remaining() {
            Some("Overpayment")
        } else {
            None
        }
    }

    pub open spec fn mark_overdue_abort(
        self,
        caller: Address,
        deal: Seq<char>,
        number: u32,
    ) -> Option<&'static str> {
        let inst = self.instalment(deal, number);
        if self.pause_abort() is Some {
            self.pause_abort()
        } else if self.staff_abort(caller) is Some {
            self.staff_abort(caller)
        } else if self.lookup_abort(deal, number) is Some {
            self.lookup_abort(deal, number)
        } else if inst.settled() {
            Some("InvalidStatus")
        } else if remaining_abort(inst) is Some {
            remaining_abort(inst)
        } else if inst.remaining() <= 0 {
            Some("InvalidStatus")
        } else {
            None
        }
    }

    pub open spec fn waive_instalment_abort(
        self,
        caller: Address,
        deal: Seq<char>,
        number: u32,
    ) -> Option<&'static str> {
        let inst = self.instalment(deal, number);
        if self.pause_abort() is Some {
            self.pause_abort()
        } else if self.admin_abort(caller) is Some {
            self.admin_abort(caller)
        } else if self.lookup_abort(deal, number) is Some {
            self.lookup_abort(deal, number)
        } else if inst.status is Waived {
            Some("AlreadyWaived")
        } else if inst.status is Paid {
            Some("InvalidStatus")
        } else {
            remaining_abort(inst)
        }
    }

    pub open spec fn get_instalment_abort(self, deal: Seq<char>, number: u32) -> Option<
        &'static str,
    > {
        if !self.deals().dom().contains(deal) {
            Some("NoSchedule")
        } else if !listed(self.deals()[deal], number) {
            Some("called `Option::unwrap()` on a `None` value")
        } else {
            None
        }
    }

    pub open spec fn instalment_remaining_abort(self, deal: Seq<char>, number: u32) -> Option<
        &'static str,
    > {
        if self.get_instalment_abort(deal, number) is Some {
            self.get_instalment_abort(deal, number)
        } else {
            remaining_abort(self.instalment(deal, number))
        }
    }

    fn check_staff(&self, caller: &Address) -> (abort: Option<&'static str>)
        ensures
            abort == self.staff_abort(*caller),
    {
        match self.config {
            None => Some("NotInitialized"),
            Some(cfg) => if *caller != cfg.admin && *caller != cfg.operator {
                Some("NotAuthorized")
            } else {
                None
            },
        }
    }

    /// Find out whether `pause` or `unpause` would abort.
    pub fn check_admin(&self, caller: &Address) -> (abort: Option<&'static str>)
        ensures
            abort == self.admin_abort(*caller),
    {
        match self.config {
            None => Some("NotInitialized"),
            Some(cfg) => if *caller != cfg.admin {
                Some("NotAuthorized")
            } else {
                None
            },
        }
    }

    /// The instalment of a deal that bears `number`, or the message of the
    /// abort: `missing` where the schedule does not list it.
    fn lookup(&self, deal_id: &String, number: u32, missing: &'static str) -> (r: Result<
        ScheduledInstalment,
        &'static str,
    >)
        ensures
            match r {
                Ok(inst) => self.deals().dom().contains(deal_id@) && listed(
                    self.deals()[deal_id@],
                    number,
                ) && inst == self.instalment(deal_id@, number),
                Err(message) => if self.deals().dom().contains(deal_id@) {
                    !listed(self.deals()[deal_id@], number) && message == missing
                } else {
                    message == "NoSchedule"
                },
            },
    {
        match self.schedules.get(deal_id) {
            None => Err("NoSchedule"),
            Some(schedule) => match find_instalment(schedule, number) {
                None => Err(missing),
                Some(i) => Ok(schedule[i]),
            },
        }
    }

    /// Find out whether `init` would abort.
    pub fn check_init(&self) -> (abort: Option<&'static str>)
        ensures
            abort == self.init_abort(),
    {
        if self.config.is_some() {
            Some("AlreadyInitialized")
        } else {
            None
        }
    }

    /// Set the admin and the operator, once.
    pub fn init(&mut self, env: &mut Env, admin: &Address, operator: &Address)
        requires
            old(self).init_abort() is None,
        ensures
            final(self).config == Some(Config { admin: *admin, operator: *operator }),
            final(self).paused == Some(false),
            final(self).schedules == old(self).schedules,
            final(self).waivers == old(self).waivers,
            final(env).after(*old(env), seq![Action::Publish(event("init"))]),
    {
        self.config = Some(Config { admin: *admin, operator: *operator });
        self.paused = Some(false);
        env.publish(
            Event {
                topics: Topics::Two(Value::Symbol("rent_schedule"), Value::Symbol("init")),
                data: Data::Unit,
            },
        );
    }

    /// Pause the contract: until `unpause`, no schedule or instalment changes.
    pub fn pause(&mut self, env: &mut Env, caller: &Address)
        requires
            old(self).admin_abort(*caller) is None,
        ensures
            *final(self) == (RentSchedule { paused: Some(true), ..*old(self) }),
            final(env).after(
                *old(env),
                seq![Action::RequireAuth(*caller), Action::Publish(event("paused"))],
            ),
    {
        env.require_auth(caller);
        self.paused = Some(true);
        env.publish(
            Event {
                topics: Topics::Two(Value::Symbol("rent_schedule"), Value::Symbol("paused")),
                data: Data::Unit,
            },
        );
    }

    /// Lift the pause: schedules and instalments may change again.
    pub fn unpause(&mut self, env: &mut Env, caller: &Address)
        requires
            old(self).admin_abort(*caller) is None,
        ensures
            *final(self) == (RentSchedule { paused: Some(false), ..*old(self) }),
            final(env).after(
                *old(env),
                seq![Action::RequireAuth(*caller), Action::Publish(event("unpaused"))],
            ),
    {
        env.require_auth(caller);
        self.paused = Some(false);
        env.publish(
            Event {
                topics: Topics::Two(Value::Symbol("rent_schedule"), Value::Symbol("unpaused")),
                data: Data::Unit,
            },
        );
    }

    pub fn is_paused(&self) -> (b: bool)
        ensures
            b == self.paused_now(),
    {
        self.paused.unwrap_or(false)
    }

    /// Find out whether `create_schedule` would abort.
    pub fn check_create_schedule(
        &self,
        caller: &Address,
        deal_id: &String,
        instalments: &Vec<ScheduledInstalment>,
    ) -> (abort: Option<&'static str>)
        ensures
            abort == self.create_schedule_abort(*caller, deal_id@, instalments@),
    {
        if self.is_paused() {
            return Some("ContractPaused");
        }
        match self.check_staff(caller) {
            Some(message) => Some(message),
            None => if self.schedules.has(deal_id) {
                Some("ScheduleExists")
            } else if total_due(instalments).is_none() {
                Some("attempt to add with overflow")
            } else {
                None
            },
        }
    }

    /// Store the schedule of a new deal as it is handed in.
    pub fn create_schedule(
        &mut self,
        env: &mut Env,
        caller: &Address,
        deal_id: &String,
        instalments: Vec<ScheduledInstalment>,
    )
        requires
            old(self).create_schedule_abort(*caller, deal_id@, instalments@) is None,
            instalments.len() <= u32::MAX,
        ensures
            final(self).deals() == old(self).deals().insert(deal_id@, instalments@),
            final(self).config == old(self).config,
            final(self).paused == old(self).paused,
            final(self).waivers == old(self).waivers,
            final(env).after(
                *old(env),
                seq![
                    Action::RequireAuth(*caller),
                    Action::Publish(
                        deal_event(
                            "schedule_created",
                            *deal_id,
                            Data::Two(
                                Value::U32(instalments.len() as u32),
                                Value::I128(due_sum(instalments@, instalments@.len()) as i128),
                            ),
                        ),
                    ),
                ],
            ),
    {
        env.require_auth(caller);
        let total_amount: i128 = total_due(&instalments).unwrap();
        let count: u32 = instalments.len() as u32;
        self.schedules.set(deal_id.clone(), instalments);
        assert(self.deals() =~= old(self).deals().insert(deal_id@, instalments@));
        env.publish(
            Event {
                topics: Topics::Three(
                    Value::Symbol("rent_schedule"),
                    Value::Symbol("schedule_created"),
                    Value::Text(deal_id.clone()),
                ),
                data: Data::Two(Value::U32(count), Value::I128(total_amount)),
            },
        );
    }

    /// Put `inst` in the place of the instalment that bears `number`.
    fn replace(&mut self, deal_id: &String, number: u32, inst: ScheduledInstalment)
        requires
            old(self).deals().dom().contains(deal_id@),
            listed(old(self).deals()[deal_id@], number),
        ensures
            final(self).deals() == old(self).deals_with(deal_id@, number, inst),
            final(self).config == old(self).config,
            final(self).paused == old(self).paused,
            final(self).waivers == old(self).waivers,
    {
        let mut schedule: Vec<ScheduledInstalment> = self.schedules.get(deal_id).unwrap().clone();
        assert(schedule@ =~= old(self).deals()[deal_id@]);
        let idx: usize = find_instalment(&schedule, number).unwrap();
        schedule.set(idx, inst);
        self.schedules.set(deal_id.clone(), schedule);
        assert(self.deals() =~= old(self).deals_with(deal_id@, number, inst));
    }

    /// Find out whether `record_payment` would abort.
    pub fn check_record_payment(
        &self,
        deal_id: &String,
        instalment_number: u32,
        amount: i128,
    ) -> (abort: Option<&'static str>)
        ensures
            abort == self.record_payment_abort(deal_id@, instalment_number, amount),
    {
        if self.is_paused() {
            return Some("ContractPaused");
        }
        if self.config.is_none() {
            return Some("NotInitialized");
        }
        if let Some(message) = assert_positive_payment(amount) {
            return Some(message);
        }
        let inst = match self.lookup(deal_id, instalment_number, "NotFound") {
            Err(message) => {
                return Some(message);
            },
            Ok(inst) => inst,
        };
        if inst.status == InstalmentStatus::Paid || inst.status == InstalmentStatus::Waived {
            return Some("InvalidStatus");
        }
        if let Some(message) = check_remaining(&inst) {
            return Some(message);
        }
        if amount > instalment_remaining(&inst) {
            return Some("Overpayment");
        }
        None
    }

    /// Record a payment toward an instalment, which is paid once the whole
    /// amount due has come in. Anyone may pay.
    pub fn record_payment(
        &mut self,
        env: &mut Env,
        caller: &Address,
        deal_id: &String,
        instalment_number: u32,
        amount: i128,
        tx_id: &Bytes32,
        paid_at: u64,
    )
        requires
            old(self).record_payment_abort(deal_id@, instalment_number, amount) is None,
        ensures
            ({
                let before = old(self).instalment(deal_id@, instalment_number);
                let after = before.with_payment(amount, *tx_id, paid_at);
                &&& final(self).deals() == old(self).deals_with(deal_id@, instalment_number, after)
                &&& final(env).after(
                    *old(env),
                    seq![
                        Action::RequireAuth(*caller),
                        Action::Publish(
                            payment_event(
                                *deal_id,
                                before,
                                after,
                                instalment_number,
                                amount,
                                *tx_id,
                            ),
                        ),
                    ],
                )
            }),
            final(self).config == old(self).config,
            final(self).paused == old(self).paused,
            final(self).waivers == old(self).waivers,
    {
        env.require_auth(caller);
        let mut inst: ScheduledInstalment = self.lookup(
            deal_id,
            instalment_number,
            "NotFound",
        ).unwrap();

        inst.amount_paid = inst.amount_paid + amount;
        inst.last_tx_id = Some(*tx_id);

        if inst.amount_paid == inst.amount_due {
            inst.status = InstalmentStatus::Paid;
            inst.paid_at = Some(paid_at);
            self.replace(deal_id, instalment_number, inst);
            env.publish(
                Event {
                    topics: Topics::Three(
                        Value::Symbol("rent_schedule"),
                        Value::Symbol("instalment_paid"),
                        Value::Text(deal_id.clone()),
                    ),
                    data: Data::Three(
                        Value::U32(instalment_number),
                        Value::I128(inst.amount_due),
                        Value::Bytes(*tx_id),
                    ),
                },
            );
        } else {
            self.replace(deal_id, instalment_number, inst);
            env.publish(
                Event {
                    topics: Topics::Three(
                        Value::Symbol("rent_schedule"),
                        Value::Symbol("partial_payment_recorded"),
                        Value::Text(deal_id.clone()),
                    ),
                    data: Data::Five(
                        Value::U32(instalment_number),
                        Value::I128(amount),
                        Value::I128(inst.amount_paid),
                        Value::I128(instalment_remaining(&inst)),
                        Value::Bytes(*tx_id),
                    ),
                },
            );
        }
    }

    /// Find out whether `mark_overdue` would abort.
    pub fn check_mark_overdue(
        &self,
        caller: &Address,
        deal_id: &String,
        instalment_number: u32,
    ) -> (abort: Option<&'static str>)
        ensures
            abort == self.mark_overdue_abort(*caller, deal_id@, instalment_number),
    {
        if self.is_paused() {
            return Some("ContractPaused");
        }
        if let Some(message) = self.check_staff(caller) {
            return Some(message);
        }
        let inst = match self.lookup(deal_id, instalment_number, "NotFound") {
            Err(message) => {
                return Some(message);
            },
            Ok(inst) => inst,
        };
        if inst.status == InstalmentStatus::Paid || inst.status == InstalmentStatus::Waived {
            return Some("InvalidStatus");
        }
        if let Some(message) = check_remaining(&inst) {
            return Some(message);
        }
        if instalment_remaining(&inst) <= 0 {
            return Some("InvalidStatus");
        }
        None
    }

    /// Mark an instalment overdue of which something is still owed.
    pub fn mark_overdue(
        &mut self,
        env: &mut Env,
        caller: &Address,
        deal_id: &String,
        instalment_number: u32,
    )
        requires
            old(self).mark_overdue_abort(*caller, deal_id@, instalment_number) is None,
        ensures
            ({
                let before = old(self).instalment(deal_id@, instalment_number);
                &&& final(self).deals() == old(self).deals_with(
                    deal_id@,
                    instalment_number,
                    before.with_status(InstalmentStatus::Overdue),
                )
                &&& final(env).after(
                    *old(env),
                    seq![
                        Action::RequireAuth(*caller),
                        Action::Publish(
                            deal_event(
                                "instalment_overdue",
                                *deal_id,
                                Data::Two(
                                    Value::U32(instalment_number),
                                    Value::I128(before.remaining() as i128),
                                ),
                            ),
                        ),
                    ],
                )
            }),
            final(self).config == old(self).config,
            final(self).paused == old(self).paused,
            final(self).waivers == old(self).waivers,
    {
        env.require_auth(caller);
        let mut inst: ScheduledInstalment = self.lookup(
            deal_id,
            instalment_number,
            "NotFound",
        ).unwrap();
        inst.status = InstalmentStatus::Overdue;
        let remaining: i128 = instalment_remaining(&inst);
        self.replace(deal_id, instalment_number, inst);
        env.publish(
            Event {
                topics: Topics::Three(
                    Value::Symbol("rent_schedule"),
                    Value::Symbol("instalment_overdue"),
                    Value::Text(deal_id.clone()),
                ),
                data: Data::Two(Value::U32(instalment_number), Value::I128(remaining)),
            },
        );
    }

    /// Find out whether `waive_instalment` would abort.
    pub fn check_waive_instalment(
        &self,
        caller: &Address,
        deal_id: &String,
        instalment_number: u32,
    ) -> (abort: Option<&'static str>)
        ensures
            abort == self.waive_instalment_abort(*caller, deal_id@, instalment_number),
    {
        if self.is_paused() {
            return Some("ContractPaused");
        }
        if let Some(message) = self.check_admin(caller) {
            return Some(message);
        }
        let inst = match self.lookup(deal_id, instalment_number, "NotFound") {
            Err(message) => {
                return Some(message);
            },
            Ok(inst) => inst,
        };
        if inst.status == InstalmentStatus::Waived {
            return Some("AlreadyWaived");
        }
        if inst.status == InstalmentStatus::Paid {
            return Some("InvalidStatus");
        }
        check_remaining(&inst)
    }

    /// Waive what is left of an instalment, and keep a record of who did so
    /// and why.
    pub fn waive_instalment(
        &mut self,
        env: &mut Env,
        caller: &Address,
        deal_id: &String,
        instalment_number: u32,
        reason: WaiverReason,
    )
        requires
            old(self).waive_instalment_abort(*caller, deal_id@, instalment_number) is None,
        ensures
            ({
                let before = old(self).instalment(deal_id@, instalment_number);
                let waived = before.remaining() as i128;
                &&& final(self).deals() == old(self).deals_with(
                    deal_id@,
                    instalment_number,
                    before.with_status(InstalmentStatus::Waived),
                )
                &&& final(self).waivers@ == old(self).waivers@.insert(
                    (deal_id@, instalment_number),
                    WaiverAudit {
                        actor: *caller,
                        reason,
                        amount_waived: waived,
                        waived_at: old(env).now,
                    },
                )
                &&& final(self).waivers@[(deal_id@, instalment_number)] == waiver_of(
                    before,
                    *caller,
                    reason,
                    old(env).now,
                )
                &&& final(env).after(
                    *old(env),
                    seq![
                        Action::RequireAuth(*caller),
                        Action::Publish(
                            deal_event(
                                "instalment_waived",
                                *deal_id,
                                Data::Five(
                                    Value::U32(instalment_number),
                                    Value::Address(*caller),
                                    Value::U32(reason.code_of()),
                                    Value::I128(waived),
                                    Value::U64(old(env).now),
                                ),
                            ),
                        ),
                    ],
                )
            }),
            final(self).config == old(self).config,
            final(self).paused == old(self).paused,
    {
        env.require_auth(caller);
        let mut inst: ScheduledInstalment = self.lookup(
            deal_id,
            instalment_number,
            "NotFound",
        ).unwrap();

        let amount_waived: i128 = instalment_remaining(&inst);
        let waived_at: u64 = env.timestamp();
        inst.status = InstalmentStatus::Waived;
        self.replace(deal_id, instalment_number, inst);

        let audit = WaiverAudit { actor: *caller, reason, amount_waived, waived_at };
        self.waivers.set((deal_id.clone(), instalment_number), audit);

        env.publish(
            Event {
                topics: Topics::Three(
                    Value::Symbol("rent_schedule"),
                    Value::Symbol("instalment_waived"),
                    Value::Text(deal_id.clone()),
                ),
                data: Data::Five(
                    Value::U32(instalment_number),
                    Value::Address(*caller),
                    Value::U32(reason.code()),
                    Value::I128(amount_waived),
                    Value::U64(waived_at),
                ),
            },
        );
    }

    /// The audit record of a waiver, if there was one.
    pub fn get_waiver(&self, deal_id: &String, instalment_number: u32) -> (audit: Option<
        WaiverAudit,
    >)
        ensures
            audit == (if self.waivers@.dom().contains((deal_id@, instalment_number)) {
                Some(self.waivers@[(deal_id@, instalment_number)])
            } else {
                None
            }),
    {
        match self.waivers.get(&(deal_id.clone(), instalment_number)) {
            Some(audit) => Some(*audit),
            None => None,
        }
    }

    /// Find out whether `get_instalment` would abort.
    pub fn check_get_instalment(&self, deal_id: &String, instalment_number: u32) -> (abort: Option<
        &'static str,
    >)
        ensures
            abort == self.get_instalment_abort(deal_id@, instalment_number),
    {
        match self.lookup(
            deal_id,
            instalment_number,
            "called `Option::unwrap()` on a `None` value",
        ) {
            Ok(_) => None,
            Err(message) => Some(message),
        }
    }

    /// The instalment of a deal that bears the given number.
    pub fn get_instalment(&self, deal_id: &String, instalment_number: u32) -> (inst:
        ScheduledInstalment)
        requires
            self.get_instalment_abort(deal_id@, instalment_number) is None,
        ensures
            inst == self.instalment(deal_id@, instalment_number),
    {
        self.lookup(
            deal_id,
            instalment_number,
            "called `Option::unwrap()` on a `None` value",
        ).unwrap()
    }

    /// Find out whether `instalment_remaining` would abort.
    pub fn check_instalment_remaining(&self, deal_id: &String, instalment_number: u32) -> (abort:
        Option<&'static str>)
        ensures
            abort == self.instalment_remaining_abort(deal_id@, instalment_number),
    {
        match self.check_get_instalment(deal_id, instalment_number) {
            Some(message) => Some(message),
            None => check_remaining(&self.get_instalment(deal_id, instalment_number)),
        }
    }

    /// What is still owed of an instalment.
    pub fn instalment_remaining(&self, deal_id: &String, instalment_number: u32) -> (r: i128)
        requires
            self.instalment_remaining_abort(deal_id@, instalment_number) is None,
        ensures
            r == self.instalment(deal_id@, instalment_number).remaining(),
    {
        let inst = self.get_instalment(deal_id, instalment_number);
        instalment_remaining(&inst)
    }
}

/// The instalments of `schedule` that bear `number`, in order.
pub open spec fn bearing(schedule: Seq<ScheduledInstalment>, number: u32) -> Seq<
    ScheduledInstalment,
> {
    schedule.filter(|inst: ScheduledInstalment| inst.instalment_number == number)
}

/// Numbers go up, and never down, along `schedule`.
pub open spec fn ascending(schedule: Seq<ScheduledInstalment>) -> bool {
    forall|i: int, j: int|
        0 <= i <= j < schedule.len() ==> (#[trigger] schedule[i]).instalment_number <= (
        #[trigger] schedule[j]).instalment_number
}

/// `sorted` is `schedule` in ascending order, with instalments of one number in
/// the order they had.
pub open spec fn sorts(
    sorted: Seq<ScheduledInstalment>,
    schedule: Seq<ScheduledInstalment>,
) -> bool {
    &&& ascending(sorted)
    &&& sorted.len() == schedule.len()
    &&& sorted.to_multiset() =~= schedule.to_multiset()
    &&& forall|number: u32| #[trigger] bearing(sorted, number) =~= bearing(schedule, number)
}

/// Swapping two neighbours of different numbers moves no instalment past one
/// of its own number.
proof fn lemma_swap(schedule: Seq<ScheduledInstalment>, j: int)
    requires
        0 < j < schedule.len(),
        schedule[j - 1].instalment_number != schedule[j].instalment_number,
    ensures
        ({
            let swapped = schedule.update(j - 1, schedule[j]).update(j, schedule[j - 1]);
            &&& swapped.to_multiset() =~= schedule.to_multiset()
            &&& forall|number: u32| #[trigger] bearing(swapped, number) =~= bearing(
                schedule,
                number,
            )
        }),
{
    let swapped = schedule.update(j - 1, schedule[j]).update(j, schedule[j - 1]);
    let a = schedule[j - 1];
    let b = schedule[j];
    let front = schedule.subrange(0, j - 1);
    let back = schedule.subrange(j + 1, schedule.len() as int);
    assert(schedule =~= (front + seq![a, b]) + back);
    assert(swapped =~= (front + seq![b, a]) + back);
    assert forall|number: u32| #[trigger] bearing(swapped, number) =~= bearing(
        schedule,
        number,
    ) by {
        let keep = |inst: ScheduledInstalment| inst.instalment_number == number;
        Seq::filter_distributes_over_add(front + seq![a, b], back, keep);
        Seq::filter_distributes_over_add(front + seq![b, a], back, keep);
        Seq::filter_distributes_over_add(front, seq![a, b], keep);
        Seq::filter_distributes_over_add(front, seq![b, a], keep);
        reveal_with_fuel(Seq::filter, 3);
        assert(seq![a, b].drop_last() =~= seq![a]);
        assert(seq![b, a].drop_last() =~= seq![b]);
        assert(seq![a].drop_last() =~= Seq::<ScheduledInstalment>::empty());
        assert(seq![b].drop_last() =~= Seq::<ScheduledInstalment>::empty());
        assert(seq![a, b].filter(keep) =~= seq![b, a].filter(keep));
    }
    vstd::seq_lib::lemma_multiset_commutative(front + seq![a, b], back);
    vstd::seq_lib::lemma_multiset_commutative(front + seq![b, a], back);
    vstd::seq_lib::lemma_multiset_commutative(front, seq![a, b]);
    vstd::seq_lib::lemma_multiset_commutative(front, seq![b, a]);
    vstd::seq_lib::lemma_multiset_commutative(seq![a], seq![b]);
    vstd::seq_lib::lemma_multiset_commutative(seq![b], seq![a]);
    assert(seq![a, b] =~= seq![a] + seq![b]);
    assert(seq![b, a] =~= seq![b] + seq![a]);
    assert(seq![a, b].to_multiset() =~= seq![b, a].to_multiset());
}

/// Put a schedule in ascending order, each instalment carried down past those
/// of greater numbers.
fn sort_by_number(schedule: &mut Vec<ScheduledInstalment>)
    ensures
        sorts(final(schedule)@, old(schedule)@),
{
    let ghost start = schedule@;
    let len: usize = schedule.len();
    let mut i: usize = 1;
    while i < len
        invariant
            len == schedule.len(),
            len == start.len(),
            1 <= i,
            i <= len || len == 0,
            forall|a: int, b: int|
                0 <= a <= b < i && b < len ==> (#[trigger] schedule@[a]).instalment_number <= (
                #[trigger] schedule@[b]).instalment_number,
            schedule@.to_multiset() =~= start.to_multiset(),
            forall|number: u32| #[trigger] bearing(schedule@, number) =~= bearing(start, number),
        decreases len - i,
    {
        let mut j: usize = i;
        while j > 0
            invariant_except_break
                len == schedule.len(),
                len == start.len(),
                j <= i < len,
                forall|a: int, b: int|
                    0 <= a <= b <= i && a != j && b != j ==> (
                    #[trigger] schedule@[a]).instalment_number <= (
                    #[trigger] schedule@[b]).instalment_number,
                forall|b: int|
                    j <= b <= i ==> schedule@[j as int].instalment_number <= (
                    #[trigger] schedule@[b]).instalment_number,
                schedule@.to_multiset() =~= start.to_multiset(),
                forall|number: u32| #[trigger]
                    bearing(schedule@, number) =~= bearing(start, number),
            ensures
                len == schedule.len(),
                i < len,
                forall|a: int, b: int|
                    0 <= a <= b <= i ==> (#[trigger] schedule@[a]).instalment_number <= (
                    #[trigger] schedule@[b]).instalment_number,
                schedule@.to_multiset() =~= start.to_multiset(),
                forall|number: u32| #[trigger]
                    bearing(schedule@, number) =~= bearing(start, number),
            decreases j,
        {
            let a = schedule[j - 1];
            let b = schedule[j];
            if a.instalment_number > b.instalment_number {
                proof {
                    lemma_swap(schedule@, j as int);
                }
                let ghost before = schedule@;
                schedule.set(j - 1, b);
                schedule.set(j, a);
                proof {
                    assert forall|number: u32| #[trigger]
                        bearing(schedule@, number) =~= bearing(start, number) by {
                        assert(bearing(before, number) =~= bearing(start, number));
                    }
                }
                j -= 1;
            } else {
                break;
            }
        }
        i += 1;
    }
}

impl RentSchedule {
    /// The schedule of a deal in ascending order of instalment numbers; empty
    /// for a deal that has none.
    pub fn get_schedule(&self, deal_id: &String) -> (schedule: Vec<ScheduledInstalment>)
        ensures
            self.deals().dom().contains(deal_id@) ==> sorts(schedule@, self.deals()[deal_id@]),
            !self.deals().dom().contains(deal_id@) ==> schedule@.len() == 0,
    {
        let mut schedule: Vec<ScheduledInstalment> = match self.schedules.get(deal_id) {
            Some(stored) => stored.clone(),
            None => Vec::new(),
        };
        proof {
            if self.deals().dom().contains(deal_id@) {
                assert(schedule@ =~= self.deals()[deal_id@]);
            }
        }
        sort_by_number(&mut schedule);
        schedule
    }
}

/// Payments add up: what is owed goes down by exactly what is paid, never below
/// zero, and the instalment is paid at the moment nothing is owed any more.
pub proof fn law_payments_add_up(
    inst: ScheduledInstalment,
    first: i128,
    second: i128,
    tx1: Bytes32,
    tx2: Bytes32,
    at1: u64,
    at2: u64,
)
    requires
        inst.in_bounds(),
        !inst.settled(),
        0 < first <= inst.remaining(),
    ensures
        ({
            let once = inst.with_payment(first, tx1, at1);
            let twice = once.with_payment(second, tx2, at2);
            &&& once.in_bounds()
            &&& once.remaining() == inst.remaining() - first
            &&& once.status is Paid <==> first == inst.remaining()
            &&& !(once.status is Paid) ==> once.status == inst.status
            &&& 0 < second <= once.remaining() ==> {
                &&& twice.in_bounds()
                &&& twice.remaining() == inst.remaining() - first - second
                &&& twice.status is Paid <==> first + second == inst.remaining()
            }
        }),
{
}

/// A paid or waived instalment stays as it is: no payment, no overdue mark and
/// no waiver goes through on it.
pub proof fn law_settled_is_final(
    contract: RentSchedule,
    caller: Address,
    deal: Seq<char>,
    number: u32,
    amount: i128,
)
    requires
        contract.instalment(deal, number).settled(),
    ensures
        contract.record_payment_abort(deal, number, amount) is Some,
        contract.mark_overdue_abort(caller, deal, number) is Some,
        contract.waive_instalment_abort(caller, deal, number) is Some,
{
}

/// A pause stops every entry point that changes a schedule, and does nothing
/// else to them: once it is lifted they go through, or abort, as before.
pub proof fn law_pause_is_reversible(
    contract: RentSchedule,
    caller: Address,
    deal: Seq<char>,
    number: u32,
    amount: i128,
    instalments: Seq<ScheduledInstalment>,
)
    requires
        !contract.paused_now(),
    ensures
        ({
            let paused = RentSchedule { paused: Some(true), ..contract };
            let resumed = RentSchedule { paused: Some(false), ..paused };
            &&& paused.create_schedule_abort(caller, deal, instalments) == Some("ContractPaused")
            &&& paused.record_payment_abort(deal, number, amount) == Some("ContractPaused")
            &&& paused.mark_overdue_abort(caller, deal, number) == Some("ContractPaused")
            &&& paused.waive_instalment_abort(caller, deal, number) == Some("ContractPaused")
            &&& resumed.create_schedule_abort(caller, deal, instalments)
                == contract.create_schedule_abort(caller, deal, instalments)
            &&& resumed.record_payment_abort(deal, number, amount)
                == contract.record_payment_abort(deal, number, amount)
            &&& resumed.mark_overdue_abort(caller, deal, number) == contract.mark_overdue_abort(
                caller,
                deal,
                number,
            )
            &&& resumed.waive_instalment_abort(caller, deal, number)
                == contract.waive_instalment_abort(caller, deal, number)
        }),
{
}

/// No instalment of any deal has been paid beyond what is due.
pub open spec fn never_overpaid(deals: Map<Seq<char>, Seq<ScheduledInstalment>>) -> bool {
    forall|deal: Seq<char>, i: int|
        deals.dom().contains(deal) && 0 <= i < deals[deal].len()
            ==> (#[trigger] deals[deal][i]).in_bounds()
}

/// Where every schedule that was handed in starts within bounds, no operation
/// ever takes an instalment out of them.
pub proof fn law_never_overpaid(
    contract: RentSchedule,
    caller: Address,
    deal: Seq<char>,
    number: u32,
    amount: i128,
    tx_id: Bytes32,
    paid_at: u64,
    fresh: Seq<ScheduledInstalment>,
)
    requires
        never_overpaid(contract.deals()),
        forall|i: int| 0 <= i < fresh.len() ==> (#[trigger] fresh[i]).in_bounds(),
    ensures
        never_overpaid(contract.deals().insert(deal, fresh)),
        contract.record_payment_abort(deal, number, amount) is None ==> never_overpaid(
            contract.deals_with(
                deal,
                number,
                contract.instalment(deal, number).with_payment(amount, tx_id, paid_at),
            ),
        ),
        contract.mark_overdue_abort(caller, deal, number) is None ==> never_overpaid(
            contract.deals_with(
                deal,
                number,
                contract.instalment(deal, number).with_status(InstalmentStatus::Overdue),
            ),
        ),
        contract.waive_instalment_abort(caller, deal, number) is None ==> never_overpaid(
            contract.deals_with(
                deal,
                number,
                contract.instalment(deal, number).with_status(InstalmentStatus::Waived),
            ),
        ),
{
    let inst = contract.instalment(deal, number);
    if contract.lookup_abort(deal, number) is None {
        let schedule = contract.deals()[deal];
        assert(first_at(schedule, number, place(schedule, number)));
        assert(schedule[place(schedule, number)].in_bounds());
        lemma_replace_in_bounds(contract, deal, number, inst.with_status(InstalmentStatus::Overdue));
        lemma_replace_in_bounds(contract, deal, number, inst.with_status(InstalmentStatus::Waived));
        if contract.record_payment_abort(deal, number, amount) is None {
            lemma_replace_in_bounds(
                contract,
                deal,
                number,
                inst.with_payment(amount, tx_id, paid_at),
            );
        }
    }
}

proof fn lemma_replace_in_bounds(
    contract: RentSchedule,
    deal: Seq<char>,
    number: u32,
    inst: ScheduledInstalment,
)
    requires
        never_overpaid(contract.deals()),
        contract.lookup_abort(deal, number) is None,
        inst.in_bounds(),
    ensures
        never_overpaid(contract.deals_with(deal, number, inst)),
{
    let deals = contract.deals();
    let after = contract.deals_with(deal, number, inst);
    assert forall|d: Seq<char>, i: int|
        after.dom().contains(d) && 0 <= i < after[d].len() implies (
    #[trigger] after[d][i]).in_bounds() by {
        if d == deal {
            if i != place(deals[deal], number) {
                assert(deals[deal][i].in_bounds());
            }
        } else {
            assert(deals[d][i].in_bounds());
        }
    }
}

/// An operation on one instalment leaves every other instalment of the deal,
/// and every other deal, as it was.
pub proof fn law_other_instalments_untouched(
    contract: RentSchedule,
    deal: Seq<char>,
    number: u32,
    inst: ScheduledInstalment,
    other: Seq<char>,
    i: int,
)
    requires
        contract.lookup_abort(deal, number) is None,
    ensures
        ({
            let after = contract.deals_with(deal, number, inst);
            &&& after[deal].len() == contract.deals()[deal].len()
            &&& 0 <= i < after[deal].len() && i != place(contract.deals()[deal], number)
                ==> after[deal][i] == contract.deals()[deal][i]
            &&& other != deal ==> after.dom().contains(other) == contract.deals().dom().contains(
                other,
            ) && after[other] == contract.deals()[other]
        }),
{
}

} // verus!
