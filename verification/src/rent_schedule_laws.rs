//! What holds of rent schedules in every state.

use vstd::prelude::*;

use crate::host::{Data, Event, Topics, Value};
use crate::rent_schedule;
use crate::rent_schedule::{InstalmentStatus, RentSchedule, ScheduledInstalment, WaiverReason};
use crate::value::{Address, Bytes32};

verus! {

/// The deal has a schedule, and the first of its instalments that bears
/// `number` stands at place `i`.
pub open spec fn stands_at(contract: RentSchedule, deal: Seq<char>, number: u32, i: int) -> bool {
    &&& contract.schedules@.dom().contains(deal)
    &&& 0 <= i < contract.schedules@[deal]@.len()
    &&& contract.schedules@[deal]@[i].instalment_number == number
    &&& forall|j: int| 0 <= j < i ==> contract.schedules@[deal]@[j].instalment_number != number
}

/// The deal has no schedule, or one in which no instalment bears `number`.
pub open spec fn stands_nowhere(contract: RentSchedule, deal: Seq<char>, number: u32) -> bool {
    contract.schedules@.dom().contains(deal) ==> forall|j: int|
        0 <= j < contract.schedules@[deal]@.len()
            ==> contract.schedules@[deal]@[j].instalment_number != number
}

/// An instalment is found under its number, as it was handed in or as the last
/// operation left it; where several bear the number, the first is.
pub proof fn law_instalments_are_found(contract: RentSchedule, deal: Seq<char>, number: u32, i: int)
    requires
        stands_at(contract, deal, number, i),
    ensures
        contract.deals().dom().contains(deal),
        contract.deals()[deal] == contract.schedules@[deal]@,
        rent_schedule::listed(contract.deals()[deal], number),
        rent_schedule::place(contract.deals()[deal], number) == i,
        contract.instalment(deal, number) == contract.schedules@[deal]@[i],
        contract.lookup_abort(deal, number) is None,
        contract.get_instalment_abort(deal, number) is None,
{
    let schedule = contract.deals()[deal];
    assert(schedule == contract.schedules@[deal]@);
    assert(rent_schedule::first_at(schedule, number, i));
    let k = rent_schedule::place(schedule, number);
    assert(rent_schedule::first_at(schedule, number, k));
    if k < i {
        assert(schedule[k].instalment_number != number);
    } else if i < k {
        assert(schedule[i].instalment_number != number);
    }
}

/// What is not there is not found, and every operation on it is refused.
pub proof fn law_missing_instalments_are_refused(
    contract: RentSchedule,
    caller: Address,
    deal: Seq<char>,
    number: u32,
    amount: i128,
)
    requires
        stands_nowhere(contract, deal, number),
    ensures
        ({
            let message = if contract.schedules@.dom().contains(deal) {
                Some("NotFound")
            } else {
                Some("NoSchedule")
            };
            let running = contract.paused != Some(true);
            &&& contract.record_payment_abort(deal, number, amount) is Some
            &&& contract.mark_overdue_abort(caller, deal, number) is Some
            &&& contract.waive_instalment_abort(caller, deal, number) is Some
            &&& contract.get_instalment_abort(deal, number) is Some
            &&& contract.instalment_remaining_abort(deal, number) is Some
            &&& running && contract.config is Some && amount > 0 ==> contract.record_payment_abort(
                deal,
                number,
                amount,
            ) == message
            &&& running && (contract.config matches Some(c) && (caller == c.admin || caller
                == c.operator)) ==> contract.mark_overdue_abort(caller, deal, number) == message
            &&& running && (contract.config matches Some(c) && caller == c.admin)
                ==> contract.waive_instalment_abort(caller, deal, number) == message
        }),
{
    if contract.deals().dom().contains(deal) {
        let schedule = contract.deals()[deal];
        assert(schedule == contract.schedules@[deal]@);
        if rent_schedule::listed(schedule, number) {
            let k = rent_schedule::place(schedule, number);
            assert(rent_schedule::first_at(schedule, number, k));
            assert(schedule[k].instalment_number != number);
        }
    }
}

/// On a running contract that was set up, an instalment that is neither paid nor
/// waived takes every positive payment up to what is owed, an overdue one too;
/// nothing else goes through, and each refusal has its own message.
pub proof fn law_payments_go_through(
    contract: RentSchedule,
    deal: Seq<char>,
    number: u32,
    amount: i128,
    i: int,
)
    requires
        contract.paused != Some(true),
        contract.config is Some,
        stands_at(contract, deal, number, i),
    ensures
        ({
            let inst = contract.schedules@[deal]@[i];
            let owed = inst.amount_due - inst.amount_paid;
            let done = inst.status == InstalmentStatus::Paid || inst.status
                == InstalmentStatus::Waived;
            let abort = contract.record_payment_abort(deal, number, amount);
            &&& 0 <= inst.amount_paid <= inst.amount_due ==> (abort is None <==> !done && 0 < amount
                <= owed)
            &&& amount <= 0 ==> abort == Some("InvalidAmount")
            &&& amount > 0 && done ==> abort == Some("InvalidStatus")
            &&& amount > 0 && !done && !(i128::MIN <= owed <= i128::MAX) ==> abort == Some(
                "attempt to subtract with overflow",
            )
            &&& amount > 0 && !done && i128::MIN <= owed <= i128::MAX && amount > owed ==> abort
                == Some("Overpayment")
            &&& amount > 0 && !done && i128::MIN <= owed <= i128::MAX && amount <= owed ==> abort
                is None
        }),
{
    law_instalments_are_found(contract, deal, number, i);
}

/// On a running contract, the admin and the operator can mark every instalment
/// overdue that is neither paid nor waived and of which something is owed, and
/// the admin can waive every one that is neither paid nor waived.
pub proof fn law_staff_goes_through(
    contract: RentSchedule,
    caller: Address,
    deal: Seq<char>,
    number: u32,
    i: int,
)
    requires
        contract.paused != Some(true),
        contract.config is Some,
        stands_at(contract, deal, number, i),
    ensures
        ({
            let cfg = contract.config->0;
            let inst = contract.schedules@[deal]@[i];
            let owed = inst.amount_due - inst.amount_paid;
            let fits = i128::MIN <= owed <= i128::MAX;
            let paid = inst.status == InstalmentStatus::Paid;
            let waived = inst.status == InstalmentStatus::Waived;
            let staff = caller == cfg.admin || caller == cfg.operator;
            let mark = contract.mark_overdue_abort(caller, deal, number);
            let waive = contract.waive_instalment_abort(caller, deal, number);
            &&& mark is None <==> staff && !paid && !waived && fits && owed > 0
            &&& !staff ==> mark == Some("NotAuthorized")
            &&& staff && (paid || waived) ==> mark == Some("InvalidStatus")
            &&& staff && !paid && !waived && fits && owed <= 0 ==> mark == Some("InvalidStatus")
            &&& waive is None <==> caller == cfg.admin && !paid && !waived && fits
            &&& caller != cfg.admin ==> waive == Some("NotAuthorized")
            &&& caller == cfg.admin && waived ==> waive == Some("AlreadyWaived")
            &&& caller == cfg.admin && paid ==> waive == Some("InvalidStatus")
            &&& staff && !paid && !waived && !fits ==> mark == Some(
                "attempt to subtract with overflow",
            )
            &&& caller == cfg.admin && !paid && !waived && !fits ==> waive == Some(
                "attempt to subtract with overflow",
            )
        }),
{
    law_instalments_are_found(contract, deal, number, i);
}

/// Before it is set up the contract takes nothing but its setting up, which
/// comes once, and only the admin pauses it and lifts the pause.
pub proof fn law_setting_up(
    contract: RentSchedule,
    caller: Address,
    deal: Seq<char>,
    number: u32,
    amount: i128,
    instalments: Seq<ScheduledInstalment>,
)
    ensures
        contract.init_abort() is None <==> contract.config is None,
        contract.config is Some ==> contract.init_abort() == Some("AlreadyInitialized"),
        contract.config is None ==> contract.admin_abort(caller) == Some("NotInitialized"),
        contract.config matches Some(c) && caller != c.admin ==> contract.admin_abort(caller)
            == Some("NotAuthorized"),
        contract.config matches Some(c) && caller == c.admin ==> contract.admin_abort(caller)
            is None,
        contract.config is None && contract.paused != Some(true) ==> {
            &&& contract.create_schedule_abort(caller, deal, instalments) == Some("NotInitialized")
            &&& contract.record_payment_abort(deal, number, amount) == Some("NotInitialized")
            &&& contract.mark_overdue_abort(caller, deal, number) == Some("NotInitialized")
            &&& contract.waive_instalment_abort(caller, deal, number) == Some("NotInitialized")
        },
        contract.paused_now() <==> contract.paused == Some(true),
        contract.paused == Some(true) ==> {
            &&& contract.create_schedule_abort(caller, deal, instalments) == Some("ContractPaused")
            &&& contract.record_payment_abort(deal, number, amount) == Some("ContractPaused")
            &&& contract.mark_overdue_abort(caller, deal, number) == Some("ContractPaused")
            &&& contract.waive_instalment_abort(caller, deal, number) == Some("ContractPaused")
        },
{
}

/// On a running contract, the admin and the operator can make the schedule of
/// every deal that has none, as long as what is due can be added up.
pub proof fn law_schedules_are_made(
    contract: RentSchedule,
    caller: Address,
    deal: Seq<char>,
    instalments: Seq<ScheduledInstalment>,
)
    requires
        contract.paused != Some(true),
        contract.config is Some,
    ensures
        ({
            let cfg = contract.config->0;
            let staff = caller == cfg.admin || caller == cfg.operator;
            let taken = contract.schedules@.dom().contains(deal);
            let fits = forall|n: int|
                0 <= n <= instalments.len() ==> i128::MIN <= #[trigger] due(instalments.take(n))
                    <= i128::MAX;
            let abort = contract.create_schedule_abort(caller, deal, instalments);
            &&& abort is None <==> staff && !taken && fits
            &&& !staff ==> abort == Some("NotAuthorized")
            &&& staff && taken ==> abort == Some("ScheduleExists")
            &&& staff && !taken && !fits ==> abort == Some("attempt to add with overflow")
        }),
{
    assert forall|n: int| 0 <= n <= instalments.len() implies #[trigger] due(instalments.take(n))
        == rent_schedule::due_sum(instalments, n as nat) by {
        lemma_due(instalments, n);
    }
    let fits = forall|n: int|
        0 <= n <= instalments.len() ==> i128::MIN <= #[trigger] due(instalments.take(n))
            <= i128::MAX;
    if fits {
        assert forall|n: nat| n <= instalments.len() implies i128::MIN
            <= #[trigger] rent_schedule::due_sum(instalments, n) <= i128::MAX by {
            assert(due(instalments.take(n as int)) == rent_schedule::due_sum(instalments, n));
        }
    }
}

/// What is due over all of these instalments.
pub open spec fn due(instalments: Seq<ScheduledInstalment>) -> int {
    instalments.fold_left(0, |sum: int, inst: ScheduledInstalment| sum + inst.amount_due)
}

proof fn lemma_due(instalments: Seq<ScheduledInstalment>, n: int)
    requires
        0 <= n <= instalments.len(),
    ensures
        due(instalments.take(n)) == rent_schedule::due_sum(instalments, n as nat),
    decreases n,
{
    reveal_with_fuel(Seq::fold_left, 2);
    if n > 0 {
        lemma_due(instalments, n - 1);
        assert(instalments.take(n).drop_last() =~= instalments.take(n - 1));
        assert(instalments.take(n).last() == instalments[n - 1]);
    }
}

/// The amount that a new schedule is announced with is what is due over all its
/// instalments.
pub proof fn law_announced_total(instalments: Seq<ScheduledInstalment>)
    ensures
        rent_schedule::due_sum(instalments, instalments.len()) == due(instalments),
{
    lemma_due(instalments, instalments.len() as int);
    assert(instalments.take(instalments.len() as int) =~= instalments);
}

/// A payment raises what was paid by its amount and leaves its mark; the one
/// that brings it to what is due makes the instalment paid, from any status, and
/// dates it. Nothing else of the instalment changes.
pub proof fn law_payment_is_booked(
    inst: ScheduledInstalment,
    amount: i128,
    tx_id: Bytes32,
    paid_at: u64,
)
    requires
        0 < amount <= inst.amount_due - inst.amount_paid,
    ensures
        ({
            let after = inst.with_payment(amount, tx_id, paid_at);
            &&& after.amount_paid == inst.amount_paid + amount
            &&& after.remaining() == inst.remaining() - amount
            &&& after.remaining() == inst.amount_due - inst.amount_paid - amount
            &&& after.last_tx_id == Some(tx_id)
            &&& amount == inst.amount_due - inst.amount_paid ==> after.status
                == InstalmentStatus::Paid && after.paid_at == Some(paid_at)
            &&& amount < inst.amount_due - inst.amount_paid ==> after.status == inst.status
                && after.paid_at == inst.paid_at
            &&& after.instalment_number == inst.instalment_number
            &&& after.due_timestamp == inst.due_timestamp
            &&& after.amount_due == inst.amount_due
        }),
{
}

/// A mark or a waiver changes the status and nothing else.
pub proof fn law_status_is_all_that_changes(inst: ScheduledInstalment, status: InstalmentStatus)
    ensures
        inst.with_status(status).status == status,
        inst.with_status(status).instalment_number == inst.instalment_number,
        inst.with_status(status).due_timestamp == inst.due_timestamp,
        inst.with_status(status).amount_due == inst.amount_due,
        inst.with_status(status).amount_paid == inst.amount_paid,
        inst.with_status(status).paid_at == inst.paid_at,
        inst.with_status(status).last_tx_id == inst.last_tx_id,
        inst.remaining() == inst.amount_due - inst.amount_paid,
{
}

/// An operation on an instalment puts the new one where the old one stood, and
/// leaves every other instalment and every other deal as they were.
pub proof fn law_one_instalment_changes(
    contract: RentSchedule,
    deal: Seq<char>,
    number: u32,
    inst: ScheduledInstalment,
    i: int,
    other: Seq<char>,
)
    requires
        stands_at(contract, deal, number, i),
    ensures
        ({
            let after = contract.deals_with(deal, number, inst);
            let before = contract.schedules@;
            &&& after.dom().contains(deal)
            &&& after[deal].len() == before[deal]@.len()
            &&& after[deal][i] == inst
            &&& forall|j: int|
                0 <= j < before[deal]@.len() && j != i ==> #[trigger] after[deal][j]
                    == before[deal]@[j]
            &&& other != deal ==> after.dom().contains(other) == before.dom().contains(other)
            &&& other != deal && before.dom().contains(other) ==> after[other] == before[other]@
        }),
{
    law_instalments_are_found(contract, deal, number, i);
}

/// An instalment that was marked overdue and then paid in full, at once or in
/// two parts, is paid; so is one that was never marked.
pub proof fn law_late_payment_settles(
    inst: ScheduledInstalment,
    first: i128,
    second: i128,
    tx_id: Bytes32,
    at: u64,
)
    requires
        0 <= inst.amount_paid <= inst.amount_due,
        0 < first,
        0 < second,
        inst.amount_paid + first + second == inst.amount_due,
    ensures
        ({
            let late = inst.with_status(InstalmentStatus::Overdue);
            let part = late.with_payment(first, tx_id, at);
            let whole = part.with_payment(second, tx_id, at);
            &&& part.status == InstalmentStatus::Overdue
            &&& whole.status == InstalmentStatus::Paid
            &&& whole.amount_paid == whole.amount_due
            &&& whole.remaining() == 0
            &&& late.with_payment((first + second) as i128, tx_id, at) == whole
        }),
{
}

/// What a query answers of an instalment: what it is, and what is owed.
pub proof fn law_owed_is_answered(contract: RentSchedule, deal: Seq<char>, number: u32, i: int)
    requires
        stands_at(contract, deal, number, i),
    ensures
        ({
            let inst = contract.schedules@[deal]@[i];
            &&& contract.instalment(deal, number).remaining() == inst.amount_due - inst.amount_paid
            &&& contract.instalment_remaining_abort(deal, number) is None <==> i128::MIN
                <= inst.amount_due - inst.amount_paid <= i128::MAX
        }),
{
    law_instalments_are_found(contract, deal, number, i);
}

/// A payment is announced as what it is: the last one with what was due, an
/// earlier one with its amount, what was paid so far and what is still owed.
pub proof fn law_payments_are_announced(
    deal_id: String,
    inst: ScheduledInstalment,
    number: u32,
    amount: i128,
    tx_id: Bytes32,
    paid_at: u64,
)
    requires
        0 <= inst.amount_paid,
        0 < amount <= inst.amount_due - inst.amount_paid,
    ensures
        ({
            let announced = rent_schedule::payment_event(
                deal_id,
                inst,
                inst.with_payment(amount, tx_id, paid_at),
                number,
                amount,
                tx_id,
            );
            let paid = (inst.amount_paid + amount) as i128;
            let owed = (inst.amount_due - inst.amount_paid - amount) as i128;
            &&& owed == 0 ==> announced == (Event {
                topics: Topics::Three(
                    Value::Symbol("rent_schedule"),
                    Value::Symbol("instalment_paid"),
                    Value::Text(deal_id),
                ),
                data: Data::Three(
                    Value::U32(number),
                    Value::I128(inst.amount_due),
                    Value::Bytes(tx_id),
                ),
            })
            &&& owed > 0 ==> announced == (Event {
                topics: Topics::Three(
                    Value::Symbol("rent_schedule"),
                    Value::Symbol("partial_payment_recorded"),
                    Value::Text(deal_id),
                ),
                data: Data::Five(
                    Value::U32(number),
                    Value::I128(amount),
                    Value::I128(paid),
                    Value::I128(owed),
                    Value::Bytes(tx_id),
                ),
            })
        }),
{
}

/// A waiver is on record with who gave it, why and when, and with all that was
/// still owed.
pub proof fn law_waivers_are_recorded(
    inst: ScheduledInstalment,
    actor: Address,
    reason: WaiverReason,
    now: u64,
)
    requires
        i128::MIN <= inst.amount_due - inst.amount_paid <= i128::MAX,
    ensures
        ({
            let audit = rent_schedule::waiver_of(inst, actor, reason, now);
            &&& audit.actor == actor
            &&& audit.reason == reason
            &&& audit.waived_at == now
            &&& audit.amount_waived == inst.amount_due - inst.amount_paid
        }),
{
}

/// Events bear the name of the contract first, then their own, then the deal.
pub proof fn law_events_are_named(name: &'static str, deal_id: String, data: Data)
    ensures
        rent_schedule::event(name) == (Event {
            topics: Topics::Two(Value::Symbol("rent_schedule"), Value::Symbol(name)),
            data: Data::Unit,
        }),
        rent_schedule::deal_event(name, deal_id, data) == (Event {
            topics: Topics::Three(
                Value::Symbol("rent_schedule"),
                Value::Symbol(name),
                Value::Text(deal_id),
            ),
            data,
        }),
{
}

/// Different reasons of a waiver are told apart by their numbers, which are
/// fixed.
pub proof fn law_reasons_are_told_apart(a: WaiverReason, b: WaiverReason)
    ensures
        a.code_of() == b.code_of() ==> a == b,
        1 <= a.code_of() <= 4,
        WaiverReason::Hardship.code_of() < WaiverReason::DisputeResolved.code_of()
            < WaiverReason::AdminAdjustment.code_of() < WaiverReason::Promotional.code_of(),
{
}

/// The answer to a query for a schedule lists each instalment as often as the
/// schedule does, numbers going up; instalments of one number keep their order.
pub proof fn law_schedule_is_listed_in_order(
    listed: Seq<ScheduledInstalment>,
    schedule: Seq<ScheduledInstalment>,
    number: u32,
)
    requires
        rent_schedule::sorts(listed, schedule),
    ensures
        forall|i: int, j: int|
            0 <= i < j < listed.len() ==> (#[trigger] listed[i]).instalment_number <= (
            #[trigger] listed[j]).instalment_number,
        listed.len() == schedule.len(),
        listed.to_multiset() == schedule.to_multiset(),
        listed.filter(|inst: ScheduledInstalment| inst.instalment_number == number)
            == schedule.filter(|inst: ScheduledInstalment| inst.instalment_number == number),
{
    assert(rent_schedule::bearing(listed, number) =~= rent_schedule::bearing(schedule, number));
}

} // verus!
