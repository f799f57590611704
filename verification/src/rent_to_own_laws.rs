//! What holds of rent-to-own deals in every state.

use vstd::prelude::*;

use crate::access_control::PausableError;
use crate::host::{Action, Data, Event, Topics, Value};
use crate::rent_to_own;
use crate::rent_to_own::{
    ContractError, DealStatus, DealsView, DefaultSettlementRecord, RentToOwn, RentToOwnDeal,
};
use crate::upgrade_governance::{UpgradeGovernance, UpgradeGovernanceError};
use crate::value::{Address, Bytes32};

verus! {

/// The contract runs, and the caller is its admin.
pub open spec fn may_enter(v: DealsView, caller: Address) -> bool {
    v.paused != Some(true) && v.governance.admin == Some(caller)
}

/// The forfeited part is the stated share of the equity at every rate, to the
/// last whole unit: as much of it as the rate covers, and not one unit less. A
/// debt is split as the same amount of equity is.
pub proof fn law_forfeited_part_is_the_share(equity: i128, forfeiture_bps: u32)
    requires
        equity >= 0,
    ensures
        ({
            let forfeited = rent_to_own::forfeited_part(equity, forfeiture_bps);
            &&& forfeited * 10_000 <= equity * forfeiture_bps < (forfeited + 1) * 10_000
            &&& 0 <= forfeited
            &&& forfeiture_bps <= 10_000 ==> forfeited <= equity
            &&& rent_to_own::forfeited_part((-equity) as i128, forfeiture_bps) == -forfeited
        }),
{
    assert(0 <= equity * forfeiture_bps) by (nonlinear_arith)
        requires
            equity >= 0,
            0 <= forfeiture_bps,
    ;
    assert(forfeiture_bps <= 10_000 ==> equity * forfeiture_bps <= equity * 10_000) by (
        nonlinear_arith)
        requires
            equity >= 0,
    ;
    assert((-equity) * forfeiture_bps == -(equity * forfeiture_bps)) by (nonlinear_arith);
}

/// The contract as callers see it is what is stored.
pub proof fn law_view(contract: RentToOwn)
    ensures
        contract@.governance == contract.governance,
        contract@.paused == contract.paused,
        contract@.forfeiture_bps == contract.forfeiture_bps,
        contract@.deals == contract.deals@,
        contract@.payments == contract.payments@,
        contract@.settlements == contract.settlements@,
{
}

/// A higher rate never forfeits less, nor does more equity, and what is forfeited
/// of two amounts is, to one unit, what is forfeited of their sum.
pub proof fn law_forfeiture_grows(equity: i128, more: i128, rate: u32, higher: u32)
    requires
        0 <= equity,
        0 <= more,
        equity + more <= i128::MAX,
        rate <= higher <= 10_000,
    ensures
        ({
            let sum = (equity + more) as i128;
            let part = rent_to_own::forfeited_part(equity, rate);
            let rest = rent_to_own::forfeited_part(more, rate);
            let whole = rent_to_own::forfeited_part(sum, rate);
            &&& part <= rent_to_own::forfeited_part(equity, higher)
            &&& part <= whole
            &&& part + rest <= whole <= part + rest + 1
        }),
{
    let sum = (equity + more) as i128;
    law_forfeited_part_is_the_share(equity, rate);
    law_forfeited_part_is_the_share(equity, higher);
    law_forfeited_part_is_the_share(more, rate);
    law_forfeited_part_is_the_share(sum, rate);
    assert(equity * rate <= equity * higher) by (nonlinear_arith)
        requires
            0 <= equity,
            rate <= higher,
    ;
    assert(sum * rate == equity * rate + more * rate && more * rate >= 0) by (nonlinear_arith)
        requires
            sum == equity + more,
            0 <= more,
            0 <= rate,
    ;
}

/// What a default entitles to is, in two parts that make up the equity of the
/// deal, the share that the configured rate forfeits, none where no rate was
/// configured, and the rest; it is not settled yet.
pub proof fn law_default_splits_the_equity(v: DealsView, id: Bytes32)
    requires
        v.deals[id].equity_accumulated_usdc >= 0,
        v.forfeiture_bps matches Some(rate) ==> rate <= 10_000,
    ensures
        ({
            let equity = v.deals[id].equity_accumulated_usdc as int;
            let rate = match v.forfeiture_bps {
                Some(rate) => rate as int,
                None => 0,
            };
            let split = v.entitlement(id);
            &&& split.refundable_usdc + split.forfeited_usdc == equity
            &&& split.forfeited_usdc * 10_000 <= equity * rate < (split.forfeited_usdc + 1) * 10_000
            &&& 0 <= split.forfeited_usdc <= equity
            &&& 0 <= split.refundable_usdc <= equity
            &&& !split.settled
        }),
{
    law_forfeited_part_is_the_share(v.deals[id].equity_accumulated_usdc, v.forfeiture());
}

/// The contract is set up once, at any rate up to the whole.
pub proof fn law_setting_up(v: DealsView, forfeiture_bps: u32)
    ensures
        v.init_outcome(forfeiture_bps) is Ok <==> v.governance.admin is None && forfeiture_bps
            <= 10_000,
        v.governance.admin is Some ==> v.init_outcome(forfeiture_bps) == Err::<(), _>(
            ContractError::AlreadyInitialized,
        ),
        v.governance.admin is None && forfeiture_bps > 10_000 ==> v.init_outcome(forfeiture_bps)
            == Err::<(), _>(ContractError::InvalidAmount),
        v.forfeiture_bps matches Some(rate) ==> v.forfeiture() == rate,
        v.forfeiture_bps is None ==> v.forfeiture() == 0,
{
}

/// Who gets in: the admin of a contract that runs; a paused one says so to
/// everybody, and to nobody asks for an authorisation.
pub proof fn law_entry(v: DealsView, caller: Address)
    ensures
        v.entry(caller) is Ok <==> may_enter(v, caller),
        v.paused == Some(true) ==> v.entry(caller) == Err::<(), _>(ContractError::Paused),
        v.paused != Some(true) && v.governance.admin != Some(caller) ==> v.entry(caller) == Err::<
            (),
            _,
        >(ContractError::NotAuthorized),
        v.paused == Some(true) ==> v.entry_actions(caller).len() == 0,
        v.paused != Some(true) ==> v.entry_actions(caller) =~= seq![Action::RequireAuth(caller)],
        v.entry_abort() is None <==> v.paused == Some(true) || v.governance.admin is Some,
        v.entry_abort() is Some ==> v.entry_abort() == Some("not init"),
        v.admin_abort() is None <==> v.governance.admin is Some,
        v.admin_abort() is Some ==> v.admin_abort() == Some("not init"),
        v.is_paused() <==> v.paused == Some(true),
        v.pause_outcome(caller) is Ok <==> v.governance.admin == Some(caller),
        v.governance.admin != Some(caller) ==> v.pause_outcome(caller) == Err::<(), _>(
            PausableError::NotAuthorized,
        ),
{
}

/// A refusal on entry is the answer of every operation.
pub proof fn law_refused_on_entry(
    v: DealsView,
    caller: Address,
    id: Bytes32,
    value: i128,
    monthly: i128,
    rent: i128,
    equity: i128,
    from: Address,
    to: Address,
)
    requires
        !may_enter(v, caller),
    ensures
        ({
            let e = if v.paused == Some(true) {
                ContractError::Paused
            } else {
                ContractError::NotAuthorized
            };
            &&& v.register_outcome(caller, id, value, monthly) == Err::<(), _>(e)
            &&& v.payment_outcome(caller, id, rent, equity) == Err::<(), _>(e)
            &&& v.complete_outcome(caller, id) == Err::<(), _>(e)
            &&& v.default_outcome(caller, id) == Err::<(), _>(e)
            &&& v.settle_outcome(caller, id) == Err::<DefaultSettlementRecord, _>(e)
            &&& v.transfer_outcome(caller, from, to, id) == Err::<(), _>(e)
            &&& v.cancel_outcome(caller) == Err::<(), _>(e)
        }),
{
}

/// Every deal that is not there yet can be registered, for a property of any
/// value that is not negative and a positive monthly part.
pub proof fn law_registrations_go_through(
    v: DealsView,
    admin: Address,
    id: Bytes32,
    value: i128,
    monthly: i128,
)
    requires
        may_enter(v, admin),
    ensures
        ({
            let answer = v.register_outcome(admin, id, value, monthly);
            &&& answer is Ok <==> value >= 0 && monthly > 0 && !v.deals.dom().contains(id)
            &&& value < 0 || monthly <= 0 ==> answer == Err::<(), _>(ContractError::InvalidAmount)
            &&& value >= 0 && monthly > 0 && v.deals.dom().contains(id) ==> answer == Err::<(), _>(
                ContractError::DealAlreadyExists,
            )
        }),
{
}

/// A deal that was registered is the one that was asked for, active, with no
/// equity and no payment; it takes a first payment of up to the whole value, and
/// where no payments were agreed on it can be completed at once.
pub proof fn law_fresh_deals(
    v: DealsView,
    admin: Address,
    id: Bytes32,
    tenant: Address,
    value: i128,
    monthly: i128,
    required: u32,
    rent: i128,
    equity: i128,
)
    requires
        may_enter(v, admin),
        v.register_outcome(admin, id, value, monthly) is Ok,
    ensures
        ({
            let deal = RentToOwnDeal::fresh(id, tenant, value, monthly, required);
            let after = v.with_deal(id, deal);
            &&& deal.deal_id == id
            &&& deal.tenant == tenant
            &&& deal.property_value_usdc == value
            &&& deal.monthly_equity_usdc == monthly
            &&& deal.total_payments_required == required
            &&& deal.equity_accumulated_usdc == 0
            &&& deal.payments_made == 0
            &&& deal.status == DealStatus::Active
            &&& rent > 0 && rent + equity <= i128::MAX ==> (after.payment_outcome(
                admin,
                id,
                rent,
                equity,
            ) is Ok <==> 0 < equity <= value)
            &&& after.complete_outcome(admin, id) is Ok <==> required == 0
        }),
{
}

/// An active deal takes every payment of positive parts that keeps the equity
/// within the value of the property, whatever was paid before and however many
/// payments were agreed on.
pub proof fn law_payments_go_through(
    v: DealsView,
    admin: Address,
    id: Bytes32,
    rent: i128,
    equity: i128,
)
    requires
        may_enter(v, admin),
    ensures
        ({
            let found = v.deals.dom().contains(id);
            let deal = v.deals[id];
            let active = found && deal.status == DealStatus::Active;
            let sum = deal.equity_accumulated_usdc + equity;
            let positive = rent > 0 && equity > 0;
            let fits = rent + equity <= i128::MAX && sum <= i128::MAX;
            let answer = v.payment_outcome(admin, id, rent, equity);
            let abort = v.payment_abort(admin, id, rent, equity);
            &&& answer is Ok <==> positive && active && fits && sum <= deal.property_value_usdc
            &&& !positive ==> answer == Err::<(), _>(ContractError::InvalidAmount)
            &&& positive && !found ==> answer == Err::<(), _>(ContractError::DealNotFound)
            &&& positive && found && !active ==> answer == Err::<(), _>(
                ContractError::DealNotActive,
            )
            &&& positive && active && !fits ==> answer == Err::<(), _>(
                ContractError::AmountOverflow,
            )
            &&& positive && active && fits && sum > deal.property_value_usdc ==> answer == Err::<
                (),
                _,
            >(ContractError::EquityOverflow)
            &&& abort is None <==> !(answer is Ok && deal.payments_made == u32::MAX)
            &&& abort is Some ==> abort == Some("attempt to add with overflow")
        }),
{
}

/// A payment adds its equity part to the equity of the deal, counts as one, and
/// is kept under the deal and its number; nothing else of the deal changes, and
/// no other deal, payment or setting does.
pub proof fn law_payment_is_booked(
    v: DealsView,
    id: Bytes32,
    rent: i128,
    equity: i128,
    now: u64,
    other: Bytes32,
    key: (Bytes32, u32),
)
    requires
        v.deals[id].equity_accumulated_usdc + equity <= i128::MAX,
        0 < equity,
        v.deals[id].payments_made < u32::MAX,
    ensures
        ({
            let before = v.deals[id];
            let next = v.with_payment(id, rent, equity, now);
            let after = next.deals[id];
            let number = (before.payments_made + 1) as u32;
            let kept = next.payments[(id, number)];
            &&& next.deals.dom().contains(id)
            &&& after.equity_accumulated_usdc == before.equity_accumulated_usdc + equity
            &&& after.payments_made == before.payments_made + 1
            &&& after.deal_id == before.deal_id
            &&& after.tenant == before.tenant
            &&& after.property_value_usdc == before.property_value_usdc
            &&& after.monthly_equity_usdc == before.monthly_equity_usdc
            &&& after.total_payments_required == before.total_payments_required
            &&& after.status == before.status
            &&& next.payments.dom().contains((id, number))
            &&& kept.deal_id == id
            &&& kept.payment_number == number
            &&& kept.equity_amount == equity
            &&& kept.total_rent_amount == rent
            &&& kept.paid_at == now
            &&& other != id ==> next.deals.dom().contains(other) == v.deals.dom().contains(other)
            &&& other != id && v.deals.dom().contains(other) ==> next.deals[other] == v.deals[other]
            &&& key != (id, number) ==> next.payments.dom().contains(key)
                == v.payments.dom().contains(key)
            &&& key != (id, number) && v.payments.dom().contains(key) ==> next.payments[key]
                == v.payments[key]
            &&& next.settlements == v.settlements
            &&& next.governance == v.governance
            &&& next.paused == v.paused
            &&& next.forfeiture_bps == v.forfeiture_bps
        }),
{
}

/// A deal can be completed exactly if it is active and all agreed payments were
/// made, and defaulted exactly if it is active, short of amounts that the split
/// cannot be worked out for.
pub proof fn law_deals_can_be_closed(v: DealsView, admin: Address, id: Bytes32)
    requires
        may_enter(v, admin),
    ensures
        ({
            let found = v.deals.dom().contains(id);
            let deal = v.deals[id];
            let active = found && deal.status == DealStatus::Active;
            let rate = match v.forfeiture_bps {
                Some(rate) => rate as int,
                None => 0,
            };
            let product = deal.equity_accumulated_usdc * rate;
            let complete = v.complete_outcome(admin, id);
            let default = v.default_outcome(admin, id);
            &&& complete is Ok <==> active && deal.payments_made == deal.total_payments_required
            &&& default is Ok <==> active && i128::MIN <= product <= i128::MAX
            &&& !found ==> complete == Err::<(), _>(ContractError::DealNotFound) && default == Err::<
                (),
                _,
            >(ContractError::DealNotFound)
            &&& found && !active ==> complete == Err::<(), _>(ContractError::DealNotActive)
                && default == Err::<(), _>(ContractError::DealNotActive)
            &&& active && deal.payments_made != deal.total_payments_required ==> complete == Err::<
                (),
                _,
            >(ContractError::PaymentsNotComplete)
            &&& active && !(i128::MIN <= product <= i128::MAX) ==> default == Err::<(), _>(
                ContractError::AmountOverflow,
            )
        }),
{
}

/// A default can be settled exactly if the deal defaulted and was not settled;
/// the answer is the split that was stored at the default, now settled.
pub proof fn law_settlements_go_through(v: DealsView, admin: Address, id: Bytes32)
    requires
        may_enter(v, admin),
    ensures
        ({
            let found = v.deals.dom().contains(id);
            let defaulted = found && v.deals[id].status == DealStatus::Defaulted;
            let stored = v.settlements.dom().contains(id);
            let answer = v.settle_outcome(admin, id);
            &&& answer is Ok <==> defaulted && stored && !v.settlements[id].settled
            &&& answer matches Ok(s) ==> s.settled && s.refundable_usdc
                == v.settlements[id].refundable_usdc && s.forfeited_usdc
                == v.settlements[id].forfeited_usdc
            &&& !found ==> answer == Err::<DefaultSettlementRecord, _>(ContractError::DealNotFound)
            &&& found && !defaulted ==> answer == Err::<DefaultSettlementRecord, _>(
                ContractError::DealNotDefaulted,
            )
            &&& defaulted && !stored ==> answer == Err::<DefaultSettlementRecord, _>(
                ContractError::SettlementNotFound,
            )
            &&& defaulted && stored && v.settlements[id].settled ==> answer == Err::<
                DefaultSettlementRecord,
                _,
            >(ContractError::AlreadySettled)
        }),
{
}

/// From default to settlement: a deal that can default, does, and is settled
/// then pays out the split of its equity at the time of the default, once, and
/// keeps that equity on record.
pub proof fn law_default_then_settle(v: DealsView, admin: Address, id: Bytes32)
    requires
        may_enter(v, admin),
        v.deals.dom().contains(id),
        v.deals[id].status == DealStatus::Active,
        v.deals[id].equity_accumulated_usdc >= 0,
        v.forfeiture_bps matches Some(rate) ==> rate <= 10_000 && v.deals[id].equity_accumulated_usdc
            * rate <= i128::MAX,
    ensures
        v.default_outcome(admin, id) is Ok,
        ({
            let equity = v.deals[id].equity_accumulated_usdc as int;
            let rate = match v.forfeiture_bps {
                Some(rate) => rate as int,
                None => 0,
            };
            let defaulted = v.with_deal(
                id,
                v.deals[id].with_status(DealStatus::Defaulted),
            ).with_settlement(id, v.entitlement(id));
            let answer = defaulted.settle_outcome(admin, id);
            let settled = defaulted.with_settlement(id, answer->Ok_0);
            &&& answer matches Ok(s) && s.refundable_usdc + s.forfeited_usdc == equity
                && s.forfeited_usdc * 10_000 <= equity * rate < (s.forfeited_usdc + 1) * 10_000
            &&& settled.deals[id].equity_accumulated_usdc == equity
            &&& settled.deals[id].status == DealStatus::Defaulted
            &&& settled.settlements[id].settled
            &&& settled.settle_outcome(admin, id) == Err::<DefaultSettlementRecord, _>(
                ContractError::AlreadySettled,
            )
        }),
{
    law_default_splits_the_equity(v, id);
    if let Some(rate) = v.forfeiture_bps {
        assert(0 <= v.deals[id].equity_accumulated_usdc * rate) by (nonlinear_arith)
            requires
                v.deals[id].equity_accumulated_usdc >= 0,
                rate >= 0,
        ;
    }
}

/// The tenant of an active deal can hand it to anybody else, with the admin.
pub proof fn law_transfers_go_through(
    v: DealsView,
    admin: Address,
    from: Address,
    to: Address,
    id: Bytes32,
)
    requires
        may_enter(v, admin),
    ensures
        ({
            let found = v.deals.dom().contains(id);
            let deal = v.deals[id];
            let answer = v.transfer_outcome(admin, from, to, id);
            &&& answer is Ok <==> found && deal.tenant == from && deal.status == DealStatus::Active
                && to != from
            &&& !found ==> answer == Err::<(), _>(ContractError::DealNotFound)
            &&& found && deal.tenant != from ==> answer == Err::<(), _>(
                ContractError::NotAuthorized,
            )
            &&& found && deal.tenant == from && (deal.status != DealStatus::Active || to == from)
                ==> answer == Err::<(), _>(ContractError::InvalidTransfer)
            &&& v.transfer_auths(admin, from) =~= seq![
                Action::RequireAuth(admin),
                Action::RequireAuth(from),
            ]
        }),
{
}

/// What a transfer asks for where the caller does not get in: no more than
/// entering does.
pub proof fn law_refused_transfers_ask_no_tenant(v: DealsView, caller: Address, from: Address)
    requires
        !may_enter(v, caller),
    ensures
        v.transfer_auths(caller, from) =~= v.entry_actions(caller),
{
}

/// The share of a deal is its equity in basis points of the value, to the last
/// whole point; a deal that is not there or is worth nothing has none.
pub proof fn law_percentage_is_the_share(v: DealsView, id: Bytes32)
    requires
        v.deals.dom().contains(id) ==> 0 <= v.deals[id].equity_accumulated_usdc && 0
            <= v.deals[id].property_value_usdc,
    ensures
        ({
            let equity = v.deals[id].equity_accumulated_usdc as int;
            let value = v.deals[id].property_value_usdc as int;
            let found = v.deals.dom().contains(id);
            let bps = v.equity_bps(id);
            &&& !found || value == 0 ==> bps == 0
            &&& found && value > 0 ==> bps * value <= equity * 10_000 < (bps + 1) * value
            &&& found && value > 0 && equity == value ==> bps == 10_000
            &&& 0 <= bps
            &&& found && equity <= value ==> bps <= 10_000
            &&& v.percentage_abort(id) is None <==> !found || value == 0 || equity * 10_000
                <= i128::MAX
            &&& v.percentage_abort(id) is Some ==> v.percentage_abort(id) == Some(
                "attempt to multiply with overflow",
            )
        }),
{
    if v.deals.dom().contains(id) && v.deals[id].property_value_usdc != 0 {
        let equity = v.deals[id].equity_accumulated_usdc as int;
        let value = v.deals[id].property_value_usdc as int;
        let q = (equity * 10_000) / value;
        assert(q * value <= equity * 10_000 < (q + 1) * value && 0 <= q && (equity <= value ==> q
            <= 10_000) && (equity == value ==> q == 10_000)) by (nonlinear_arith)
            requires
                0 <= equity,
                0 < value,
                q == (equity * 10_000) / value,
        ;
    }
}

/// Writing a deal, a settlement or governance changes that and nothing else.
pub proof fn law_one_record_changes(
    v: DealsView,
    id: Bytes32,
    deal: RentToOwnDeal,
    settlement: DefaultSettlementRecord,
    governance: UpgradeGovernance,
    status: DealStatus,
    other: Bytes32,
)
    ensures
        ({
            let after = v.with_deal(id, deal);
            &&& after.deals.dom().contains(id) && after.deals[id] == deal
            &&& other != id ==> after.deals.dom().contains(other) == v.deals.dom().contains(other)
            &&& other != id && v.deals.dom().contains(other) ==> after.deals[other]
                == v.deals[other]
            &&& after == (DealsView { deals: after.deals, ..v })
        }),
        ({
            let after = v.with_settlement(id, settlement);
            &&& after.settlements.dom().contains(id) && after.settlements[id] == settlement
            &&& other != id ==> after.settlements.dom().contains(other)
                == v.settlements.dom().contains(other)
            &&& other != id && v.settlements.dom().contains(other) ==> after.settlements[other]
                == v.settlements[other]
            &&& after == (DealsView { settlements: after.settlements, ..v })
        }),
        v.with_governance(governance) == (DealsView { governance, ..v }),
        deal.with_status(status) == (RentToOwnDeal { status, ..deal }),
{
}

/// A proposal can be taken back exactly if there is one.
pub proof fn law_cancellations_go_through(v: DealsView, admin: Address)
    requires
        may_enter(v, admin),
    ensures
        v.cancel_outcome(admin) is Ok <==> v.governance.pending_upgrade_hash is Some,
        v.governance.pending_upgrade_hash is None ==> v.cancel_outcome(admin) == Err::<(), _>(
            ContractError::NoUpgradePending,
        ),
{
}

/// A running contract passes on what governance answers, does and asks for; its
/// refusals are reported by their kind.
pub proof fn law_governance_is_passed_on(
    v: DealsView,
    answer: Result<(), UpgradeGovernanceError>,
    next: UpgradeGovernance,
    actions: Seq<Action>,
    abort: Option<&'static str>,
)
    requires
        v.paused != Some(true),
    ensures
        v.governed(answer) is Ok <==> answer is Ok,
        answer == Err::<(), _>(UpgradeGovernanceError::UpgradeAlreadyPending) ==> v.governed(answer)
            == Err::<(), _>(ContractError::UpgradeAlreadyPending),
        answer == Err::<(), _>(UpgradeGovernanceError::NoPendingUpgrade) ==> v.governed(answer)
            == Err::<(), _>(ContractError::NoUpgradePending),
        answer == Err::<(), _>(UpgradeGovernanceError::UpgradeDelayNotElapsed) ==> v.governed(
            answer,
        ) == Err::<(), _>(ContractError::UpgradeDelayNotMet),
        answer matches Err(e) && (e == UpgradeGovernanceError::NotAuthorized || e
            == UpgradeGovernanceError::GuardianNotConfigured || e
            == UpgradeGovernanceError::InvalidUpgradeVersion || e
            == UpgradeGovernanceError::IncompatibleSchemaVersion) ==> v.governed(answer) == Err::<
            (),
            _,
        >(ContractError::NotAuthorized),
        v.governed_next(next) == (DealsView { governance: next, ..v }),
        v.governed_actions(actions) == actions,
        v.governed_abort(abort) == abort,
{
}

/// Events bear the name of the contract first, then their own; those of the
/// pause bear the name of the pause.
pub proof fn law_events_are_named(name: &'static str, data: Data, admin: Address)
    ensures
        rent_to_own::event(name, data) == (Event {
            topics: Topics::Two(Value::Symbol("rent_to_own"), Value::Symbol(name)),
            data,
        }),
        rent_to_own::pausable_event(name, admin) == (Event {
            topics: Topics::Two(Value::Symbol("Pausable"), Value::Symbol(name)),
            data: Data::One(Value::Address(admin)),
        }),
{
}

/// Errors are told apart by their numbers.
pub proof fn law_errors_are_told_apart(a: ContractError, b: ContractError)
    ensures
        a.code_of() == b.code_of() ==> a == b,
        1 <= a.code_of() <= 17,
{
}

} // verus!
