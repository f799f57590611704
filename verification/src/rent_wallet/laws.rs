//! What holds of wallets in every state.

use vstd::prelude::*;

use crate::access_control::PausableError;
use crate::host::{Data, Event, Topics, Value};
use crate::rent_wallet;
use crate::rent_wallet::monthly_cap;
use crate::rent_wallet::validation;
use crate::rent_wallet::{ContractError, RentWallet, WalletView};
use crate::upgrade_governance;
use crate::upgrade_governance::{UpgradeGovernance, UpgradeGovernanceError};
use crate::value::{Address, Bytes32};

verus! {

/// The wallet runs, and the caller is its admin.
pub open spec fn may_enter(w: WalletView, caller: Address) -> bool {
    w.paused != Some(true) && w.governance.admin == Some(caller)
}

/// What is stored under `user`, or zero.
pub open spec fn money(w: WalletView, user: Address) -> int {
    if w.balances.dom().contains(user) {
        w.balances[user] as int
    } else {
        0
    }
}

/// The limit of `user` per period: their own where one is stored, or else the
/// one for everybody; none where that is zero or was never set.
pub open spec fn limit(w: WalletView, user: Address) -> Option<int> {
    let set = if w.monthly_cap_overrides.dom().contains(user) {
        w.monthly_cap_overrides[user] as int
    } else {
        match w.monthly_cap_default {
            Some(cap) => cap as int,
            None => 0,
        }
    };
    if set == 0 {
        None
    } else {
        Some(set)
    }
}

/// What was counted for `user` in period `month`.
pub open spec fn counted(w: WalletView, user: Address, month: u32) -> int {
    if w.monthly_spent.dom().contains((user, month)) {
        w.monthly_spent[(user, month)] as int
    } else {
        0
    }
}

/// The wallet as callers see it is what is stored.
pub proof fn law_view(wallet: RentWallet)
    ensures
        wallet@.governance == wallet.governance,
        wallet@.paused == wallet.paused,
        wallet@.balances == wallet.balances@,
        wallet@.monthly_cap_default == wallet.monthly_cap_default,
        wallet@.monthly_cap_overrides == wallet.monthly_cap_overrides@,
        wallet@.monthly_spent == wallet.monthly_spent@,
        wallet@.max_amount == wallet.max_amount,
{
}

/// A period is thirty days long, and periods follow one another from the start
/// of time: the number of days that have passed, by thirty.
pub proof fn law_periods_are_thirty_days(now: u64)
    requires
        now < 2_592_000 * 0x1_0000_0000,
    ensures
        monthly_cap::month_key(now) * 30 * 86_400 <= now < (monthly_cap::month_key(now) + 1) * 30
            * 86_400,
{
}

/// Queries answer what is stored: a balance, a cap, what was spent in the period.
pub proof fn law_queries_answer_what_is_stored(w: WalletView, user: Address, now: u64)
    ensures
        w.balance(user) == money(w, user),
        w.spent(user, now) == counted(w, user, monthly_cap::month_key(now)),
        limit(w, user) matches Some(cap) ==> w.cap(user) == cap,
        limit(w, user) is None ==> w.cap(user) == 0,
        w.cap_override(user) is Some <==> w.monthly_cap_overrides.dom().contains(user),
        w.cap_override(user) matches Some(cap) ==> cap == w.monthly_cap_overrides[user],
        w.monthly_cap_default matches Some(cap) ==> w.cap_default() == cap,
        w.monthly_cap_default is None ==> w.cap_default() == 0,
        w.is_paused() <==> w.paused == Some(true),
{
}

/// An amount passes exactly if it is positive and within the largest one.
pub proof fn law_amounts(amount: i128, max_amount: i128)
    ensures
        validation::amount_outcome(amount, max_amount) is Ok <==> 0 < amount <= max_amount,
        amount <= 0 ==> validation::amount_outcome(amount, max_amount) == Err::<(), _>(
            ContractError::InvalidAmount,
        ),
        amount > 0 && amount > max_amount ==> validation::amount_outcome(amount, max_amount)
            == Err::<(), _>(ContractError::AmountTooLarge),
{
}

/// Who gets in: the admin, and only while the wallet runs.
pub proof fn law_entry(w: WalletView, caller: Address)
    ensures
        w.entry_outcome(caller) is Ok <==> may_enter(w, caller),
        w.governance.admin != Some(caller) ==> w.entry_outcome(caller) == Err::<(), _>(
            ContractError::NotAuthorized,
        ),
        w.governance.admin == Some(caller) && w.paused == Some(true) ==> w.entry_outcome(caller)
            == Err::<(), _>(ContractError::Paused),
        w.admin_abort() is None <==> w.governance.admin is Some,
        w.governance.admin is None ==> w.admin_abort() == Some("admin not set"),
        w.pause_outcome(caller) is Ok <==> w.governance.admin == Some(caller),
        w.governance.admin != Some(caller) ==> w.pause_outcome(caller) == Err::<(), _>(
            PausableError::NotAuthorized,
        ),
{
}

/// Every amount from one to the largest can be credited to everybody, whatever
/// they hold, as long as the balance stays a number; nothing else can.
pub proof fn law_credits_go_through(w: WalletView, caller: Address, user: Address, amount: i128)
    ensures
        ({
            let answer = w.credit_outcome(caller, user, amount);
            let within = 0 < amount <= w.max_amount;
            &&& answer is Ok <==> may_enter(w, caller) && within && money(w, user) + amount
                <= i128::MAX
            &&& w.governance.admin != Some(caller) ==> answer == Err::<(), _>(
                ContractError::NotAuthorized,
            )
            &&& w.governance.admin == Some(caller) && w.paused == Some(true) ==> answer == Err::<
                (),
                _,
            >(ContractError::Paused)
            &&& may_enter(w, caller) && amount <= 0 ==> answer == Err::<(), _>(
                ContractError::InvalidAmount,
            )
            &&& may_enter(w, caller) && 0 < amount && amount > w.max_amount ==> answer == Err::<
                (),
                _,
            >(ContractError::AmountTooLarge)
            &&& may_enter(w, caller) && within && money(w, user) + amount > i128::MAX ==> answer
                == Err::<(), _>(ContractError::BalanceOverflow)
        }),
{
}

/// Everything that a user holds can be debited, all of it too, in every amount
/// from one to the largest, as long as the debits of the period stay within the
/// limit, where there is one; nothing else can.
pub proof fn law_debits_go_through(
    w: WalletView,
    caller: Address,
    user: Address,
    amount: i128,
    now: u64,
)
    ensures
        ({
            let answer = w.debit_outcome(caller, user, amount, now);
            let abort = w.debit_abort(caller, user, amount, now);
            let within = 0 < amount <= w.max_amount;
            let covered = amount <= money(w, user);
            let sum = counted(w, user, monthly_cap::month_key(now)) + amount;
            let allowed = limit(w, user) is None || sum <= limit(w, user)->0;
            &&& answer is Ok <==> may_enter(w, caller) && within && covered && allowed
            &&& w.governance.admin != Some(caller) ==> answer == Err::<(), _>(
                ContractError::NotAuthorized,
            )
            &&& w.governance.admin == Some(caller) && w.paused == Some(true) ==> answer == Err::<
                (),
                _,
            >(ContractError::Paused)
            &&& may_enter(w, caller) && amount <= 0 ==> answer == Err::<(), _>(
                ContractError::InvalidAmount,
            )
            &&& may_enter(w, caller) && 0 < amount && amount > w.max_amount ==> answer == Err::<
                (),
                _,
            >(ContractError::AmountTooLarge)
            &&& may_enter(w, caller) && within && !covered ==> answer == Err::<(), _>(
                ContractError::InsufficientBalance,
            )
            &&& may_enter(w, caller) && within && covered && !allowed ==> answer == Err::<(), _>(
                ContractError::MonthlyCapExceeded,
            )
            &&& w.governance.admin is None ==> abort == Some("admin not set")
            &&& w.governance.admin is Some ==> (abort is None <==> !(may_enter(w, caller) && within
                && covered && limit(w, user) is Some && sum > i128::MAX))
        }),
{
}

/// A credit that goes through adds its amount to one balance and does nothing
/// else.
pub proof fn law_credit_is_booked(
    w: WalletView,
    caller: Address,
    user: Address,
    amount: i128,
    other: Address,
)
    ensures
        ({
            let next = w.credit_next(caller, user, amount);
            let done = w.credit_outcome(caller, user, amount) is Ok;
            &&& done ==> money(next, user) == money(w, user) + amount
            &&& done ==> next == (WalletView { balances: next.balances, ..w })
            &&& other != user ==> money(next, other) == money(w, other)
            &&& !done ==> next == w
        }),
{
}

/// A debit that goes through takes its amount from one balance, counts it toward
/// the period of a user with a limit, and does nothing else.
pub proof fn law_debit_is_booked(
    w: WalletView,
    caller: Address,
    user: Address,
    amount: i128,
    now: u64,
    other: Address,
    month: u32,
)
    requires
        w.debit_abort(caller, user, amount, now) is None,
    ensures
        ({
            let next = w.debit_next(caller, user, amount, now);
            let done = w.debit_outcome(caller, user, amount, now) is Ok;
            let here = monthly_cap::month_key(now);
            &&& done ==> money(next, user) == money(w, user) - amount
            &&& done && limit(w, user) is Some ==> counted(next, user, here) == counted(
                w,
                user,
                here,
            ) + amount
            &&& done && limit(w, user) is None ==> next.monthly_spent == w.monthly_spent
            &&& done ==> next == (WalletView {
                balances: next.balances,
                monthly_spent: next.monthly_spent,
                ..w
            })
            &&& other != user ==> money(next, other) == money(w, other)
            &&& (other, month) != (user, here) ==> counted(next, other, month) == counted(
                w,
                other,
                month,
            )
            &&& !done ==> next == w
        }),
{
}

/// What a limit says to a debit on its own: it lets through what keeps the sum of
/// the period within it, and counts just that; without one, nothing is refused or
/// counted.
pub proof fn law_limit_on_its_own(w: WalletView, user: Address, amount: i128, now: u64)
    requires
        amount > 0,
    ensures
        ({
            let month = monthly_cap::month_key(now);
            let sum = counted(w, user, month) + amount;
            let answer = w.cap_outcome(user, amount, now);
            let next = w.with_spent(user, amount, now);
            &&& answer is Ok <==> limit(w, user) is None || sum <= limit(w, user)->0
            &&& answer is Err ==> answer == Err::<(), _>(ContractError::MonthlyCapExceeded)
            &&& w.cap_abort(user, amount, now) is None <==> limit(w, user) is None || sum
                <= i128::MAX
            &&& w.cap_abort(user, amount, now) is Some ==> w.cap_abort(user, amount, now) == Some(
                "attempt to add with overflow",
            )
            &&& limit(w, user) is None ==> next == w
            &&& limit(w, user) is Some && sum <= i128::MAX ==> counted(next, user, month) == sum
            &&& next == (WalletView { monthly_spent: next.monthly_spent, ..w })
        }),
{
}

/// A cap can be set to every amount from zero to the largest.
pub proof fn law_caps_can_be_set(w: WalletView, caller: Address, cap: i128)
    ensures
        ({
            let answer = w.set_cap_outcome(caller, cap);
            &&& answer is Ok <==> may_enter(w, caller) && 0 <= cap <= w.max_amount
            &&& w.governance.admin != Some(caller) ==> answer == Err::<(), _>(
                ContractError::NotAuthorized,
            )
            &&& w.governance.admin == Some(caller) && w.paused == Some(true) ==> answer == Err::<
                (),
                _,
            >(ContractError::Paused)
            &&& may_enter(w, caller) && cap < 0 ==> answer == Err::<(), _>(
                ContractError::InvalidAmount,
            )
            &&& may_enter(w, caller) && cap >= 0 && cap > w.max_amount ==> answer == Err::<(), _>(
                ContractError::AmountTooLarge,
            )
        }),
{
}

/// A limit binds in the period and not beyond: what is left of it can be spent
/// to the last unit, one unit more cannot, and that counts toward no other
/// period.
pub proof fn law_limit_can_be_spent(
    w: WalletView,
    admin: Address,
    user: Address,
    amount: i128,
    now: u64,
)
    requires
        may_enter(w, admin),
        limit(w, user) is Some,
        limit(w, user)->0 > 0,
        0 < amount < w.max_amount,
        amount < money(w, user),
        0 <= counted(w, user, monthly_cap::month_key(now)),
        amount == limit(w, user)->0 - counted(w, user, monthly_cap::month_key(now)),
    ensures
        w.debit_outcome(admin, user, amount, now) is Ok,
        w.debit_outcome(admin, user, (amount + 1) as i128, now) == Err::<(), _>(
            ContractError::MonthlyCapExceeded,
        ),
        forall|later: u64| #[trigger]
            monthly_cap::month_key(later) != monthly_cap::month_key(now) ==> counted(
                w.debit_next(admin, user, amount, now),
                user,
                monthly_cap::month_key(later),
            ) == counted(w, user, monthly_cap::month_key(later)),
{
}

/// A running wallet whose storage layout is that of its version passes on what
/// governance says of a proposal, of its execution, and of an emergency, for
/// which a guardian is mandatory. With another layout nothing is upgraded.
pub proof fn law_upgrades(
    w: WalletView,
    caller: Address,
    hash: Bytes32,
    version: u32,
    now: u64,
)
    requires
        w.paused != Some(true),
    ensures
        ({
            let gov = w.governance;
            let layout = match gov.storage_schema_version {
                Some(v) => v,
                None => 0,
            };
            let running = match gov.contract_version {
                Some(v) => v,
                None => 0,
            };
            let mine = gov.admin == Some(caller);
            let propose = w.propose_outcome(caller, version);
            let execute = w.execute_outcome(caller, hash, now);
            let emergency = w.emergency_outcome(caller, version);
            let asked = upgrade_governance::execute_outcome(gov, caller, hash, now);
            let stopped = Err::<(), _>(ContractError::IncompatibleStateSchema);
            &&& w.schema_matches() <==> layout == running
            &&& propose is Ok <==> layout == running && upgrade_governance::propose_outcome(
                gov,
                caller,
                version,
                Some(layout),
            ) is Ok
            &&& execute is Ok <==> layout == running && asked is Ok
            &&& emergency is Ok <==> layout == running && upgrade_governance::emergency_outcome(
                gov,
                caller,
                version,
                Some(layout),
                true,
            ) is Ok
            &&& layout != running && !(mine && gov.pending_upgrade_hash is Some) ==> propose
                == stopped
            &&& mine && gov.pending_upgrade_hash is Some ==> propose == Err::<(), _>(
                ContractError::UpgradeAlreadyPending,
            )
            &&& layout == running && !mine ==> propose == Err::<(), _>(ContractError::NotAuthorized)
            &&& layout != running && asked is Ok ==> execute == stopped
            &&& asked matches Err(e) ==> execute == Err::<(), _>(rent_wallet::governance_error(e))
            &&& layout != running ==> emergency == stopped
            &&& layout == running ==> emergency == rent_wallet::reported(
                upgrade_governance::emergency_outcome(gov, caller, version, Some(layout), true),
            )
            &&& layout == running ==> propose == rent_wallet::reported(
                upgrade_governance::propose_outcome(gov, caller, version, Some(layout)),
            )
        }),
{
}

/// Whether an upgrade call aborts is what governance says of it, where it gets
/// that far.
pub proof fn law_upgrade_aborts(w: WalletView, caller: Address, hash: Bytes32)
    ensures
        ({
            let gov = w.governance;
            let layout = match gov.storage_schema_version {
                Some(v) => v,
                None => 0,
            };
            let running = match gov.contract_version {
                Some(v) => v,
                None => 0,
            };
            let stopped = layout != running && !(gov.admin == Some(caller)
                && gov.pending_upgrade_hash is Some);
            let paused = w.paused == Some(true);
            &&& paused ==> w.propose_abort(caller) is None && w.execute_abort(caller, hash) is None
                && w.emergency_abort(caller) is None && w.setting_abort() is None
            &&& stopped ==> w.propose_abort(caller) is None
            &&& layout != running ==> w.emergency_abort(caller) is None
            &&& !paused && !stopped ==> w.propose_abort(caller)
                == upgrade_governance::propose_upgrade_abort(gov, caller)
            &&& !paused ==> w.execute_abort(caller, hash)
                == upgrade_governance::execute_upgrade_abort(gov, caller, hash)
            &&& !paused && layout == running ==> w.emergency_abort(caller)
                == upgrade_governance::emergency_upgrade_abort(gov, caller)
            &&& !paused ==> w.setting_abort() == upgrade_governance::admin_abort(gov)
        }),
{
}

/// The admin changes settings and takes a proposal back, where there is one,
/// while the wallet runs; nobody else does.
pub proof fn law_settings(w: WalletView, caller: Address)
    ensures
        w.setting_outcome(caller) is Ok <==> may_enter(w, caller),
        w.paused == Some(true) ==> w.setting_outcome(caller) == Err::<(), _>(ContractError::Paused),
        w.paused != Some(true) && w.governance.admin != Some(caller) ==> w.setting_outcome(caller)
            == Err::<(), _>(ContractError::NotAuthorized),
        w.cancel_outcome(caller) is Ok <==> may_enter(w, caller)
            && w.governance.pending_upgrade_hash is Some,
        w.governance.admin != Some(caller) ==> w.cancel_outcome(caller) == Err::<(), _>(
            ContractError::NotAuthorized,
        ),
        may_enter(w, caller) && w.governance.pending_upgrade_hash is None ==> w.cancel_outcome(
            caller,
        ) == Err::<(), _>(ContractError::NoUpgradePending),
{
}

/// Each refusal of governance is reported by its kind.
pub proof fn law_refusals_are_reported(e: UpgradeGovernanceError)
    ensures
        rent_wallet::reported(Ok(())) == Ok::<(), ContractError>(()),
        rent_wallet::reported(Err(e)) == Err::<(), _>(rent_wallet::governance_error(e)),
        e == UpgradeGovernanceError::UpgradeAlreadyPending ==> rent_wallet::governance_error(e)
            == ContractError::UpgradeAlreadyPending,
        e == UpgradeGovernanceError::NoPendingUpgrade ==> rent_wallet::governance_error(e)
            == ContractError::NoUpgradePending,
        e == UpgradeGovernanceError::UpgradeDelayNotElapsed ==> rent_wallet::governance_error(e)
            == ContractError::UpgradeDelayNotMet,
        e == UpgradeGovernanceError::InvalidUpgradeVersion ==> rent_wallet::governance_error(e)
            == ContractError::InvalidUpgradeVersion,
        e == UpgradeGovernanceError::IncompatibleSchemaVersion ==> rent_wallet::governance_error(e)
            == ContractError::IncompatibleStateSchema,
        e == UpgradeGovernanceError::NotAuthorized || e
            == UpgradeGovernanceError::GuardianNotConfigured ==> rent_wallet::governance_error(e)
            == ContractError::NotAuthorized,
{
}

/// Writing governance changes nothing else.
pub proof fn law_governance_is_separate(w: WalletView, governance: UpgradeGovernance)
    ensures
        w.with_governance(governance) == (WalletView { governance, ..w }),
{
}

/// Events bear the name of the contract first, then their own, then the user;
/// those of the pause bear the name of the pause.
pub proof fn law_events_are_named(
    name: &'static str,
    data: Data,
    user: Address,
    amount: i128,
    whose: Option<Address>,
)
    ensures
        rent_wallet::event(name, data) == (Event {
            topics: Topics::Two(Value::Symbol("rent_wallet"), Value::Symbol(name)),
            data,
        }),
        rent_wallet::user_event(name, user, amount) == (Event {
            topics: Topics::Three(
                Value::Symbol("rent_wallet"),
                Value::Symbol(name),
                Value::Address(user),
            ),
            data: Data::One(Value::I128(amount)),
        }),
        rent_wallet::pausable_event(name) == (Event {
            topics: Topics::Two(Value::Symbol("Pausable"), Value::Symbol(name)),
            data: Data::Unit,
        }),
        monthly_cap::cap_event(whose, amount) == (Event {
            topics: Topics::Two(Value::Symbol("rent_wallet"), Value::Symbol("monthly_cap_set")),
            data: Data::Two(Value::OptionalAddress(whose), Value::I128(amount)),
        }),
{
}

/// Errors are told apart by their numbers.
pub proof fn law_errors_are_told_apart(a: ContractError, b: ContractError)
    ensures
        a.code_of() == b.code_of() ==> a == b,
{
}

} // verus!
