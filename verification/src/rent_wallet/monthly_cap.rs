//! The monthly spending cap on debits.
//!
//! A default cap holds for every user; an override holds for one user and goes
//! before it. A cap of zero, stored or not, is no cap at all. A month is a
//! period of thirty days, counted from the epoch of the ledger.

use vstd::prelude::*;

use crate::host::{Action, Data, Env, Event, Topics, Value};
use crate::rent_wallet::{ContractError, RentWallet, WalletView};
use crate::value::Address;

verus! {

/// Seconds in a period of thirty days.
pub const SECONDS_PER_MONTH: u64 = 2_592_000;

/// The period that `now` falls in, in the lower 32 bits of its number.
pub open spec fn month_key(now: u64) -> u32 {
    (now / SECONDS_PER_MONTH) as u32
}

/// The period that the ledger is in.
pub fn current_month_key(env: &Env) -> (key: u32)
    ensures
        key == month_key(env.now),
{
    (env.timestamp() / SECONDS_PER_MONTH) as u32
}

impl WalletView {
    /// The cap of everyone without an override.
    pub open spec fn cap_default(self) -> i128 {
        self.monthly_cap_default.unwrap_or(0)
    }

    pub open spec fn cap_override(self, user: Address) -> Option<i128> {
        if self.monthly_cap_overrides.dom().contains(user) {
            Some(self.monthly_cap_overrides[user])
        } else {
            None
        }
    }

    /// The cap that holds for `user`; zero for none.
    pub open spec fn cap(self, user: Address) -> i128 {
        self.cap_override(user).unwrap_or(self.cap_default())
    }

    /// What `user` has spent in the period of `now`.
    pub open spec fn spent(self, user: Address, now: u64) -> i128 {
        if self.monthly_spent.dom().contains((user, month_key(now))) {
            self.monthly_spent[(user, month_key(now))]
        } else {
            0
        }
    }

    /// Message with which the check of a debit aborts, if it does.
    pub open spec fn cap_abort(self, user: Address, amount: i128, now: u64) -> Option<
        &'static str,
    > {
        if self.cap(user) != 0 && self.spent(user, now) + amount > i128::MAX {
            Some("attempt to add with overflow")
        } else {
            None
        }
    }

    /// What the check of a debit answers: under a cap, the debits of the period
    /// together must not exceed it.
    pub open spec fn cap_outcome(self, user: Address, amount: i128, now: u64) -> Result<
        (),
        ContractError,
    > {
        if self.cap(user) != 0 && self.spent(user, now) + amount > self.cap(user) {
            Err(ContractError::MonthlyCapExceeded)
        } else {
            Ok(())
        }
    }

    /// The wallet with a debit counted toward the period; without a cap,
    /// nothing is counted.
    pub open spec fn with_spent(self, user: Address, amount: i128, now: u64) -> WalletView {
        if self.cap(user) == 0 {
            self
        } else {
            WalletView {
                monthly_spent: self.monthly_spent.insert(
                    (user, month_key(now)),
                    (self.spent(user, now) + amount) as i128,
                ),
                ..self
            }
        }
    }
}

/// The default cap; zero, stored or not, means no cap.
pub fn get_monthly_cap_default(wallet: &RentWallet) -> (cap: i128)
    ensures
        cap == wallet@.cap_default(),
{
    wallet.monthly_cap_default.unwrap_or(0)
}

/// The override of `user`, if there is one.
pub fn get_monthly_cap_override(wallet: &RentWallet, user: &Address) -> (cap: Option<i128>)
    ensures
        cap == wallet@.cap_override(*user),
{
    match wallet.monthly_cap_overrides.get(user) {
        Some(cap) => Some(*cap),
        None => None,
    }
}

/// The cap that holds for `user`: the override, or else the default.
pub fn effective_cap(wallet: &RentWallet, user: &Address) -> (cap: i128)
    ensures
        cap == wallet@.cap(*user),
{
    match get_monthly_cap_override(wallet, user) {
        Some(cap) => cap,
        None => get_monthly_cap_default(wallet),
    }
}

/// What `user` has spent in the current period.
pub fn get_monthly_spent(env: &Env, wallet: &RentWallet, user: &Address) -> (spent: i128)
    ensures
        spent == wallet@.spent(*user, env.now),
{
    let key: u32 = current_month_key(env);
    match wallet.monthly_spent.get(&(*user, key)) {
        Some(spent) => *spent,
        None => 0,
    }
}

fn record_monthly_spent(env: &Env, wallet: &mut RentWallet, user: &Address, additional: i128)
    requires
        old(wallet)@.cap(*user) != 0,
        i128::MIN <= old(wallet)@.spent(*user, env.now) + additional <= i128::MAX,
    ensures
        final(wallet)@ == old(wallet)@.with_spent(*user, additional, env.now),
{
    let key: u32 = current_month_key(env);
    let current: i128 = get_monthly_spent(env, wallet, user);
    wallet.monthly_spent.set((*user, key), current + additional);
}

/// Find out whether `check_and_record_debit` would abort.
pub fn check_debit(env: &Env, wallet: &RentWallet, user: &Address, amount: i128) -> (abort: Option<
    &'static str,
>)
    requires
        amount > 0,
    ensures
        abort == wallet@.cap_abort(*user, amount, env.now),
{
    if effective_cap(wallet, user) != 0 && get_monthly_spent(env, wallet, user).checked_add(
        amount,
    ).is_none() {
        Some("attempt to add with overflow")
    } else {
        None
    }
}

/// Check a debit against the cap of `user`, and count it. A debit that is
/// refused is not counted.
pub fn check_and_record_debit(
    env: &Env,
    wallet: &mut RentWallet,
    user: &Address,
    amount: i128,
) -> (r: Result<(), ContractError>)
    requires
        amount > 0,
        old(wallet)@.cap_abort(*user, amount, env.now) is None,
    ensures
        r == old(wallet)@.cap_outcome(*user, amount, env.now),
        final(wallet)@ == (if r is Ok {
            old(wallet)@.with_spent(*user, amount, env.now)
        } else {
            old(wallet)@
        }),
{
    let cap: i128 = effective_cap(wallet, user);
    if cap == 0 {
        return Ok(());
    }
    let spent: i128 = get_monthly_spent(env, wallet, user);
    if spent + amount > cap {
        return Err(ContractError::MonthlyCapExceeded);
    }
    record_monthly_spent(env, wallet, user, amount);
    Ok(())
}

pub open spec fn cap_event(user: Option<Address>, cap: i128) -> Event {
    Event {
        topics: Topics::Two(Value::Symbol("rent_wallet"), Value::Symbol("monthly_cap_set")),
        data: Data::Two(Value::OptionalAddress(user), Value::I128(cap)),
    }
}

/// Publish that a cap was set: for `user`, or the default with `None`.
pub fn emit_monthly_cap_set(env: &mut Env, user: Option<Address>, cap: i128)
    ensures
        final(env).after(*old(env), seq![Action::Publish(cap_event(user, cap))]),
{
    env.publish(
        Event {
            topics: Topics::Two(Value::Symbol("rent_wallet"), Value::Symbol("monthly_cap_set")),
            data: Data::Two(Value::OptionalAddress(user), Value::I128(cap)),
        },
    );
}

/// Under a cap, what was spent in a period is within the cap after every debit
/// that goes through, and grows by exactly that debit.
pub proof fn law_spending_stays_within_cap(
    wallet: WalletView,
    user: Address,
    amount: i128,
    now: u64,
)
    requires
        amount > 0,
        wallet.cap(user) != 0,
        wallet.cap_abort(user, amount, now) is None,
        wallet.cap_outcome(user, amount, now) is Ok,
    ensures
        ({
            let after = wallet.with_spent(user, amount, now);
            &&& after.spent(user, now) == wallet.spent(user, now) + amount
            &&& after.spent(user, now) <= wallet.cap(user)
            &&& after.cap(user) == wallet.cap(user)
        }),
{
}

/// Periods are separate: a debit in one period leaves what was spent in every
/// other as it was, so that the counter starts anew with each.
pub proof fn law_periods_are_separate(
    wallet: WalletView,
    user: Address,
    amount: i128,
    now: u64,
    later: u64,
)
    requires
        now / SECONDS_PER_MONTH != later / SECONDS_PER_MONTH,
        now / SECONDS_PER_MONTH <= u32::MAX,
        later / SECONDS_PER_MONTH <= u32::MAX,
    ensures
        wallet.with_spent(user, amount, now).spent(user, later) == wallet.spent(user, later),
{
}

/// A period ends with its last second: the next second is in the next one.
pub proof fn law_period_boundary(month: u64)
    requires
        0 < month,
        month * SECONDS_PER_MONTH <= u64::MAX,
        month <= u32::MAX,
    ensures
        month_key((month * SECONDS_PER_MONTH) as u64) == month,
        month_key((month * SECONDS_PER_MONTH - 1) as u64) == month - 1,
{
}

/// Users are separate: a debit of one leaves what another has spent, and may
/// spend, as it was.
pub proof fn law_users_are_separate(
    wallet: WalletView,
    user: Address,
    amount: i128,
    now: u64,
    other: Address,
    at: u64,
)
    requires
        other != user,
    ensures
        wallet.with_spent(user, amount, now).spent(other, at) == wallet.spent(other, at),
        wallet.with_spent(user, amount, now).cap(other) == wallet.cap(other),
{
}

/// An override goes before the default, in both directions, and a cap of zero
/// lets every debit through uncounted.
pub proof fn law_override_goes_first(
    wallet: WalletView,
    user: Address,
    cap: i128,
    other: Address,
    amount: i128,
    now: u64,
)
    requires
        other != user,
    ensures
        ({
            let after = WalletView {
                monthly_cap_overrides: wallet.monthly_cap_overrides.insert(user, cap),
                ..wallet
            };
            &&& after.cap(user) == cap
            &&& after.cap(other) == wallet.cap(other)
            &&& cap == 0 ==> after.cap_outcome(user, amount, now) is Ok && after.with_spent(
                user,
                amount,
                now,
            ) == after
        }),
        wallet.cap_override(user) is None ==> wallet.cap(user) == wallet.cap_default(),
{
}

} // verus!
