//! Wallets that hold users' balances for rent, run by an admin.

use vstd::prelude::*;

use crate::access_control::{require_admin_permission, PausableError};
use crate::host::{Action, Data, Env, Event, Topics, Value};
use crate::table::Table;
use crate::upgrade_governance;
use crate::upgrade_governance::{UpgradeGovernance, UpgradeGovernanceError, UpgradeGovernanceKey};
use crate::value::{Address, Bytes32};

pub mod laws;
pub mod monthly_cap;
pub mod validation;

verus! {

#[derive(Clone, Copy, Debug, PartialEq, Eq, Structural)]
pub enum ContractError {
    AlreadyInitialized,
    NotAuthorized,
    Paused,
    InvalidAmount,
    InsufficientBalance,
    UpgradeAlreadyPending,
    NoUpgradePending,
    UpgradeDelayNotMet,
    /// Amount exceeds the allowed maximum
    AmountTooLarge,
    /// Credit would overflow the stored balance
    BalanceOverflow,
    /// Time or lock value exceeds the safe upper bound
    InvalidTimeValue,
    /// String field was empty
    EmptyString,
    /// String field exceeds maximum allowed length
    StringTooLong,
    /// String contains non-printable or disallowed characters
    InvalidStringChar,
    /// Two addresses that must differ were identical
    SameAddress,
    /// Upgrade version must follow the current one
    InvalidUpgradeVersion,
    /// Stored state schema is incompatible with this contract version
    IncompatibleStateSchema,
    /// Debit would push the spending of the period past the monthly cap
    MonthlyCapExceeded,
}

impl ContractError {
    pub open spec fn code_of(self) -> u32 {
        match self {
            Self::AlreadyInitialized => 1,
            Self::NotAuthorized => 2,
            Self::Paused => 3,
            Self::InvalidAmount => 4,
            Self::InsufficientBalance => 5,
            Self::UpgradeAlreadyPending => 6,
            Self::NoUpgradePending => 7,
            Self::UpgradeDelayNotMet => 8,
            Self::AmountTooLarge => 9,
            Self::BalanceOverflow => 17,
            Self::InvalidTimeValue => 10,
            Self::EmptyString => 11,
            Self::StringTooLong => 12,
            Self::InvalidStringChar => 13,
            Self::SameAddress => 14,
            Self::InvalidUpgradeVersion => 15,
            Self::IncompatibleStateSchema => 16,
            Self::MonthlyCapExceeded => 18,
        }
    }

    /// The number under which callers see the error.
    pub fn code(self) -> (c: u32)
        ensures
            c == self.code_of(),
    {
        match self {
            Self::AlreadyInitialized => 1,
            Self::NotAuthorized => 2,
            Self::Paused => 3,
            Self::InvalidAmount => 4,
            Self::InsufficientBalance => 5,
            Self::UpgradeAlreadyPending => 6,
            Self::NoUpgradePending => 7,
            Self::UpgradeDelayNotMet => 8,
            Self::AmountTooLarge => 9,
            Self::BalanceOverflow => 17,
            Self::InvalidTimeValue => 10,
            Self::EmptyString => 11,
            Self::StringTooLong => 12,
            Self::InvalidStringChar => 13,
            Self::SameAddress => 14,
            Self::InvalidUpgradeVersion => 15,
            Self::IncompatibleStateSchema => 16,
            Self::MonthlyCapExceeded => 18,
        }
    }
}

/// What the contract keeps in storage, and the largest amount that one credit,
/// debit or cap may have.
pub struct RentWallet {
    pub governance: UpgradeGovernance,
    pub paused: Option<bool>,
    pub balances: Table<Address, i128>,
    /// Cap of everyone without an override; zero or unset for none.
    pub monthly_cap_default: Option<i128>,
    pub monthly_cap_overrides: Table<Address, i128>,
    /// Amount debited per user and period.
    pub monthly_spent: Table<(Address, u32), i128>,
    pub max_amount: i128,
}

/// The wallet with its tables as maps.
#[verifier::ext_equal]
pub struct WalletView {
    pub governance: UpgradeGovernance,
    pub paused: Option<bool>,
    pub balances: Map<Address, i128>,
    pub monthly_cap_default: Option<i128>,
    pub monthly_cap_overrides: Map<Address, i128>,
    pub monthly_spent: Map<(Address, u32), i128>,
    pub max_amount: i128,
}

impl View for RentWallet {
    type V = WalletView;

    open spec fn view(&self) -> WalletView {
        WalletView {
            governance: self.governance,
            paused: self.paused,
            balances: self.balances@,
            monthly_cap_default: self.monthly_cap_default,
            monthly_cap_overrides: self.monthly_cap_overrides@,
            monthly_spent: self.monthly_spent@,
            max_amount: self.max_amount,
        }
    }
}

pub open spec fn event(name: &'static str, data: Data) -> Event {
    Event { topics: Topics::Two(Value::Symbol("rent_wallet"), Value::Symbol(name)), data }
}

pub open spec fn user_event(name: &'static str, user: Address, amount: i128) -> Event {
    Event {
        topics: Topics::Three(
            Value::Symbol("rent_wallet"),
            Value::Symbol(name),
            Value::Address(user),
        ),
        data: Data::One(Value::I128(amount)),
    }
}

pub open spec fn pausable_event(name: &'static str) -> Event {
    Event {
        topics: Topics::Two(Value::Symbol("Pausable"), Value::Symbol(name)),
        data: Data::Unit,
    }
}

impl WalletView {
    pub open spec fn is_paused(self) -> bool {
        self.paused.unwrap_or(false)
    }

    /// The balance of `user`; zero where none is stored.
    pub open spec fn balance(self, user: Address) -> i128 {
        if self.balances.dom().contains(user) {
            self.balances[user]
        } else {
            0
        }
    }

    pub open spec fn with_balance(self, user: Address, balance: int) -> WalletView {
        WalletView { balances: self.balances.insert(user, balance as i128), ..self }
    }

    pub open spec fn with_governance(self, governance: UpgradeGovernance) -> WalletView {
        WalletView { governance, ..self }
    }

    pub open spec fn admin_abort(self) -> Option<&'static str> {
        if self.governance.admin is Some {
            None
        } else {
            Some("admin not set")
        }
    }

    pub open spec fn admin_outcome(self, admin: Address) -> Result<(), ContractError> {
        if self.governance.admin == Some(admin) {
            Ok(())
        } else {
            Err(ContractError::NotAuthorized)
        }
    }

    /// The caller has to be the admin, and the wallet to be running.
    pub open spec fn entry_outcome(self, admin: Address) -> Result<(), ContractError> {
        if self.admin_outcome(admin) is Err {
            self.admin_outcome(admin)
        } else if self.is_paused() {
            Err(ContractError::Paused)
        } else {
            Ok(())
        }
    }

    /// The checks that every movement of money makes first.
    pub open spec fn movement_outcome(self, admin: Address, amount: i128) -> Result<
        (),
        ContractError,
    > {
        if self.entry_outcome(admin) is Err {
            self.entry_outcome(admin)
        } else {
            validation::amount_outcome(amount, self.max_amount)
        }
    }

    pub open spec fn credit_outcome(self, admin: Address, user: Address, amount: i128) -> Result<
        (),
        ContractError,
    > {
        if self.movement_outcome(admin, amount) is Err {
            self.movement_outcome(admin, amount)
        } else if self.balance(user) + amount > i128::MAX {
            Err(ContractError::BalanceOverflow)
        } else {
            Ok(())
        }
    }

    pub open spec fn debit_outcome(
        self,
        admin: Address,
        user: Address,
        amount: i128,
        now: u64,
    ) -> Result<(), ContractError> {
        if self.movement_outcome(admin, amount) is Err {
            self.movement_outcome(admin, amount)
        } else if self.balance(user) < amount {
            Err(ContractError::InsufficientBalance)
        } else {
            self.cap_outcome(user, amount, now)
        }
    }

    pub open spec fn debit_abort(
        self,
        admin: Address,
        user: Address,
        amount: i128,
        now: u64,
    ) -> Option<&'static str> {
        if self.admin_abort() is Some {
            self.admin_abort()
        } else if self.movement_outcome(admin, amount) is Ok && self.balance(user) >= amount {
            self.cap_abort(user, amount, now)
        } else {
            None
        }
    }

    /// The wallet after `credit`; a refusal changes nothing.
    pub open spec fn credit_next(self, admin: Address, user: Address, amount: i128) -> WalletView {
        if self.credit_outcome(admin, user, amount) is Ok {
            self.with_balance(user, self.balance(user) + amount)
        } else {
            self
        }
    }

    /// The wallet after `debit`; a refusal changes nothing.
    pub open spec fn debit_next(
        self,
        admin: Address,
        user: Address,
        amount: i128,
        now: u64,
    ) -> WalletView {
        if self.debit_outcome(admin, user, amount, now) is Ok {
            self.with_spent(user, amount, now).with_balance(user, self.balance(user) - amount)
        } else {
            self
        }
    }

    pub open spec fn set_cap_outcome(self, admin: Address, cap: i128) -> Result<
        (),
        ContractError,
    > {
        if self.entry_outcome(admin) is Err {
            self.entry_outcome(admin)
        } else if cap < 0 {
            Err(ContractError::InvalidAmount)
        } else if cap > self.max_amount {
            Err(ContractError::AmountTooLarge)
        } else {
            Ok(())
        }
    }

    /// The storage layout is the one of the running version.
    pub open spec fn schema_matches(self) -> bool {
        self.governance.storage_schema_version.unwrap_or(0) == self.governance.version()
    }

    /// A storage layout that does not match stops a proposal by `admin` before
    /// anything else is looked at, unless the admin has one pending already.
    pub open spec fn schema_stops(self, admin: Address) -> bool {
        !self.schema_matches() && !(self.governance.pending_upgrade_hash is Some
            && self.governance.admin == Some(admin))
    }

    /// What `propose_upgrade` answers.
    pub open spec fn propose_outcome(self, admin: Address, version: u32) -> Result<
        (),
        ContractError,
    > {
        if self.is_paused() {
            Err(ContractError::Paused)
        } else if self.schema_stops(admin) {
            Err(ContractError::IncompatibleStateSchema)
        } else {
            reported(
                upgrade_governance::propose_outcome(
                    self.governance,
                    admin,
                    version,
                    Some(self.governance.storage_schema_version.unwrap_or(0)),
                ),
            )
        }
    }

    pub open spec fn propose_abort(self, admin: Address) -> Option<&'static str> {
        if self.is_paused() || self.schema_stops(admin) {
            None
        } else {
            upgrade_governance::propose_upgrade_abort(self.governance, admin)
        }
    }

    /// What `execute_upgrade` answers at time `now`: an upgrade that governance
    /// lets through still needs a storage layout that matches.
    pub open spec fn execute_outcome(self, admin: Address, hash: Bytes32, now: u64) -> Result<
        (),
        ContractError,
    > {
        let answer = upgrade_governance::execute_outcome(self.governance, admin, hash, now);
        if self.is_paused() {
            Err(ContractError::Paused)
        } else if answer is Ok && !self.schema_matches() {
            Err(ContractError::IncompatibleStateSchema)
        } else {
            reported(answer)
        }
    }

    pub open spec fn execute_abort(self, admin: Address, hash: Bytes32) -> Option<&'static str> {
        if self.is_paused() {
            None
        } else {
            upgrade_governance::execute_upgrade_abort(self.governance, admin, hash)
        }
    }

    /// What `emergency_upgrade` answers: the storage layout has to match before
    /// anything else of the upgrade is looked at, and a guardian is mandatory.
    pub open spec fn emergency_outcome(self, admin: Address, version: u32) -> Result<
        (),
        ContractError,
    > {
        if self.is_paused() {
            Err(ContractError::Paused)
        } else if !self.schema_matches() {
            Err(ContractError::IncompatibleStateSchema)
        } else {
            reported(
                upgrade_governance::emergency_outcome(
                    self.governance,
                    admin,
                    version,
                    Some(self.governance.storage_schema_version.unwrap_or(0)),
                    true,
                ),
            )
        }
    }

    pub open spec fn emergency_abort(self, admin: Address) -> Option<&'static str> {
        if self.is_paused() || !self.schema_matches() {
            None
        } else {
            upgrade_governance::emergency_upgrade_abort(self.governance, admin)
        }
    }

    /// What `set_guardian` and `set_upgrade_delay` answer.
    pub open spec fn setting_outcome(self, admin: Address) -> Result<(), ContractError> {
        if self.is_paused() {
            Err(ContractError::Paused)
        } else {
            reported(upgrade_governance::setting_outcome(self.governance, admin))
        }
    }

    pub open spec fn setting_abort(self) -> Option<&'static str> {
        if self.is_paused() {
            None
        } else {
            upgrade_governance::admin_abort(self.governance)
        }
    }

    pub open spec fn cancel_outcome(self, admin: Address) -> Result<(), ContractError> {
        if self.entry_outcome(admin) is Err {
            self.entry_outcome(admin)
        } else if self.governance.pending_upgrade_hash is None {
            Err(ContractError::NoUpgradePending)
        } else {
            Ok(())
        }
    }

    pub open spec fn pause_outcome(self, admin: Address) -> Result<(), PausableError> {
        if self.governance.admin == Some(admin) {
            Ok(())
        } else {
            Err(PausableError::NotAuthorized)
        }
    }
}

/// How an error of upgrade governance is reported by this contract.
pub open spec fn governance_error(e: UpgradeGovernanceError) -> ContractError {
    match e {
        UpgradeGovernanceError::UpgradeAlreadyPending => ContractError::UpgradeAlreadyPending,
        UpgradeGovernanceError::NoPendingUpgrade => ContractError::NoUpgradePending,
        UpgradeGovernanceError::UpgradeDelayNotElapsed => ContractError::UpgradeDelayNotMet,
        UpgradeGovernanceError::InvalidUpgradeVersion => ContractError::InvalidUpgradeVersion,
        UpgradeGovernanceError::IncompatibleSchemaVersion => ContractError::IncompatibleStateSchema,
        _ => ContractError::NotAuthorized,
    }
}

/// An answer of upgrade governance as this contract reports it.
pub open spec fn reported(r: Result<(), UpgradeGovernanceError>) -> Result<(), ContractError> {
    match r {
        Ok(()) => Ok(()),
        Err(e) => Err(governance_error(e)),
    }
}

fn report(r: Result<(), UpgradeGovernanceError>) -> (out: Result<(), ContractError>)
    ensures
        out == reported(r),
{
    match r {
        Ok(()) => Ok(()),
        Err(e) => match e {
            UpgradeGovernanceError::UpgradeAlreadyPending => Err(
                ContractError::UpgradeAlreadyPending,
            ),
            UpgradeGovernanceError::NoPendingUpgrade => Err(ContractError::NoUpgradePending),
            UpgradeGovernanceError::UpgradeDelayNotElapsed => Err(
                ContractError::UpgradeDelayNotMet,
            ),
            UpgradeGovernanceError::InvalidUpgradeVersion => Err(
                ContractError::InvalidUpgradeVersion,
            ),
            UpgradeGovernanceError::IncompatibleSchemaVersion => Err(
                ContractError::IncompatibleStateSchema,
            ),
            _ => Err(ContractError::NotAuthorized),
        },
    }
}

impl RentWallet {
    /// Storage before `init`, with the largest amount that one movement or cap
    /// may have.
    pub fn new(max_amount: i128) -> (w: RentWallet)
        ensures
            w@ == (WalletView {
                governance: UpgradeGovernance::empty(),
                paused: None,
                balances: Map::empty(),
                monthly_cap_default: None,
                monthly_cap_overrides: Map::empty(),
                monthly_spent: Map::empty(),
                max_amount,
            }),
    {
        RentWallet {
            governance: UpgradeGovernance::new(),
            paused: None,
            balances: Table::new(),
            monthly_cap_default: None,
            monthly_cap_overrides: Table::new(),
            monthly_spent: Table::new(),
            max_amount,
        }
    }

    /// Find out whether an entry point that looks up the admin would abort.
    pub fn check_admin(&self) -> (abort: Option<&'static str>)
        ensures
            abort == self@.admin_abort(),
    {
        if self.governance.admin.is_some() {
            None
        } else {
            Some("admin not set")
        }
    }

    fn require_admin(&self, env: &mut Env, admin: &Address) -> (r: Result<(), ContractError>)
        requires
            self@.admin_abort() is None,
        ensures
            r == self@.admin_outcome(*admin),
            final(env).after(*old(env), seq![Action::RequireAuth(*admin)]),
    {
        let current_admin = self.governance.admin.unwrap();
        require_admin_permission(env, &current_admin, admin, ContractError::NotAuthorized)
    }

    fn require_not_paused(&self) -> (r: Result<(), ContractError>)
        ensures
            r == (if self@.is_paused() {
                Err(ContractError::Paused)
            } else {
                Ok(())
            }),
    {
        if self.is_paused() {
            return Err(ContractError::Paused);
        }
        Ok(())
    }

    /// Set the admin, once.
    pub fn init(&mut self, env: &mut Env, admin: &Address) -> (r: Result<(), ContractError>)
        ensures
            r == (if old(self).governance.admin is Some {
                Err(ContractError::AlreadyInitialized)
            } else {
                Ok(())
            }),
            r is Ok ==> final(self)@ == (WalletView {
                governance: UpgradeGovernance {
                    admin: Some(*admin),
                    contract_version: Some(1),
                    storage_schema_version: Some(1),
                    ..old(self).governance
                },
                paused: Some(false),
                ..old(self)@
            }) && final(env).after(
                *old(env),
                seq![
                    Action::Publish(
                        event("init", Data::Two(Value::Address(*admin), Value::U32(1))),
                    ),
                ],
            ),
            r is Err ==> final(self)@ == old(self)@ && final(env).after(*old(env), seq![]),
    {
        if self.governance.has(UpgradeGovernanceKey::Admin) {
            return Err(ContractError::AlreadyInitialized);
        }
        self.governance.admin = Some(*admin);
        self.governance.contract_version = Some(1);
        self.governance.storage_schema_version = Some(1);
        self.paused = Some(false);
        env.publish(
            Event {
                topics: Topics::Two(Value::Symbol("rent_wallet"), Value::Symbol("init")),
                data: Data::Two(Value::Address(*admin), Value::U32(1)),
            },
        );
        Ok(())
    }

    pub fn contract_version(&self) -> (version: u32)
        ensures
            version == self.governance.version(),
    {
        self.governance.contract_version.unwrap_or(0)
    }

    /// The version of the storage layout.
    pub fn state_schema_version(&self) -> (version: u32)
        ensures
            version == self.governance.schema(),
    {
        self.governance.storage_schema_version.unwrap_or(1)
    }

    pub fn version(&self) -> (version: u32)
        ensures
            version == self.governance.version(),
    {
        self.contract_version()
    }

    fn get_balance(&self, user: &Address) -> (x: i128)
        ensures
            x == self@.balance(*user),
    {
        match self.balances.get(user) {
            Some(x) => *x,
            None => 0,
        }
    }

    /// Ask for the admin's authorisation, and let only a running wallet and a
    /// valid amount through.
    /// Let only the admin through, and nobody while paused.
    fn enter(&self, env: &mut Env, admin: &Address) -> (r: Result<(), ContractError>)
        requires
            self@.admin_abort() is None,
        ensures
            r == self@.entry_outcome(*admin),
            final(env).after(*old(env), seq![Action::RequireAuth(*admin)]),
    {
        match self.require_admin(env, admin) {
            Err(e) => Err(e),
            Ok(()) => self.require_not_paused(),
        }
    }

    fn enter_movement(&self, env: &mut Env, admin: &Address, amount: i128) -> (r: Result<
        (),
        ContractError,
    >)
        requires
            self@.admin_abort() is None,
        ensures
            r == self@.movement_outcome(*admin, amount),
            final(env).after(*old(env), seq![Action::RequireAuth(*admin)]),
    {
        match self.enter(env, admin) {
            Err(e) => {
                return Err(e);
            },
            Ok(()) => {},
        }
        validation::validate_amount(amount, self.max_amount)
    }

    /// Add `amount` to the balance of `user`.
    pub fn credit(&mut self, env: &mut Env, admin: &Address, user: &Address, amount: i128) -> (r:
        Result<(), ContractError>)
        requires
            old(self)@.admin_abort() is None,
        ensures
            r == old(self)@.credit_outcome(*admin, *user, amount),
            final(self)@ == old(self)@.credit_next(*admin, *user, amount),
            final(env).after(
                *old(env),
                if r is Ok {
                    seq![
                        Action::RequireAuth(*admin),
                        Action::Publish(user_event("credit", *user, amount)),
                    ]
                } else {
                    seq![Action::RequireAuth(*admin)]
                },
            ),
    {
        match self.enter_movement(env, admin, amount) {
            Err(e) => {
                return Err(e);
            },
            Ok(()) => {},
        }
        let cur: i128 = self.get_balance(user);
        let new_balance: i128 = match cur.checked_add(amount) {
            Some(balance) => balance,
            None => {
                return Err(ContractError::BalanceOverflow);
            },
        };
        self.balances.set(*user, new_balance);
        env.publish(
            Event {
                topics: Topics::Three(
                    Value::Symbol("rent_wallet"),
                    Value::Symbol("credit"),
                    Value::Address(*user),
                ),
                data: Data::One(Value::I128(amount)),
            },
        );
        Ok(())
    }

    /// Find out whether `debit` would abort.
    pub fn check_debit(&self, env: &Env, admin: &Address, user: &Address, amount: i128) -> (abort:
        Option<&'static str>)
        ensures
            abort == self@.debit_abort(*admin, *user, amount, env.now),
    {
        match self.governance.admin {
            None => {
                return Some("admin not set");
            },
            Some(current_admin) => if current_admin != *admin {
                return None;
            },
        }
        if self.is_paused() || validation::validate_amount(amount, self.max_amount).is_err()
            || self.get_balance(user) < amount {
            return None;
        }
        monthly_cap::check_debit(env, self, user, amount)
    }

    /// Take `amount` from the balance of `user`, within the monthly cap.
    ///
    /// The cap is looked at once the balance is known to suffice, so that a
    /// debit that fails for its balance is not counted, and before the balance
    /// changes, so that one that fails for the cap leaves it alone.
    pub fn debit(&mut self, env: &mut Env, admin: &Address, user: &Address, amount: i128) -> (r:
        Result<(), ContractError>)
        requires
            old(self)@.debit_abort(*admin, *user, amount, old(env).now) is None,
        ensures
            r == old(self)@.debit_outcome(*admin, *user, amount, old(env).now),
            final(self)@ == old(self)@.debit_next(*admin, *user, amount, old(env).now),
            final(env).after(
                *old(env),
                if r is Ok {
                    seq![
                        Action::RequireAuth(*admin),
                        Action::Publish(user_event("debit", *user, amount)),
                    ]
                } else {
                    seq![Action::RequireAuth(*admin)]
                },
            ),
    {
        match self.enter_movement(env, admin, amount) {
            Err(e) => {
                return Err(e);
            },
            Ok(()) => {},
        }
        let cur: i128 = self.get_balance(user);
        if cur < amount {
            return Err(ContractError::InsufficientBalance);
        }
        match monthly_cap::check_and_record_debit(env, self, user, amount) {
            Err(e) => {
                return Err(e);
            },
            Ok(()) => {},
        }
        let new_balance: i128 = cur - amount;
        self.balances.set(*user, new_balance);
        env.publish(
            Event {
                topics: Topics::Three(
                    Value::Symbol("rent_wallet"),
                    Value::Symbol("debit"),
                    Value::Address(*user),
                ),
                data: Data::One(Value::I128(amount)),
            },
        );
        Ok(())
    }

    pub fn balance(&self, user: &Address) -> (x: i128)
        ensures
            x == self@.balance(*user),
    {
        self.get_balance(user)
    }

    /// Hand the wallet to another admin.
    pub fn set_admin(&mut self, env: &mut Env, admin: &Address, new_admin: &Address) -> (r: Result<
        (),
        ContractError,
    >)
        requires
            old(self)@.admin_abort() is None,
        ensures
            r == old(self)@.entry_outcome(*admin),
            r is Ok ==> final(self)@ == old(self)@.with_governance(
                UpgradeGovernance { admin: Some(*new_admin), ..old(self).governance },
            ) && final(env).after(
                *old(env),
                seq![
                    Action::RequireAuth(*admin),
                    Action::Publish(
                        event(
                            "set_admin",
                            Data::Two(Value::Address(*admin), Value::Address(*new_admin)),
                        ),
                    ),
                ],
            ),
            r is Err ==> final(self)@ == old(self)@ && final(env).after(
                *old(env),
                seq![Action::RequireAuth(*admin)],
            ),
    {
        match self.enter(env, admin) {
            Err(e) => {
                return Err(e);
            },
            Ok(()) => {},
        }
        let old_admin = self.governance.admin.unwrap();
        self.governance.admin = Some(*new_admin);
        env.publish(
            Event {
                topics: Topics::Two(Value::Symbol("rent_wallet"), Value::Symbol("set_admin")),
                data: Data::Two(Value::Address(old_admin), Value::Address(*new_admin)),
            },
        );
        Ok(())
    }

    /// Pause the wallet: no entry point but this one and `unpause` changes
    /// anything.
    pub fn pause(&mut self, env: &mut Env, admin: &Address) -> (r: Result<(), PausableError>)
        requires
            old(self)@.admin_abort() is None,
        ensures
            r == old(self)@.pause_outcome(*admin),
            r is Ok ==> final(self)@ == (WalletView { paused: Some(true), ..old(self)@ })
                && final(env).after(
                *old(env),
                seq![Action::RequireAuth(*admin), Action::Publish(pausable_event("pause"))],
            ),
            r is Err ==> final(self)@ == old(self)@ && final(env).after(
                *old(env),
                seq![Action::RequireAuth(*admin)],
            ),
    {
        if self.require_admin(env, admin).is_err() {
            return Err(PausableError::NotAuthorized);
        }
        self.paused = Some(true);
        env.publish(
            Event {
                topics: Topics::Two(Value::Symbol("Pausable"), Value::Symbol("pause")),
                data: Data::Unit,
            },
        );
        Ok(())
    }

    /// Let changes go on.
    pub fn unpause(&mut self, env: &mut Env, admin: &Address) -> (r: Result<(), PausableError>)
        requires
            old(self)@.admin_abort() is None,
        ensures
            r == old(self)@.pause_outcome(*admin),
            r is Ok ==> final(self)@ == (WalletView { paused: Some(false), ..old(self)@ })
                && final(env).after(
                *old(env),
                seq![Action::RequireAuth(*admin), Action::Publish(pausable_event("unpause"))],
            ),
            r is Err ==> final(self)@ == old(self)@ && final(env).after(
                *old(env),
                seq![Action::RequireAuth(*admin)],
            ),
    {
        if self.require_admin(env, admin).is_err() {
            return Err(PausableError::NotAuthorized);
        }
        self.paused = Some(false);
        env.publish(
            Event {
                topics: Topics::Two(Value::Symbol("Pausable"), Value::Symbol("unpause")),
                data: Data::Unit,
            },
        );
        Ok(())
    }

    pub fn is_paused(&self) -> (b: bool)
        ensures
            b == self@.is_paused(),
    {
        self.paused.unwrap_or(false)
    }

    /// Find out whether `set_guardian` or `set_upgrade_delay` would abort.
    pub fn check_setting(&self) -> (abort: Option<&'static str>)
        ensures
            abort == self@.setting_abort(),
    {
        if self.is_paused() {
            return None;
        }
        upgrade_governance::check_admin(&self.governance)
    }

    /// Set the guardian of emergency upgrades.
    pub fn set_guardian(&mut self, env: &mut Env, admin: &Address, guardian: &Address) -> (r:
        Result<(), ContractError>)
        requires
            old(self)@.setting_abort() is None,
        ensures
            r == old(self)@.setting_outcome(*admin),
            final(self)@ == (if r is Ok {
                old(self)@.with_governance(
                    UpgradeGovernance { guardian: Some(*guardian), ..old(self).governance },
                )
            } else {
                old(self)@
            }),
            final(env).after(
                *old(env),
                if old(self)@.is_paused() {
                    seq![]
                } else {
                    upgrade_governance::setting_actions(
                        old(self).governance,
                        *admin,
                        upgrade_governance::guardian_event("rent_wallet", Some(*guardian)),
                    )
                },
            ),
    {
        match self.require_not_paused() {
            Err(e) => {
                return Err(e);
            },
            Ok(()) => {},
        }
        let r = upgrade_governance::set_guardian(
            env,
            &mut self.governance,
            admin,
            Some(*guardian),
            "rent_wallet",
        );
        report(r)
    }

    /// Set the delay of ordinary upgrades.
    pub fn set_upgrade_delay(&mut self, env: &mut Env, admin: &Address, delay_seconds: u64) -> (r:
        Result<(), ContractError>)
        requires
            old(self)@.setting_abort() is None,
        ensures
            r == old(self)@.setting_outcome(*admin),
            final(self)@ == (if r is Ok {
                old(self)@.with_governance(
                    UpgradeGovernance {
                        upgrade_delay: Some(delay_seconds),
                        ..old(self).governance
                    },
                )
            } else {
                old(self)@
            }),
            final(env).after(
                *old(env),
                if old(self)@.is_paused() {
                    seq![]
                } else {
                    upgrade_governance::setting_actions(
                        old(self).governance,
                        *admin,
                        upgrade_governance::delay_event("rent_wallet", delay_seconds),
                    )
                },
            ),
    {
        match self.require_not_paused() {
            Err(e) => {
                return Err(e);
            },
            Ok(()) => {},
        }
        let r = upgrade_governance::set_upgrade_delay(
            env,
            &mut self.governance,
            admin,
            delay_seconds,
            "rent_wallet",
        );
        report(r)
    }

    fn schema_fits(&self) -> (b: bool)
        ensures
            b == self@.schema_matches(),
    {
        self.governance.storage_schema_version.unwrap_or(0) == self.contract_version()
    }

    fn stopped_by_schema(&self, admin: &Address) -> (b: bool)
        ensures
            b == self@.schema_stops(*admin),
    {
        let own_proposal: bool = match self.governance.admin {
            Some(current) => current == *admin && self.governance.has(
                UpgradeGovernanceKey::PendingUpgradeHash,
            ),
            None => false,
        };
        !self.schema_fits() && !own_proposal
    }

    /// Find out whether `propose_upgrade` would abort.
    pub fn check_propose_upgrade(&self, admin: &Address) -> (abort: Option<&'static str>)
        ensures
            abort == self@.propose_abort(*admin),
    {
        if self.is_paused() || self.stopped_by_schema(admin) {
            return None;
        }
        upgrade_governance::check_propose_upgrade(&self.governance, admin)
    }

    /// Propose an upgrade to the next version. It can be executed once the
    /// delay has elapsed.
    pub fn propose_upgrade(
        &mut self,
        env: &mut Env,
        admin: &Address,
        new_wasm_hash: &Bytes32,
        new_version: u32,
    ) -> (r: Result<(), ContractError>)
        requires
            old(self)@.propose_abort(*admin) is None,
        ensures
            r == old(self)@.propose_outcome(*admin, new_version),
            final(self)@ == (if r is Ok {
                old(self)@.with_governance(
                    old(self).governance.proposed(*new_wasm_hash, new_version, old(env).now),
                )
            } else {
                old(self)@
            }),
            final(env).after(
                *old(env),
                if r is Ok {
                    seq![
                        Action::RequireAuth(*admin),
                        Action::Publish(
                            upgrade_governance::propose_event(
                                "rent_wallet",
                                *new_wasm_hash,
                                new_version,
                                old(env).now,
                            ),
                        ),
                    ]
                } else if old(self)@.is_paused() || old(self)@.schema_stops(*admin) {
                    seq![]
                } else {
                    upgrade_governance::refused_actions(old(self).governance, *admin)
                },
            ),
    {
        match self.require_not_paused() {
            Err(e) => {
                return Err(e);
            },
            Ok(()) => {},
        }
        if self.stopped_by_schema(admin) {
            return Err(ContractError::IncompatibleStateSchema);
        }
        let schema_version: u32 = self.governance.storage_schema_version.unwrap_or(0);
        let r = upgrade_governance::propose_upgrade(
            env,
            &mut self.governance,
            admin,
            new_wasm_hash,
            new_version,
            Some(schema_version),
            "rent_wallet",
        );
        report(r)
    }

    /// Find out whether `execute_upgrade` would abort.
    pub fn check_execute_upgrade(&self, admin: &Address, new_wasm_hash: &Bytes32) -> (abort: Option<
        &'static str,
    >)
        ensures
            abort == self@.execute_abort(*admin, *new_wasm_hash),
    {
        if self.is_paused() {
            return None;
        }
        upgrade_governance::check_execute_upgrade(&self.governance, admin, new_wasm_hash)
    }

    /// Execute a proposed upgrade once its delay has elapsed. A storage layout
    /// that does not match the running version is an error, which keeps the
    /// proposal.
    pub fn execute_upgrade(&mut self, env: &mut Env, admin: &Address, new_wasm_hash: &Bytes32) -> (r:
        Result<(), ContractError>)
        requires
            old(self)@.execute_abort(*admin, *new_wasm_hash) is None,
        ensures
            r == old(self)@.execute_outcome(*admin, *new_wasm_hash, old(env).now),
            final(self)@ == (if r is Ok {
                old(self)@.with_governance(
                    old(self).governance.upgraded(
                        old(self).governance.pending_upgrade_version->0,
                    ),
                )
            } else {
                old(self)@
            }),
            final(env).after(
                *old(env),
                if r is Ok {
                    upgrade_governance::execute_actions(
                        old(self).governance,
                        *admin,
                        *new_wasm_hash,
                        old(env).now,
                        "rent_wallet",
                    )
                } else if old(self)@.is_paused() {
                    seq![]
                } else {
                    upgrade_governance::refused_actions(old(self).governance, *admin)
                },
            ),
    {
        match self.require_not_paused() {
            Err(e) => {
                return Err(e);
            },
            Ok(()) => {},
        }
        if !self.schema_fits() && upgrade_governance::may_execute_upgrade(
            env,
            &self.governance,
            admin,
            new_wasm_hash,
        ) {
            env.require_auth(admin);
            return Err(ContractError::IncompatibleStateSchema);
        }
        let r = upgrade_governance::execute_upgrade(
            env,
            &mut self.governance,
            admin,
            new_wasm_hash,
            "rent_wallet",
        );
        report(r)
    }

    /// Find out whether `emergency_upgrade` would abort.
    pub fn check_emergency_upgrade(&self, admin: &Address) -> (abort: Option<&'static str>)
        ensures
            abort == self@.emergency_abort(*admin),
    {
        if !self.is_paused() && self.schema_fits() {
            upgrade_governance::check_emergency_upgrade(&self.governance, admin)
        } else {
            None
        }
    }

    /// Upgrade at once, with a mandatory guardian.
    pub fn emergency_upgrade(
        &mut self,
        env: &mut Env,
        admin: &Address,
        new_wasm_hash: &Bytes32,
        new_version: u32,
    ) -> (r: Result<(), ContractError>)
        requires
            old(self)@.emergency_abort(*admin) is None,
        ensures
            r == old(self)@.emergency_outcome(*admin, new_version),
            final(self)@ == (if r is Ok {
                old(self)@.with_governance(old(self).governance.upgraded(new_version))
            } else {
                old(self)@
            }),
            final(env).after(
                *old(env),
                if !old(self)@.is_paused() && old(self)@.schema_matches() {
                    upgrade_governance::emergency_actions(
                        old(self).governance,
                        *admin,
                        *new_wasm_hash,
                        new_version,
                        Some(old(self).governance.storage_schema_version.unwrap_or(0)),
                        true,
                        old(env).now,
                        "rent_wallet",
                    )
                } else {
                    seq![]
                },
            ),
    {
        match self.require_not_paused() {
            Err(e) => {
                return Err(e);
            },
            Ok(()) => {},
        }
        if !self.schema_fits() {
            return Err(ContractError::IncompatibleStateSchema);
        }
        let schema_version: u32 = self.governance.storage_schema_version.unwrap_or(0);
        let r = upgrade_governance::emergency_upgrade(
            env,
            &mut self.governance,
            admin,
            new_wasm_hash,
            new_version,
            Some(schema_version),
            "rent_wallet",
            true,
        );
        report(r)
    }

    /// Take back a proposal.
    pub fn cancel_upgrade(&mut self, env: &mut Env, admin: &Address) -> (r: Result<
        (),
        ContractError,
    >)
        requires
            old(self)@.admin_abort() is None,
        ensures
            r == old(self)@.cancel_outcome(*admin),
            r is Ok ==> final(self)@ == old(self)@.with_governance(
                old(self).governance.without_pending(),
            ) && final(env).after(
                *old(env),
                seq![
                    Action::RequireAuth(*admin),
                    Action::Publish(
                        event(
                            "cancel_upgrade",
                            Data::Two(
                                Value::Address(*admin),
                                Value::Bytes(old(self).governance.pending_upgrade_hash->0),
                            ),
                        ),
                    ),
                ],
            ),
            r is Err ==> final(self)@ == old(self)@ && final(env).after(
                *old(env),
                seq![Action::RequireAuth(*admin)],
            ),
    {
        match self.enter(env, admin) {
            Err(e) => {
                return Err(e);
            },
            Ok(()) => {},
        }
        let hash = match self.governance.pending_upgrade_hash {
            Some(hash) => hash,
            None => {
                return Err(ContractError::NoUpgradePending);
            },
        };
        self.governance.pending_upgrade_hash = None;
        self.governance.pending_upgrade_at = None;
        self.governance.pending_upgrade_version = None;
        env.publish(
            Event {
                topics: Topics::Two(Value::Symbol("rent_wallet"), Value::Symbol("cancel_upgrade")),
                data: Data::Two(Value::Address(*admin), Value::Bytes(hash)),
            },
        );
        Ok(())
    }

    /// Set the cap of everyone without an override; zero for none.
    pub fn set_default_monthly_cap(&mut self, env: &mut Env, admin: &Address, cap: i128) -> (r:
        Result<(), ContractError>)
        requires
            old(self)@.admin_abort() is None,
        ensures
            r == old(self)@.set_cap_outcome(*admin, cap),
            r is Ok ==> final(self)@ == (WalletView {
                monthly_cap_default: Some(cap),
                ..old(self)@
            }) && final(env).after(
                *old(env),
                seq![
                    Action::RequireAuth(*admin),
                    Action::Publish(monthly_cap::cap_event(None, cap)),
                ],
            ),
            r is Err ==> final(self)@ == old(self)@ && final(env).after(
                *old(env),
                seq![Action::RequireAuth(*admin)],
            ),
    {
        match self.enter(env, admin) {
            Err(e) => {
                return Err(e);
            },
            Ok(()) => {},
        }
        if cap < 0 {
            return Err(ContractError::InvalidAmount);
        }
        if cap > self.max_amount {
            return Err(ContractError::AmountTooLarge);
        }
        self.monthly_cap_default = Some(cap);
        monthly_cap::emit_monthly_cap_set(env, None, cap);
        Ok(())
    }

    /// Set the cap of one user, which goes before the default; zero for none.
    pub fn set_user_monthly_cap(
        &mut self,
        env: &mut Env,
        admin: &Address,
        user: &Address,
        cap: i128,
    ) -> (r: Result<(), ContractError>)
        requires
            old(self)@.admin_abort() is None,
        ensures
            r == old(self)@.set_cap_outcome(*admin, cap),
            r is Ok ==> final(self)@ == (WalletView {
                monthly_cap_overrides: old(self)@.monthly_cap_overrides.insert(*user, cap),
                ..old(self)@
            }) && final(env).after(
                *old(env),
                seq![
                    Action::RequireAuth(*admin),
                    Action::Publish(monthly_cap::cap_event(Some(*user), cap)),
                ],
            ),
            r is Err ==> final(self)@ == old(self)@ && final(env).after(
                *old(env),
                seq![Action::RequireAuth(*admin)],
            ),
    {
        match self.enter(env, admin) {
            Err(e) => {
                return Err(e);
            },
            Ok(()) => {},
        }
        if cap < 0 {
            return Err(ContractError::InvalidAmount);
        }
        if cap > self.max_amount {
            return Err(ContractError::AmountTooLarge);
        }
        self.monthly_cap_overrides.set(*user, cap);
        monthly_cap::emit_monthly_cap_set(env, Some(*user), cap);
        Ok(())
    }

    /// The cap that holds for `user`; zero for none.
    pub fn get_monthly_cap(&self, user: &Address) -> (cap: i128)
        ensures
            cap == self@.cap(*user),
    {
        monthly_cap::effective_cap(self, user)
    }

    /// What `user` has spent in the current period.
    pub fn get_monthly_spent(&self, env: &Env, user: &Address) -> (spent: i128)
        ensures
            spent == self@.spent(*user, env.now),
    {
        monthly_cap::get_monthly_spent(env, self, user)
    }
}

/// One attempt to move money, by `admin` at time `now`.
pub struct Movement {
    pub admin: Address,
    pub credit: bool,
    pub user: Address,
    pub amount: i128,
    pub now: u64,
}

impl Movement {
    /// The wallet after the attempt.
    pub open spec fn next(self, w: WalletView) -> WalletView {
        if self.credit {
            w.credit_next(self.admin, self.user, self.amount)
        } else {
            w.debit_next(self.admin, self.user, self.amount, self.now)
        }
    }

    /// The attempt does not abort on `w`.
    pub open spec fn completes(self, w: WalletView) -> bool {
        if self.credit {
            w.admin_abort() is None
        } else {
            w.debit_abort(self.admin, self.user, self.amount, self.now) is None
        }
    }

    /// What the attempt moves on to the balance of `user`.
    pub open spec fn gain(self, w: WalletView, user: Address) -> int {
        if user != self.user {
            0
        } else if self.credit {
            if w.credit_outcome(self.admin, self.user, self.amount) is Ok {
                self.amount as int
            } else {
                0
            }
        } else {
            if w.debit_outcome(self.admin, self.user, self.amount, self.now) is Ok {
                -self.amount
            } else {
                0
            }
        }
    }
}

/// The wallet after a sequence of attempts.
pub open spec fn run(w: WalletView, moves: Seq<Movement>) -> WalletView
    decreases moves.len(),
{
    if moves.len() == 0 {
        w
    } else {
        moves.last().next(run(w, moves.drop_last()))
    }
}

/// No attempt of the sequence aborts.
pub open spec fn completes(w: WalletView, moves: Seq<Movement>) -> bool
    decreases moves.len(),
{
    if moves.len() == 0 {
        true
    } else {
        completes(w, moves.drop_last()) && moves.last().completes(run(w, moves.drop_last()))
    }
}

/// What a sequence of attempts moves on to the balance of `user` altogether.
pub open spec fn net_gain(w: WalletView, moves: Seq<Movement>, user: Address) -> int
    decreases moves.len(),
{
    if moves.len() == 0 {
        0
    } else {
        net_gain(w, moves.drop_last(), user) + moves.last().gain(
            run(w, moves.drop_last()),
            user,
        )
    }
}

/// What the debits of a sequence count toward the cap of `user`.
pub open spec fn net_spent(w: WalletView, moves: Seq<Movement>, user: Address) -> int
    decreases moves.len(),
{
    if moves.len() == 0 {
        0
    } else {
        net_spent(w, moves.drop_last(), user) - (if moves.last().credit {
            0
        } else {
            moves.last().gain(run(w, moves.drop_last()), user)
        })
    }
}

/// Balances do not drift: after any sequence of credits and debits, refused
/// ones among them, every balance is the one before and what went through
/// since.
pub proof fn law_balances_do_not_drift(w: WalletView, moves: Seq<Movement>, user: Address)
    requires
        completes(w, moves),
    ensures
        run(w, moves).balance(user) == w.balance(user) + net_gain(w, moves, user),
    decreases moves.len(),
{
    if moves.len() > 0 {
        law_balances_do_not_drift(w, moves.drop_last(), user);
    }
}

/// No sequence of credits and debits takes a balance below zero.
pub proof fn law_balances_stay_nonnegative(w: WalletView, moves: Seq<Movement>, user: Address)
    requires
        completes(w, moves),
        w.balance(user) >= 0,
    ensures
        run(w, moves).balance(user) >= 0,
    decreases moves.len(),
{
    if moves.len() > 0 {
        law_balances_stay_nonnegative(w, moves.drop_last(), user);
    }
}

/// Under a cap, no sequence of movements within one period spends more than the
/// cap, and the counter is exactly what went through.
pub proof fn law_no_sequence_exceeds_cap(
    w: WalletView,
    moves: Seq<Movement>,
    user: Address,
    now: u64,
)
    requires
        completes(w, moves),
        w.cap(user) > 0,
        w.spent(user, now) <= w.cap(user),
        forall|i: int|
            0 <= i < moves.len() ==> monthly_cap::month_key((#[trigger] moves[i]).now)
                == monthly_cap::month_key(now),
    ensures
        run(w, moves).cap(user) == w.cap(user),
        run(w, moves).spent(user, now) == w.spent(user, now) + net_spent(w, moves, user),
        run(w, moves).spent(user, now) <= w.cap(user),
    decreases moves.len(),
{
    if moves.len() > 0 {
        let before = moves.drop_last();
        assert forall|i: int| 0 <= i < before.len() implies monthly_cap::month_key(
            (#[trigger] before[i]).now,
        ) == monthly_cap::month_key(now) by {
            assert(before[i] == moves[i]);
        }
        law_no_sequence_exceeds_cap(w, before, user, now);
        let last = moves[moves.len() - 1];
        assert(last == moves.last());
        assert(monthly_cap::month_key(last.now) == monthly_cap::month_key(now));
    }
}

/// A movement of one user's money leaves everyone else's balance alone, and a
/// refused one leaves everything alone.
pub proof fn law_movements_are_isolated(w: WalletView, m: Movement, other: Address)
    requires
        m.completes(w),
    ensures
        other != m.user ==> m.next(w).balance(other) == w.balance(other),
        m.gain(w, m.user) == 0 ==> m.next(w) == w,
{
}

/// A credit and a debit of the same amount cancel out.
pub proof fn law_debit_undoes_credit(
    w: WalletView,
    admin: Address,
    user: Address,
    amount: i128,
    now: u64,
)
    requires
        w.credit_outcome(admin, user, amount) is Ok,
        w.cap(user) == 0,
        w.balance(user) >= 0,
    ensures
        ({
            let credited = w.credit_next(admin, user, amount);
            &&& credited.debit_outcome(admin, user, amount, now) is Ok
            &&& credited.debit_next(admin, user, amount, now).balance(user) == w.balance(user)
        }),
{
}

/// An upgrade that fails, for whatever reason, keeps its proposal: another one
/// is refused as long as it stands, with `Paused` while the wallet is paused.
pub proof fn law_failed_upgrade_keeps_proposal(
    w: WalletView,
    admin: Address,
    hash: Bytes32,
    version: u32,
    now: u64,
)
    requires
        w.governance.admin == Some(admin),
        w.governance.pending_upgrade_hash is Some,
        w.execute_outcome(admin, hash, now) is Err,
    ensures
        w.propose_outcome(admin, version) == Err::<(), _>(
            if w.is_paused() {
                ContractError::Paused
            } else {
                ContractError::UpgradeAlreadyPending
            },
        ),
{
}

/// While paused, nothing goes through: the admin is answered `Paused`, no
/// balance moves, and what governance would say does not matter.
pub proof fn law_pause_stops_changes(
    w: WalletView,
    admin: Address,
    user: Address,
    amount: i128,
    cap: i128,
    hash: Bytes32,
    version: u32,
    now: u64,
)
    requires
        w.is_paused(),
        w.governance.admin == Some(admin),
    ensures
        w.credit_outcome(admin, user, amount) == Err::<(), _>(ContractError::Paused),
        w.debit_outcome(admin, user, amount, now) == Err::<(), _>(ContractError::Paused),
        w.credit_next(admin, user, amount) == w,
        w.debit_next(admin, user, amount, now) == w,
        w.entry_outcome(admin) == Err::<(), _>(ContractError::Paused),
        w.set_cap_outcome(admin, cap) == Err::<(), _>(ContractError::Paused),
        w.setting_outcome(admin) == Err::<(), _>(ContractError::Paused),
        w.propose_outcome(admin, version) == Err::<(), _>(ContractError::Paused),
        w.execute_outcome(admin, hash, now) == Err::<(), _>(ContractError::Paused),
        w.emergency_outcome(admin, version) == Err::<(), _>(ContractError::Paused),
        w.cancel_outcome(admin) == Err::<(), _>(ContractError::Paused),
{
}

} // verus!
