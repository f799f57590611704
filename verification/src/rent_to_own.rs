//! Rent-to-own deals: equity that builds up with each payment, and what becomes
//! of it on completion, on default and on a transfer.

use vstd::prelude::*;

use crate::access_control::{require_admin_permission, PausableError};
use crate::arith;
use crate::host::{Action, Data, Env, Event, Topics, Value};
use crate::table::Table;
use crate::upgrade_governance;
use crate::upgrade_governance::{UpgradeGovernance, UpgradeGovernanceError, UpgradeGovernanceKey};
use crate::value::{Address, Bytes32};

verus! {

#[derive(Clone, Copy, Debug, PartialEq, Eq, Structural)]
pub enum ContractError {
    AlreadyInitialized,
    NotAuthorized,
    DealNotFound,
    DealNotActive,
    PaymentsNotComplete,
    EquityOverflow,
    InvalidAmount,
    DealAlreadyExists,
    AlreadySettled,
    DealNotDefaulted,
    SettlementNotFound,
    InvalidTransfer,
    /// State-mutating call attempted while the contract is paused.
    Paused,
    UpgradeAlreadyPending,
    NoUpgradePending,
    UpgradeDelayNotMet,
    /// An amount does not fit in the numbers of the ledger.
    AmountOverflow,
}

impl ContractError {
    pub open spec fn code_of(self) -> u32 {
        match self {
            Self::AlreadyInitialized => 1,
            Self::NotAuthorized => 2,
            Self::DealNotFound => 3,
            Self::DealNotActive => 4,
            Self::PaymentsNotComplete => 5,
            Self::EquityOverflow => 6,
            Self::InvalidAmount => 7,
            Self::DealAlreadyExists => 8,
            Self::AlreadySettled => 9,
            Self::DealNotDefaulted => 10,
            Self::SettlementNotFound => 11,
            Self::InvalidTransfer => 12,
            Self::Paused => 13,
            Self::UpgradeAlreadyPending => 14,
            Self::NoUpgradePending => 15,
            Self::UpgradeDelayNotMet => 16,
            Self::AmountOverflow => 17,
        }
    }

    /// The number under which callers see the error.
    pub fn code(self) -> (c: u32)
        ensures
            c == self.code_of(),
    {
        match self {
            Self::AlreadyInitialized => 1,
            Self::NotAuthorized => 2,
            Self::DealNotFound => 3,
            Self::DealNotActive => 4,
            Self::PaymentsNotComplete => 5,
            Self::EquityOverflow => 6,
            Self::InvalidAmount => 7,
            Self::DealAlreadyExists => 8,
            Self::AlreadySettled => 9,
            Self::DealNotDefaulted => 10,
            Self::SettlementNotFound => 11,
            Self::InvalidTransfer => 12,
            Self::Paused => 13,
            Self::UpgradeAlreadyPending => 14,
            Self::NoUpgradePending => 15,
            Self::UpgradeDelayNotMet => 16,
            Self::AmountOverflow => 17,
        }
    }
}

#[derive(Clone, Copy, Debug, PartialEq, Eq, Structural)]
pub enum DealStatus {
    Active,
    Completed,
    Defaulted,
    Cancelled,
}

#[derive(Clone, Copy, Debug)]
pub struct RentToOwnDeal {
    pub deal_id: Bytes32,
    pub tenant: Address,
    pub property_value_usdc: i128,
    pub equity_accumulated_usdc: i128,
    pub monthly_equity_usdc: i128,
    pub payments_made: u32,
    pub total_payments_required: u32,
    pub status: DealStatus,
}

#[derive(Clone, Copy, Debug)]
pub struct EquityPayment {
    pub deal_id: Bytes32,
    pub payment_number: u32,
    pub equity_amount: i128,
    pub total_rent_amount: i128,
    pub paid_at: u64,
}

/// Who is entitled to what of the equity after a default. Not settled until
/// `settle_default` is called.
#[derive(Clone, Copy, Debug, PartialEq, Eq, Structural)]
pub struct DefaultSettlementRecord {
    /// Amount refundable to the tenant
    pub refundable_usdc: i128,
    /// Amount forfeited to the platform
    pub forfeited_usdc: i128,
    /// True once `settle_default` has been executed
    pub settled: bool,
}

/// What the contract keeps in storage.
pub struct RentToOwn {
    pub governance: UpgradeGovernance,
    pub paused: Option<bool>,
    /// Share of the equity that a default forfeits, in basis points.
    pub forfeiture_bps: Option<u32>,
    pub deals: Table<Bytes32, RentToOwnDeal>,
    pub payments: Table<(Bytes32, u32), EquityPayment>,
    pub settlements: Table<Bytes32, DefaultSettlementRecord>,
}

/// The storage with its tables as maps.
#[verifier::ext_equal]
pub struct DealsView {
    pub governance: UpgradeGovernance,
    pub paused: Option<bool>,
    pub forfeiture_bps: Option<u32>,
    pub deals: Map<Bytes32, RentToOwnDeal>,
    pub payments: Map<(Bytes32, u32), EquityPayment>,
    pub settlements: Map<Bytes32, DefaultSettlementRecord>,
}

impl View for RentToOwn {
    type V = DealsView;

    open spec fn view(&self) -> DealsView {
        DealsView {
            governance: self.governance,
            paused: self.paused,
            forfeiture_bps: self.forfeiture_bps,
            deals: self.deals@,
            payments: self.payments@,
            settlements: self.settlements@,
        }
    }
}

/// The part of `equity` that a rate of `forfeiture_bps` forfeits, rounded down.
pub open spec fn forfeited_part(equity: i128, forfeiture_bps: u32) -> int {
    arith::quotient(equity * forfeiture_bps, 10_000)
}

/// Split `equity` into what is refundable and what is forfeited; `None` where
/// the product of equity and rate is no `i128`.
pub fn equity_split(equity: i128, forfeiture_bps: u32) -> (split: Option<(i128, i128)>)
    ensures
        split is Some <==> arith::is_i128(equity * forfeiture_bps),
        split matches Some((refundable, forfeited)) ==> forfeited == forfeited_part(
            equity,
            forfeiture_bps,
        ) && refundable == equity - forfeited,
        split matches Some((refundable, forfeited)) ==> equity >= 0 ==> forfeited * 10_000 <= equity
            * forfeiture_bps < (forfeited + 1) * 10_000,
{
    let product: i128 = match equity.checked_mul(forfeiture_bps as i128) {
        Some(product) => product,
        None => {
            return None;
        },
    };
    proof {
        assert(equity >= 0 ==> product >= 0) by (nonlinear_arith)
            requires
                product == equity * forfeiture_bps,
                forfeiture_bps >= 0,
        ;
        assert(equity <= 0 ==> product <= 0) by (nonlinear_arith)
            requires
                product == equity * forfeiture_bps,
                forfeiture_bps >= 0,
        ;
    }
    let forfeited: i128 = product / 10_000;
    let refundable: i128 = equity - forfeited;
    Some((refundable, forfeited))
}

/// Nothing of the equity is lost or made up in a split: both parts lie between
/// zero and the equity, and together they are the equity. A rate of zero
/// refunds everything, the full rate forfeits everything.
pub proof fn law_split_conserves_equity(equity: i128, forfeiture_bps: u32)
    requires
        equity >= 0,
        forfeiture_bps <= 10_000,
    ensures
        0 <= forfeited_part(equity, forfeiture_bps) <= equity,
        forfeiture_bps == 0 ==> forfeited_part(equity, forfeiture_bps) == 0,
        forfeiture_bps == 10_000 ==> forfeited_part(equity, forfeiture_bps) == equity,
{
    assert(0 <= equity * forfeiture_bps <= equity * 10_000) by (nonlinear_arith)
        requires
            equity >= 0,
            0 <= forfeiture_bps <= 10_000,
    ;
}

impl RentToOwnDeal {
    /// The equity is no more than the property is worth.
    pub open spec fn in_bounds(self) -> bool {
        0 <= self.equity_accumulated_usdc <= self.property_value_usdc
    }

    /// A deal toward which nothing was paid yet.
    pub open spec fn fresh(
        deal_id: Bytes32,
        tenant: Address,
        property_value_usdc: i128,
        monthly_equity_usdc: i128,
        total_payments_required: u32,
    ) -> RentToOwnDeal {
        RentToOwnDeal {
            deal_id,
            tenant,
            property_value_usdc,
            equity_accumulated_usdc: 0,
            monthly_equity_usdc,
            payments_made: 0,
            total_payments_required,
            status: DealStatus::Active,
        }
    }

    /// The deal after a payment of `equity_amount` toward the property.
    pub open spec fn with_payment(self, equity_amount: i128) -> RentToOwnDeal {
        RentToOwnDeal {
            equity_accumulated_usdc: (self.equity_accumulated_usdc + equity_amount) as i128,
            payments_made: (self.payments_made + 1) as u32,
            ..self
        }
    }

    pub open spec fn with_status(self, status: DealStatus) -> RentToOwnDeal {
        RentToOwnDeal { status, ..self }
    }
}

pub open spec fn event(name: &'static str, data: Data) -> Event {
    Event { topics: Topics::Two(Value::Symbol("rent_to_own"), Value::Symbol(name)), data }
}

pub open spec fn pausable_event(name: &'static str, admin: Address) -> Event {
    Event {
        topics: Topics::Two(Value::Symbol("Pausable"), Value::Symbol(name)),
        data: Data::One(Value::Address(admin)),
    }
}

impl DealsView {
    pub open spec fn is_paused(self) -> bool {
        self.paused.unwrap_or(false)
    }

    pub open spec fn forfeiture(self) -> u32 {
        self.forfeiture_bps.unwrap_or(0)
    }

    pub open spec fn with_deal(self, id: Bytes32, deal: RentToOwnDeal) -> DealsView {
        DealsView { deals: self.deals.insert(id, deal), ..self }
    }

    pub open spec fn with_settlement(
        self,
        id: Bytes32,
        settlement: DefaultSettlementRecord,
    ) -> DealsView {
        DealsView { settlements: self.settlements.insert(id, settlement), ..self }
    }

    pub open spec fn with_governance(self, governance: UpgradeGovernance) -> DealsView {
        DealsView { governance, ..self }
    }

    /// Looking up the admin aborts before `init`.
    pub open spec fn admin_abort(self) -> Option<&'static str> {
        if self.governance.admin is Some {
            None
        } else {
            Some("not init")
        }
    }

    /// Abort on entry: a paused contract answers before it looks up the
    /// admin.
    pub open spec fn entry_abort(self) -> Option<&'static str> {
        if self.is_paused() {
            None
        } else {
            self.admin_abort()
        }
    }

    /// Answer on entry: the contract has to be running and the caller to
    /// be the admin.
    pub open spec fn entry(self, admin: Address) -> Result<(), ContractError> {
        if self.is_paused() {
            Err(ContractError::Paused)
        } else if self.governance.admin != Some(admin) {
            Err(ContractError::NotAuthorized)
        } else {
            Ok(())
        }
    }

    /// What entering asks of the ledger.
    pub open spec fn entry_actions(self, admin: Address) -> Seq<Action> {
        if self.is_paused() {
            seq![]
        } else {
            seq![Action::RequireAuth(admin)]
        }
    }

    pub open spec fn init_outcome(self, forfeiture_bps: u32) -> Result<(), ContractError> {
        if self.governance.admin is Some {
            Err(ContractError::AlreadyInitialized)
        } else if forfeiture_bps > 10_000 {
            Err(ContractError::InvalidAmount)
        } else {
            Ok(())
        }
    }

    pub open spec fn register_outcome(
        self,
        admin: Address,
        id: Bytes32,
        property_value: i128,
        monthly_equity: i128,
    ) -> Result<(), ContractError> {
        if self.entry(admin) is Err {
            self.entry(admin)
        } else if property_value < 0 || monthly_equity <= 0 {
            Err(ContractError::InvalidAmount)
        } else if self.deals.dom().contains(id) {
            Err(ContractError::DealAlreadyExists)
        } else {
            Ok(())
        }
    }

    /// Entry, and then an active deal.
    pub open spec fn active_outcome(self, admin: Address, id: Bytes32) -> Result<
        (),
        ContractError,
    > {
        if self.entry(admin) is Err {
            self.entry(admin)
        } else if !self.deals.dom().contains(id) {
            Err(ContractError::DealNotFound)
        } else if self.deals[id].status !is Active {
            Err(ContractError::DealNotActive)
        } else {
            Ok(())
        }
    }

    pub open spec fn payment_outcome(
        self,
        admin: Address,
        id: Bytes32,
        rent_amount: i128,
        equity_amount: i128,
    ) -> Result<(), ContractError> {
        let equity = self.deals[id].equity_accumulated_usdc + equity_amount;
        if self.entry(admin) is Err {
            self.entry(admin)
        } else if rent_amount <= 0 || equity_amount <= 0 {
            Err(ContractError::InvalidAmount)
        } else if self.active_outcome(admin, id) is Err {
            self.active_outcome(admin, id)
        } else if rent_amount + equity_amount > i128::MAX || equity > i128::MAX {
            Err(ContractError::AmountOverflow)
        } else if equity > self.deals[id].property_value_usdc {
            Err(ContractError::EquityOverflow)
        } else {
            Ok(())
        }
    }

    pub open spec fn payment_abort(
        self,
        admin: Address,
        id: Bytes32,
        rent_amount: i128,
        equity_amount: i128,
    ) -> Option<&'static str> {
        if self.entry_abort() is Some {
            self.entry_abort()
        } else if self.payment_outcome(admin, id, rent_amount, equity_amount) is Ok
            && self.deals[id].payments_made == u32::MAX {
            Some("attempt to add with overflow")
        } else {
            None
        }
    }

    /// Storage after a payment of `equity_amount` at time `now`.
    pub open spec fn with_payment(
        self,
        id: Bytes32,
        rent_amount: i128,
        equity_amount: i128,
        now: u64,
    ) -> DealsView {
        let deal = self.deals[id].with_payment(equity_amount);
        DealsView {
            deals: self.deals.insert(id, deal),
            payments: self.payments.insert(
                (id, deal.payments_made),
                EquityPayment {
                    deal_id: id,
                    payment_number: deal.payments_made,
                    equity_amount,
                    total_rent_amount: rent_amount,
                    paid_at: now,
                },
            ),
            ..self
        }
    }

    pub open spec fn complete_outcome(self, admin: Address, id: Bytes32) -> Result<
        (),
        ContractError,
    > {
        if self.active_outcome(admin, id) is Err {
            self.active_outcome(admin, id)
        } else if self.deals[id].payments_made != self.deals[id].total_payments_required {
            Err(ContractError::PaymentsNotComplete)
        } else {
            Ok(())
        }
    }

    pub open spec fn default_outcome(self, admin: Address, id: Bytes32) -> Result<
        (),
        ContractError,
    > {
        if self.active_outcome(admin, id) is Err {
            self.active_outcome(admin, id)
        } else if !arith::is_i128(self.deals[id].equity_accumulated_usdc * self.forfeiture()) {
            Err(ContractError::AmountOverflow)
        } else {
            Ok(())
        }
    }

    /// What a default entitles to, by the configured rate.
    pub open spec fn entitlement(self, id: Bytes32) -> DefaultSettlementRecord {
        let equity = self.deals[id].equity_accumulated_usdc;
        let forfeited = forfeited_part(equity, self.forfeiture());
        DefaultSettlementRecord {
            refundable_usdc: (equity - forfeited) as i128,
            forfeited_usdc: forfeited as i128,
            settled: false,
        }
    }

    pub open spec fn settle_outcome(self, admin: Address, id: Bytes32) -> Result<
        DefaultSettlementRecord,
        ContractError,
    > {
        if self.entry(admin) is Err {
            Err(self.entry(admin)->Err_0)
        } else if !self.deals.dom().contains(id) {
            Err(ContractError::DealNotFound)
        } else if self.deals[id].status !is Defaulted {
            Err(ContractError::DealNotDefaulted)
        } else if !self.settlements.dom().contains(id) {
            Err(ContractError::SettlementNotFound)
        } else if self.settlements[id].settled {
            Err(ContractError::AlreadySettled)
        } else {
            Ok(DefaultSettlementRecord { settled: true, ..self.settlements[id] })
        }
    }

    pub open spec fn transfer_outcome(
        self,
        admin: Address,
        from: Address,
        to: Address,
        id: Bytes32,
    ) -> Result<(), ContractError> {
        if self.entry(admin) is Err {
            self.entry(admin)
        } else if !self.deals.dom().contains(id) {
            Err(ContractError::DealNotFound)
        } else if self.deals[id].tenant != from {
            Err(ContractError::NotAuthorized)
        } else if self.deals[id].status !is Active || from == to {
            Err(ContractError::InvalidTransfer)
        } else {
            Ok(())
        }
    }

    /// Authorisations that a transfer asks for: once entered, the tenant's
    /// besides the admin's.
    pub open spec fn transfer_auths(self, admin: Address, from: Address) -> Seq<Action> {
        if self.entry(admin) is Ok {
            seq![Action::RequireAuth(admin), Action::RequireAuth(from)]
        } else {
            self.entry_actions(admin)
        }
    }

    /// Equity in basis points of the property value, rounded toward zero; zero
    /// for a deal that does not exist or is worth nothing.
    pub open spec fn equity_bps(self, id: Bytes32) -> int {
        if !self.deals.dom().contains(id) || self.deals[id].property_value_usdc == 0 {
            0
        } else {
            arith::quotient(
                self.deals[id].equity_accumulated_usdc * 10_000,
                self.deals[id].property_value_usdc as int,
            )
        }
    }

    pub open spec fn percentage_abort(self, id: Bytes32) -> Option<&'static str> {
        if !self.deals.dom().contains(id) || self.deals[id].property_value_usdc == 0 {
            None
        } else if !arith::is_i128(self.deals[id].equity_accumulated_usdc * 10_000) {
            Some("attempt to multiply with overflow")
        } else {
            None
        }
    }

    /// What an entry point of upgrade governance answers, where governance
    /// itself gives `answer`: while paused, nothing is passed on to it.
    pub open spec fn governed(self, answer: Result<(), UpgradeGovernanceError>) -> Result<
        (),
        ContractError,
    > {
        if self.is_paused() {
            Err(ContractError::Paused)
        } else {
            reported(answer)
        }
    }

    /// The storage after such an entry point, where governance comes to `next`.
    pub open spec fn governed_next(self, next: UpgradeGovernance) -> DealsView {
        if self.is_paused() {
            self
        } else {
            self.with_governance(next)
        }
    }

    /// What such an entry point asks of the ledger, where governance asks for
    /// `actions`.
    pub open spec fn governed_actions(self, actions: Seq<Action>) -> Seq<Action> {
        if self.is_paused() {
            seq![]
        } else {
            actions
        }
    }

    /// Abort of such an entry point, where governance aborts with `abort`.
    pub open spec fn governed_abort(self, abort: Option<&'static str>) -> Option<&'static str> {
        if self.is_paused() {
            None
        } else {
            abort
        }
    }

    pub open spec fn cancel_outcome(self, admin: Address) -> Result<(), ContractError> {
        if self.entry(admin) is Err {
            self.entry(admin)
        } else if self.governance.pending_upgrade_hash is None {
            Err(ContractError::NoUpgradePending)
        } else {
            Ok(())
        }
    }

    pub open spec fn pause_outcome(self, admin: Address) -> Result<(), PausableError> {
        if self.governance.admin == Some(admin) {
            Ok(())
        } else {
            Err(PausableError::NotAuthorized)
        }
    }
}

impl RentToOwn {
    /// Storage before `init`.
    pub fn new() -> (c: RentToOwn)
        ensures
            c@ == (DealsView {
                governance: UpgradeGovernance::empty(),
                paused: None,
                forfeiture_bps: None,
                deals: Map::empty(),
                payments: Map::empty(),
                settlements: Map::empty(),
            }),
    {
        RentToOwn {
            governance: UpgradeGovernance::new(),
            paused: None,
            forfeiture_bps: None,
            deals: Table::new(),
            payments: Table::new(),
            settlements: Table::new(),
        }
    }

    /// Find out whether entering would abort.
    pub fn check_entry(&self) -> (abort: Option<&'static str>)
        ensures
            abort == self@.entry_abort(),
    {
        if self.is_paused() || self.governance.admin.is_some() {
            None
        } else {
            Some("not init")
        }
    }

    /// Find out whether an entry point that looks up the admin would abort.
    pub fn check_admin(&self) -> (abort: Option<&'static str>)
        ensures
            abort == self@.admin_abort(),
    {
        if self.governance.admin.is_some() {
            None
        } else {
            Some("not init")
        }
    }

    fn require_not_paused(&self) -> (r: Result<(), ContractError>)
        ensures
            r == (if self@.is_paused() {
                Err(ContractError::Paused)
            } else {
                Ok(())
            }),
    {
        if self.is_paused() {
            return Err(ContractError::Paused);
        }
        Ok(())
    }

    fn require_admin(&self, env: &mut Env, caller: &Address) -> (r: Result<(), ContractError>)
        requires
            self@.admin_abort() is None,
        ensures
            r == (if self.governance.admin == Some(*caller) {
                Ok(())
            } else {
                Err(ContractError::NotAuthorized)
            }),
            final(env).after(*old(env), seq![Action::RequireAuth(*caller)]),
    {
        let admin = self.governance.admin.unwrap();
        require_admin_permission(env, &admin, caller, ContractError::NotAuthorized)
    }

    /// Pass only while the contract is running, and only the admin.
    fn enter(&self, env: &mut Env, admin: &Address) -> (r: Result<(), ContractError>)
        requires
            self@.entry_abort() is None,
        ensures
            r == self@.entry(*admin),
            final(env).after(*old(env), self@.entry_actions(*admin)),
    {
        match self.require_not_paused() {
            Err(e) => Err(e),
            Ok(()) => self.require_admin(env, admin),
        }
    }

    /// Set the admin and the forfeiture rate, once. The rate is the share of
    /// the equity that a default forfeits, in basis points.
    pub fn init(&mut self, admin: &Address, forfeiture_bps: u32) -> (r: Result<(), ContractError>)
        ensures
            r == old(self)@.init_outcome(forfeiture_bps),
            r is Ok ==> final(self)@ == (DealsView {
                governance: UpgradeGovernance {
                    admin: Some(*admin),
                    contract_version: Some(1),
                    ..old(self).governance
                },
                forfeiture_bps: Some(forfeiture_bps),
                paused: Some(false),
                ..old(self)@
            }),
            r is Err ==> final(self)@ == old(self)@,
    {
        if self.governance.has(UpgradeGovernanceKey::Admin) {
            return Err(ContractError::AlreadyInitialized);
        }
        if forfeiture_bps > 10_000 {
            return Err(ContractError::InvalidAmount);
        }
        self.governance.admin = Some(*admin);
        self.governance.contract_version = Some(1);
        self.forfeiture_bps = Some(forfeiture_bps);
        self.paused = Some(false);
        Ok(())
    }

    /// Register a deal. A property may be worth nothing, but no less.
    pub fn register_deal(
        &mut self,
        env: &mut Env,
        admin: &Address,
        deal_id: &Bytes32,
        tenant: &Address,
        property_value_usdc: i128,
        monthly_equity_usdc: i128,
        total_payments_required: u32,
    ) -> (r: Result<(), ContractError>)
        requires
            old(self)@.entry_abort() is None,
        ensures
            r == old(self)@.register_outcome(
                *admin,
                *deal_id,
                property_value_usdc,
                monthly_equity_usdc,
            ),
            r is Ok ==> final(self)@ == old(self)@.with_deal(
                *deal_id,
                RentToOwnDeal {
                    deal_id: *deal_id,
                    tenant: *tenant,
                    property_value_usdc,
                    equity_accumulated_usdc: 0,
                    monthly_equity_usdc,
                    payments_made: 0,
                    total_payments_required,
                    status: DealStatus::Active,
                },
            ) && final(env).after(
                *old(env),
                old(self)@.entry_actions(*admin) + seq![
                    Action::Publish(event("deal_registered", Data::One(Value::Bytes(*deal_id)))),
                ],
            ),
            r is Ok ==> final(self)@.deals[*deal_id] == RentToOwnDeal::fresh(
                *deal_id,
                *tenant,
                property_value_usdc,
                monthly_equity_usdc,
                total_payments_required,
            ),
            r is Err ==> final(self)@ == old(self)@ && final(env).after(
                *old(env),
                old(self)@.entry_actions(*admin),
            ),
    {
        match self.enter(env, admin) {
            Err(e) => {
                return Err(e);
            },
            Ok(()) => {},
        }
        if property_value_usdc < 0 || monthly_equity_usdc <= 0 {
            return Err(ContractError::InvalidAmount);
        }
        if self.deals.has(deal_id) {
            return Err(ContractError::DealAlreadyExists);
        }
        let deal = RentToOwnDeal {
            deal_id: *deal_id,
            tenant: *tenant,
            property_value_usdc,
            equity_accumulated_usdc: 0,
            monthly_equity_usdc,
            payments_made: 0,
            total_payments_required,
            status: DealStatus::Active,
        };
        self.deals.set(*deal_id, deal);
        env.publish(
            Event {
                topics: Topics::Two(
                    Value::Symbol("rent_to_own"),
                    Value::Symbol("deal_registered"),
                ),
                data: Data::One(Value::Bytes(*deal_id)),
            },
        );
        Ok(())
    }

    fn active_deal(&self, deal_id: &Bytes32) -> (r: Result<RentToOwnDeal, ContractError>)
        ensures
            match r {
                Ok(deal) => self@.deals.dom().contains(*deal_id) && deal == self@.deals[*deal_id]
                    && deal.status is Active,
                Err(e) => if self@.deals.dom().contains(*deal_id) {
                    self@.deals[*deal_id].status !is Active && e == ContractError::DealNotActive
                } else {
                    e == ContractError::DealNotFound
                },
            },
    {
        match self.deals.get(deal_id) {
            None => Err(ContractError::DealNotFound),
            Some(deal) => if deal.status != DealStatus::Active {
                Err(ContractError::DealNotActive)
            } else {
                Ok(*deal)
            },
        }
    }

    /// Find out whether `record_equity_payment` would abort.
    pub fn check_record_equity_payment(
        &self,
        admin: &Address,
        deal_id: &Bytes32,
        rent_amount: i128,
        equity_amount: i128,
    ) -> (abort: Option<&'static str>)
        ensures
            abort == self@.payment_abort(*admin, *deal_id, rent_amount, equity_amount),
    {
        if let Some(message) = self.check_entry() {
            return Some(message);
        }
        if self.is_paused() || rent_amount <= 0 || equity_amount <= 0
            || self.governance.admin.unwrap() != *admin {
            return None;
        }
        match self.active_deal(deal_id) {
            Err(_) => None,
            Ok(deal) => {
                if rent_amount.checked_add(equity_amount).is_none() {
                    return None;
                }
                match deal.equity_accumulated_usdc.checked_add(equity_amount) {
                    Some(equity) => if equity <= deal.property_value_usdc && deal.payments_made
                        == u32::MAX {
                        Some("attempt to add with overflow")
                    } else {
                        None
                    },
                    None => None,
                }
            },
        }
    }

    /// Record a monthly payment, and add its equity part to the deal.
    ///
    /// Rent and equity together have to be an amount the ledger can hold, and
    /// the equity must not exceed the value of the property.
    pub fn record_equity_payment(
        &mut self,
        env: &mut Env,
        admin: &Address,
        deal_id: &Bytes32,
        rent_amount: i128,
        equity_amount: i128,
    ) -> (r: Result<(), ContractError>)
        requires
            old(self)@.payment_abort(*admin, *deal_id, rent_amount, equity_amount) is None,
        ensures
            r == old(self)@.payment_outcome(*admin, *deal_id, rent_amount, equity_amount),
            r is Ok ==> final(self)@ == old(self)@.with_payment(
                *deal_id,
                rent_amount,
                equity_amount,
                old(env).now,
            ) && final(env).after(
                *old(env),
                old(self)@.entry_actions(*admin) + seq![
                    Action::Publish(
                        event(
                            "equity_payment_recorded",
                            Data::Three(
                                Value::Bytes(*deal_id),
                                Value::U32(final(self)@.deals[*deal_id].payments_made),
                                Value::I128(final(self)@.deals[*deal_id].equity_accumulated_usdc),
                            ),
                        ),
                    ),
                ],
            ),
            r is Err ==> final(self)@ == old(self)@ && final(env).after(
                *old(env),
                old(self)@.entry_actions(*admin),
            ),
    {
        match self.enter(env, admin) {
            Err(e) => {
                return Err(e);
            },
            Ok(()) => {},
        }
        if rent_amount <= 0 || equity_amount <= 0 {
            return Err(ContractError::InvalidAmount);
        }
        let mut deal: RentToOwnDeal = match self.active_deal(deal_id) {
            Err(e) => {
                return Err(e);
            },
            Ok(deal) => deal,
        };
        if rent_amount.checked_add(equity_amount).is_none() {
            return Err(ContractError::AmountOverflow);
        }
        let new_equity: i128 = match deal.equity_accumulated_usdc.checked_add(equity_amount) {
            Some(equity) => equity,
            None => {
                return Err(ContractError::AmountOverflow);
            },
        };
        if new_equity > deal.property_value_usdc {
            return Err(ContractError::EquityOverflow);
        }
        deal.equity_accumulated_usdc = new_equity;
        deal.payments_made = deal.payments_made + 1;
        let payment_number: u32 = deal.payments_made;
        self.deals.set(*deal_id, deal);

        let payment = EquityPayment {
            deal_id: *deal_id,
            payment_number,
            equity_amount,
            total_rent_amount: rent_amount,
            paid_at: env.timestamp(),
        };
        self.payments.set((*deal_id, payment_number), payment);
        env.publish(
            Event {
                topics: Topics::Two(
                    Value::Symbol("rent_to_own"),
                    Value::Symbol("equity_payment_recorded"),
                ),
                data: Data::Three(
                    Value::Bytes(*deal_id),
                    Value::U32(payment_number),
                    Value::I128(new_equity),
                ),
            },
        );
        Ok(())
    }

    /// Mark a deal completed once all payments have been made.
    pub fn complete_deal(&mut self, env: &mut Env, admin: &Address, deal_id: &Bytes32) -> (r:
        Result<(), ContractError>)
        requires
            old(self)@.entry_abort() is None,
        ensures
            r == old(self)@.complete_outcome(*admin, *deal_id),
            r is Ok ==> final(self)@ == old(self)@.with_deal(
                *deal_id,
                old(self)@.deals[*deal_id].with_status(DealStatus::Completed),
            ) && final(env).after(
                *old(env),
                old(self)@.entry_actions(*admin) + seq![
                    Action::Publish(
                        event(
                            "deal_completed",
                            Data::Three(
                                Value::Bytes(*deal_id),
                                Value::Address(old(self)@.deals[*deal_id].tenant),
                                Value::I128(old(self)@.deals[*deal_id].equity_accumulated_usdc),
                            ),
                        ),
                    ),
                ],
            ),
            r is Err ==> final(self)@ == old(self)@ && final(env).after(
                *old(env),
                old(self)@.entry_actions(*admin),
            ),
    {
        match self.enter(env, admin) {
            Err(e) => {
                return Err(e);
            },
            Ok(()) => {},
        }
        let mut deal: RentToOwnDeal = match self.active_deal(deal_id) {
            Err(e) => {
                return Err(e);
            },
            Ok(deal) => deal,
        };
        if deal.payments_made != deal.total_payments_required {
            return Err(ContractError::PaymentsNotComplete);
        }
        deal.status = DealStatus::Completed;
        self.deals.set(*deal_id, deal);
        env.publish(
            Event {
                topics: Topics::Two(
                    Value::Symbol("rent_to_own"),
                    Value::Symbol("deal_completed"),
                ),
                data: Data::Three(
                    Value::Bytes(*deal_id),
                    Value::Address(deal.tenant),
                    Value::I128(deal.equity_accumulated_usdc),
                ),
            },
        );
        Ok(())
    }

    /// Mark a deal defaulted, and record who is entitled to what of its equity.
    /// The settlement itself is `settle_default`.
    pub fn default_deal(
        &mut self,
        env: &mut Env,
        admin: &Address,
        deal_id: &Bytes32,
        reason: &String,
    ) -> (r: Result<(), ContractError>)
        requires
            old(self)@.entry_abort() is None,
        ensures
            r == old(self)@.default_outcome(*admin, *deal_id),
            r is Ok ==> final(self)@ == old(self)@.with_deal(
                *deal_id,
                old(self)@.deals[*deal_id].with_status(DealStatus::Defaulted),
            ).with_settlement(*deal_id, old(self)@.entitlement(*deal_id)) && final(env).after(
                *old(env),
                old(self)@.entry_actions(*admin) + seq![
                    Action::Publish(
                        event(
                            "deal_defaulted",
                            Data::Five(
                                Value::Bytes(*deal_id),
                                Value::CallerSymbol(*reason),
                                Value::I128(old(self)@.deals[*deal_id].equity_accumulated_usdc),
                                Value::I128(old(self)@.entitlement(*deal_id).refundable_usdc),
                                Value::I128(old(self)@.entitlement(*deal_id).forfeited_usdc),
                            ),
                        ),
                    ),
                ],
            ),
            r is Err ==> final(self)@ == old(self)@ && final(env).after(
                *old(env),
                old(self)@.entry_actions(*admin),
            ),
    {
        match self.enter(env, admin) {
            Err(e) => {
                return Err(e);
            },
            Ok(()) => {},
        }
        let mut deal: RentToOwnDeal = match self.active_deal(deal_id) {
            Err(e) => {
                return Err(e);
            },
            Ok(deal) => deal,
        };
        let accumulated: i128 = deal.equity_accumulated_usdc;
        let forfeiture_bps: u32 = self.forfeiture_bps.unwrap_or(0);
        let (refundable, forfeited) = match equity_split(accumulated, forfeiture_bps) {
            Some(split) => split,
            None => {
                return Err(ContractError::AmountOverflow);
            },
        };
        deal.status = DealStatus::Defaulted;
        self.deals.set(*deal_id, deal);
        let settlement = DefaultSettlementRecord {
            refundable_usdc: refundable,
            forfeited_usdc: forfeited,
            settled: false,
        };
        self.settlements.set(*deal_id, settlement);
        env.publish(
            Event {
                topics: Topics::Two(
                    Value::Symbol("rent_to_own"),
                    Value::Symbol("deal_defaulted"),
                ),
                data: Data::Five(
                    Value::Bytes(*deal_id),
                    Value::CallerSymbol(reason.clone()),
                    Value::I128(accumulated),
                    Value::I128(refundable),
                    Value::I128(forfeited),
                ),
            },
        );
        Ok(())
    }

    /// Execute the settlement of a defaulted deal, exactly once.
    pub fn settle_default(&mut self, env: &mut Env, admin: &Address, deal_id: &Bytes32) -> (r:
        Result<DefaultSettlementRecord, ContractError>)
        requires
            old(self)@.entry_abort() is None,
        ensures
            r == old(self)@.settle_outcome(*admin, *deal_id),
            r matches Ok(settlement) ==> final(self)@ == old(self)@.with_settlement(
                *deal_id,
                settlement,
            ) && final(env).after(
                *old(env),
                old(self)@.entry_actions(*admin) + seq![
                    Action::Publish(
                        event(
                            "equity_settled",
                            Data::Four(
                                Value::Bytes(*deal_id),
                                Value::Address(old(self)@.deals[*deal_id].tenant),
                                Value::I128(settlement.refundable_usdc),
                                Value::I128(settlement.forfeited_usdc),
                            ),
                        ),
                    ),
                ],
            ),
            r is Err ==> final(self)@ == old(self)@ && final(env).after(
                *old(env),
                old(self)@.entry_actions(*admin),
            ),
    {
        match self.enter(env, admin) {
            Err(e) => {
                return Err(e);
            },
            Ok(()) => {},
        }
        let deal: RentToOwnDeal = match self.deals.get(deal_id) {
            None => {
                return Err(ContractError::DealNotFound);
            },
            Some(deal) => *deal,
        };
        if deal.status != DealStatus::Defaulted {
            return Err(ContractError::DealNotDefaulted);
        }
        let mut settlement: DefaultSettlementRecord = match self.settlements.get(deal_id) {
            None => {
                return Err(ContractError::SettlementNotFound);
            },
            Some(settlement) => *settlement,
        };
        if settlement.settled {
            return Err(ContractError::AlreadySettled);
        }
        settlement.settled = true;
        self.settlements.set(*deal_id, settlement);
        env.publish(
            Event {
                topics: Topics::Two(
                    Value::Symbol("rent_to_own"),
                    Value::Symbol("equity_settled"),
                ),
                data: Data::Four(
                    Value::Bytes(*deal_id),
                    Value::Address(deal.tenant),
                    Value::I128(settlement.refundable_usdc),
                    Value::I128(settlement.forfeited_usdc),
                ),
            },
        );
        Ok(settlement)
    }

    /// Hand an active position, with its equity and what is left to pay, from
    /// the current tenant to another party. Tenant and admin have to agree.
    pub fn transfer_position(
        &mut self,
        env: &mut Env,
        admin: &Address,
        from: &Address,
        to: &Address,
        deal_id: &Bytes32,
    ) -> (r: Result<(), ContractError>)
        requires
            old(self)@.entry_abort() is None,
        ensures
            r == old(self)@.transfer_outcome(*admin, *from, *to, *deal_id),
            r is Ok ==> final(self)@ == old(self)@.with_deal(
                *deal_id,
                RentToOwnDeal { tenant: *to, ..old(self)@.deals[*deal_id] },
            ) && final(env).after(
                *old(env),
                old(self)@.transfer_auths(*admin, *from) + seq![
                    Action::Publish(
                        event(
                            "position_transferred",
                            Data::Four(
                                Value::Bytes(*deal_id),
                                Value::Address(*from),
                                Value::Address(*to),
                                Value::I128(old(self)@.deals[*deal_id].equity_accumulated_usdc),
                            ),
                        ),
                    ),
                ],
            ),
            r is Err ==> final(self)@ == old(self)@ && final(env).after(
                *old(env),
                old(self)@.transfer_auths(*admin, *from),
            ),
    {
        match self.enter(env, admin) {
            Err(e) => {
                return Err(e);
            },
            Ok(()) => {},
        }
        env.require_auth(from);
        let mut deal: RentToOwnDeal = match self.deals.get(deal_id) {
            None => {
                return Err(ContractError::DealNotFound);
            },
            Some(deal) => *deal,
        };
        if deal.tenant != *from {
            return Err(ContractError::NotAuthorized);
        }
        if deal.status != DealStatus::Active {
            return Err(ContractError::InvalidTransfer);
        }
        if *from == *to {
            return Err(ContractError::InvalidTransfer);
        }
        let equity_before: i128 = deal.equity_accumulated_usdc;
        deal.tenant = *to;
        self.deals.set(*deal_id, deal);
        env.publish(
            Event {
                topics: Topics::Two(
                    Value::Symbol("rent_to_own"),
                    Value::Symbol("position_transferred"),
                ),
                data: Data::Four(
                    Value::Bytes(*deal_id),
                    Value::Address(*from),
                    Value::Address(*to),
                    Value::I128(equity_before),
                ),
            },
        );
        Ok(())
    }

    pub fn get_deal(&self, deal_id: &Bytes32) -> (deal: Option<RentToOwnDeal>)
        ensures
            deal == (if self@.deals.dom().contains(*deal_id) {
                Some(self@.deals[*deal_id])
            } else {
                None
            }),
    {
        match self.deals.get(deal_id) {
            Some(deal) => Some(*deal),
            None => None,
        }
    }

    pub fn get_default_settlement(&self, deal_id: &Bytes32) -> (settlement: Option<
        DefaultSettlementRecord,
    >)
        ensures
            settlement == (if self@.settlements.dom().contains(*deal_id) {
                Some(self@.settlements[*deal_id])
            } else {
                None
            }),
    {
        match self.settlements.get(deal_id) {
            Some(settlement) => Some(*settlement),
            None => None,
        }
    }

    /// Find out whether `get_equity_percentage` would abort.
    pub fn check_get_equity_percentage(&self, deal_id: &Bytes32) -> (abort: Option<&'static str>)
        ensures
            abort == self@.percentage_abort(*deal_id),
    {
        match self.deals.get(deal_id) {
            None => None,
            Some(deal) => if deal.property_value_usdc != 0
                && deal.equity_accumulated_usdc.checked_mul(10_000).is_none() {
                Some("attempt to multiply with overflow")
            } else {
                None
            },
        }
    }

    /// Equity in basis points of the property value.
    pub fn get_equity_percentage(&self, deal_id: &Bytes32) -> (bps: u32)
        requires
            self@.percentage_abort(*deal_id) is None,
        ensures
            bps == self@.equity_bps(*deal_id) as u32,
    {
        let deal: RentToOwnDeal = match self.deals.get(deal_id) {
            Some(deal) => *deal,
            None => {
                return 0;
            },
        };
        if deal.property_value_usdc == 0 {
            return 0;
        }
        let scaled: i128 = deal.equity_accumulated_usdc * 10_000;
        proof {
            arith::lemma_quotient_bounds(scaled as int, deal.property_value_usdc as int);
            assert(scaled != i128::MIN);
        }
        (scaled / deal.property_value_usdc) as u32
    }

    /// Find out whether `set_guardian` or `set_upgrade_delay` would abort.
    pub fn check_setting(&self) -> (abort: Option<&'static str>)
        ensures
            abort == self@.governed_abort(upgrade_governance::admin_abort(self.governance)),
    {
        if self.is_paused() {
            return None;
        }
        upgrade_governance::check_admin(&self.governance)
    }

    /// Set the guardian of emergency upgrades.
    pub fn set_guardian(&mut self, env: &mut Env, admin: &Address, guardian: &Address) -> (r:
        Result<(), ContractError>)
        requires
            old(self)@.governed_abort(
                upgrade_governance::admin_abort(old(self).governance),
            ) is None,
        ensures
            r == old(self)@.governed(
                upgrade_governance::setting_outcome(old(self).governance, *admin),
            ),
            final(self)@ == old(self)@.governed_next(
                upgrade_governance::guardian_next(
                    old(self).governance,
                    *admin,
                    Some(*guardian),
                ),
            ),
            final(env).after(
                *old(env),
                old(self)@.governed_actions(
                    upgrade_governance::setting_actions(
                        old(self).governance,
                        *admin,
                        upgrade_governance::guardian_event("rent_to_own", Some(*guardian)),
                    ),
                ),
            ),
    {
        match self.require_not_paused() {
            Err(e) => {
                return Err(e);
            },
            Ok(()) => {},
        }
        let r = upgrade_governance::set_guardian(
            env,
            &mut self.governance,
            admin,
            Some(*guardian),
            "rent_to_own",
        );
        report(r)
    }

    /// Set the delay of ordinary upgrades.
    pub fn set_upgrade_delay(&mut self, env: &mut Env, admin: &Address, delay_seconds: u64) -> (r:
        Result<(), ContractError>)
        requires
            old(self)@.governed_abort(
                upgrade_governance::admin_abort(old(self).governance),
            ) is None,
        ensures
            r == old(self)@.governed(
                upgrade_governance::setting_outcome(old(self).governance, *admin),
            ),
            final(self)@ == old(self)@.governed_next(
                upgrade_governance::delay_next(old(self).governance, *admin, delay_seconds),
            ),
            final(env).after(
                *old(env),
                old(self)@.governed_actions(
                    upgrade_governance::setting_actions(
                        old(self).governance,
                        *admin,
                        upgrade_governance::delay_event("rent_to_own", delay_seconds),
                    ),
                ),
            ),
    {
        match self.require_not_paused() {
            Err(e) => {
                return Err(e);
            },
            Ok(()) => {},
        }
        let r = upgrade_governance::set_upgrade_delay(
            env,
            &mut self.governance,
            admin,
            delay_seconds,
            "rent_to_own",
        );
        report(r)
    }

    /// Find out whether `propose_upgrade` would abort.
    pub fn check_propose_upgrade(&self, admin: &Address) -> (abort: Option<&'static str>)
        ensures
            abort == self@.governed_abort(
                upgrade_governance::propose_upgrade_abort(self.governance, *admin),
            ),
    {
        if self.is_paused() {
            return None;
        }
        upgrade_governance::check_propose_upgrade(&self.governance, admin)
    }

    /// Propose an upgrade to the next version.
    pub fn propose_upgrade(
        &mut self,
        env: &mut Env,
        admin: &Address,
        new_wasm_hash: &Bytes32,
        new_version: u32,
    ) -> (r: Result<(), ContractError>)
        requires
            old(self)@.governed_abort(
                upgrade_governance::propose_upgrade_abort(old(self).governance, *admin),
            ) is None,
        ensures
            r == old(self)@.governed(
                upgrade_governance::propose_outcome(
                    old(self).governance,
                    *admin,
                    new_version,
                    None,
                ),
            ),
            final(self)@ == old(self)@.governed_next(
                upgrade_governance::propose_next(
                    old(self).governance,
                    *admin,
                    *new_wasm_hash,
                    new_version,
                    None,
                    old(env).now,
                ),
            ),
            final(env).after(
                *old(env),
                old(self)@.governed_actions(
                    upgrade_governance::propose_actions(
                        old(self).governance,
                        *admin,
                        *new_wasm_hash,
                        new_version,
                        None,
                        old(env).now,
                        "rent_to_own",
                    ),
                ),
            ),
    {
        match self.require_not_paused() {
            Err(e) => {
                return Err(e);
            },
            Ok(()) => {},
        }
        let r = upgrade_governance::propose_upgrade(
            env,
            &mut self.governance,
            admin,
            new_wasm_hash,
            new_version,
            None,
            "rent_to_own",
        );
        report(r)
    }

    /// Find out whether `execute_upgrade` would abort.
    pub fn check_execute_upgrade(&self, admin: &Address, new_wasm_hash: &Bytes32) -> (abort: Option<
        &'static str,
    >)
        ensures
            abort == self@.governed_abort(
                upgrade_governance::execute_upgrade_abort(
                    self.governance,
                    *admin,
                    *new_wasm_hash,
                ),
            ),
    {
        if self.is_paused() {
            return None;
        }
        upgrade_governance::check_execute_upgrade(&self.governance, admin, new_wasm_hash)
    }

    /// Execute a proposed upgrade once its delay has elapsed.
    pub fn execute_upgrade(&mut self, env: &mut Env, admin: &Address, new_wasm_hash: &Bytes32) -> (r:
        Result<(), ContractError>)
        requires
            old(self)@.governed_abort(
                upgrade_governance::execute_upgrade_abort(
                    old(self).governance,
                    *admin,
                    *new_wasm_hash,
                ),
            ) is None,
        ensures
            r == old(self)@.governed(
                upgrade_governance::execute_outcome(
                    old(self).governance,
                    *admin,
                    *new_wasm_hash,
                    old(env).now,
                ),
            ),
            final(self)@ == old(self)@.governed_next(
                upgrade_governance::execute_next(
                    old(self).governance,
                    *admin,
                    *new_wasm_hash,
                    old(env).now,
                ),
            ),
            final(env).after(
                *old(env),
                old(self)@.governed_actions(
                    upgrade_governance::execute_actions(
                        old(self).governance,
                        *admin,
                        *new_wasm_hash,
                        old(env).now,
                        "rent_to_own",
                    ),
                ),
            ),
    {
        match self.require_not_paused() {
            Err(e) => {
                return Err(e);
            },
            Ok(()) => {},
        }
        let r = upgrade_governance::execute_upgrade(
            env,
            &mut self.governance,
            admin,
            new_wasm_hash,
            "rent_to_own",
        );
        report(r)
    }

    /// Find out whether `emergency_upgrade` would abort.
    pub fn check_emergency_upgrade(&self, admin: &Address) -> (abort: Option<&'static str>)
        ensures
            abort == self@.governed_abort(
                upgrade_governance::emergency_upgrade_abort(self.governance, *admin),
            ),
    {
        if self.is_paused() {
            return None;
        }
        upgrade_governance::check_emergency_upgrade(&self.governance, admin)
    }

    /// Upgrade at once. The contract holds no funds, so that a guardian is
    /// optional.
    pub fn emergency_upgrade(
        &mut self,
        env: &mut Env,
        admin: &Address,
        new_wasm_hash: &Bytes32,
        new_version: u32,
    ) -> (r: Result<(), ContractError>)
        requires
            old(self)@.governed_abort(
                upgrade_governance::emergency_upgrade_abort(old(self).governance, *admin),
            ) is None,
        ensures
            r == old(self)@.governed(
                upgrade_governance::emergency_outcome(
                    old(self).governance,
                    *admin,
                    new_version,
                    None,
                    false,
                ),
            ),
            final(self)@ == old(self)@.governed_next(
                upgrade_governance::emergency_next(
                    old(self).governance,
                    *admin,
                    new_version,
                    None,
                    false,
                ),
            ),
            final(env).after(
                *old(env),
                old(self)@.governed_actions(
                    upgrade_governance::emergency_actions(
                        old(self).governance,
                        *admin,
                        *new_wasm_hash,
                        new_version,
                        None,
                        false,
                        old(env).now,
                        "rent_to_own",
                    ),
                ),
            ),
    {
        match self.require_not_paused() {
            Err(e) => {
                return Err(e);
            },
            Ok(()) => {},
        }
        let r = upgrade_governance::emergency_upgrade(
            env,
            &mut self.governance,
            admin,
            new_wasm_hash,
            new_version,
            None,
            "rent_to_own",
            false,
        );
        report(r)
    }

    /// Take back a proposal.
    pub fn cancel_upgrade(&mut self, env: &mut Env, admin: &Address) -> (r: Result<
        (),
        ContractError,
    >)
        requires
            old(self)@.entry_abort() is None,
        ensures
            r == old(self)@.cancel_outcome(*admin),
            r is Ok ==> final(self)@ == old(self)@.with_governance(
                old(self).governance.without_pending(),
            ) && final(env).after(
                *old(env),
                old(self)@.entry_actions(*admin) + seq![
                    Action::Publish(event("cancel_upgrade", Data::One(Value::Address(*admin)))),
                ],
            ),
            r is Err ==> final(self)@ == old(self)@ && final(env).after(
                *old(env),
                old(self)@.entry_actions(*admin),
            ),
    {
        match self.enter(env, admin) {
            Err(e) => {
                return Err(e);
            },
            Ok(()) => {},
        }
        if !self.governance.has(UpgradeGovernanceKey::PendingUpgradeHash) {
            return Err(ContractError::NoUpgradePending);
        }
        self.governance.pending_upgrade_hash = None;
        self.governance.pending_upgrade_at = None;
        self.governance.pending_upgrade_version = None;
        env.publish(
            Event {
                topics: Topics::Two(
                    Value::Symbol("rent_to_own"),
                    Value::Symbol("cancel_upgrade"),
                ),
                data: Data::One(Value::Address(*admin)),
            },
        );
        Ok(())
    }

    /// Pause the contract. While paused, every entry point that changes state
    /// answers `Paused`, but for `unpause` and this one; the getters go on
    /// working.
    pub fn pause(&mut self, env: &mut Env, admin: &Address) -> (r: Result<(), PausableError>)
        requires
            old(self)@.admin_abort() is None,
        ensures
            r == old(self)@.pause_outcome(*admin),
            r is Ok ==> final(self)@ == (DealsView { paused: Some(true), ..old(self)@ })
                && final(env).after(
                *old(env),
                seq![
                    Action::RequireAuth(*admin),
                    Action::Publish(pausable_event("pause", *admin)),
                ],
            ),
            r is Err ==> final(self)@ == old(self)@ && final(env).after(
                *old(env),
                seq![Action::RequireAuth(*admin)],
            ),
    {
        if self.require_admin(env, admin).is_err() {
            return Err(PausableError::NotAuthorized);
        }
        self.paused = Some(true);
        env.publish(
            Event {
                topics: Topics::Two(Value::Symbol("Pausable"), Value::Symbol("pause")),
                data: Data::One(Value::Address(*admin)),
            },
        );
        Ok(())
    }

    /// Let changes go on.
    pub fn unpause(&mut self, env: &mut Env, admin: &Address) -> (r: Result<(), PausableError>)
        requires
            old(self)@.admin_abort() is None,
        ensures
            r == old(self)@.pause_outcome(*admin),
            r is Ok ==> final(self)@ == (DealsView { paused: Some(false), ..old(self)@ })
                && final(env).after(
                *old(env),
                seq![
                    Action::RequireAuth(*admin),
                    Action::Publish(pausable_event("unpause", *admin)),
                ],
            ),
            r is Err ==> final(self)@ == old(self)@ && final(env).after(
                *old(env),
                seq![Action::RequireAuth(*admin)],
            ),
    {
        if self.require_admin(env, admin).is_err() {
            return Err(PausableError::NotAuthorized);
        }
        self.paused = Some(false);
        env.publish(
            Event {
                topics: Topics::Two(Value::Symbol("Pausable"), Value::Symbol("unpause")),
                data: Data::One(Value::Address(*admin)),
            },
        );
        Ok(())
    }

    pub fn is_paused(&self) -> (b: bool)
        ensures
            b == self@.is_paused(),
    {
        self.paused.unwrap_or(false)
    }
}

/// How an error of upgrade governance is reported by this contract.
pub open spec fn governance_error(e: UpgradeGovernanceError) -> ContractError {
    match e {
        UpgradeGovernanceError::UpgradeAlreadyPending => ContractError::UpgradeAlreadyPending,
        UpgradeGovernanceError::NoPendingUpgrade => ContractError::NoUpgradePending,
        UpgradeGovernanceError::UpgradeDelayNotElapsed => ContractError::UpgradeDelayNotMet,
        _ => ContractError::NotAuthorized,
    }
}

/// An answer of upgrade governance as this contract reports it.
pub open spec fn reported(r: Result<(), UpgradeGovernanceError>) -> Result<(), ContractError> {
    match r {
        Ok(()) => Ok(()),
        Err(e) => Err(governance_error(e)),
    }
}

fn report(r: Result<(), UpgradeGovernanceError>) -> (out: Result<(), ContractError>)
    ensures
        out == reported(r),
{
    match r {
        Ok(()) => Ok(()),
        Err(e) => match e {
            UpgradeGovernanceError::UpgradeAlreadyPending => Err(
                ContractError::UpgradeAlreadyPending,
            ),
            UpgradeGovernanceError::NoPendingUpgrade => Err(ContractError::NoUpgradePending),
            UpgradeGovernanceError::UpgradeDelayNotElapsed => Err(
                ContractError::UpgradeDelayNotMet,
            ),
            _ => Err(ContractError::NotAuthorized),
        },
    }
}

/// The record of one deal is in order: it bears its own id, its equity is no
/// more than the property is worth, and it has a settlement exactly if it
/// defaulted, which splits the equity without a remainder.
pub open spec fn deal_in_order(v: DealsView, id: Bytes32) -> bool {
    let deal = v.deals[id];
    &&& v.settlements.dom().contains(id) ==> v.deals.dom().contains(id)
    &&& v.deals.dom().contains(id) ==> {
        &&& deal.deal_id == id
        &&& deal.in_bounds()
        &&& v.settlements.dom().contains(id) <==> deal.status is Defaulted
        &&& v.settlements.dom().contains(id) ==> {
            &&& 0 <= v.settlements[id].refundable_usdc
            &&& 0 <= v.settlements[id].forfeited_usdc
            &&& v.settlements[id].refundable_usdc + v.settlements[id].forfeited_usdc
                == deal.equity_accumulated_usdc
        }
    }
}

/// All records are in order, and the rate is at most the whole.
pub open spec fn in_order(v: DealsView) -> bool {
    &&& v.forfeiture() <= 10_000
    &&& forall|id: Bytes32| #[trigger] deal_in_order(v, id)
}

/// After `init` of a contract without deals everything is in order, whatever
/// rate was accepted.
pub proof fn law_fresh_records_are_in_order(
    v: DealsView,
    governance: UpgradeGovernance,
    forfeiture_bps: u32,
)
    requires
        v.deals == Map::<Bytes32, RentToOwnDeal>::empty(),
        v.settlements == Map::<Bytes32, DefaultSettlementRecord>::empty(),
        v.init_outcome(forfeiture_bps) is Ok,
    ensures
        in_order(
            (DealsView {
                governance,
                forfeiture_bps: Some(forfeiture_bps),
                paused: Some(false),
                ..v
            }),
        ),
{
}

/// Every operation that goes through keeps all records in order.
pub proof fn law_records_stay_in_order(
    v: DealsView,
    admin: Address,
    id: Bytes32,
    tenant: Address,
    value: i128,
    monthly: i128,
    required: u32,
    rent: i128,
    equity: i128,
    now: u64,
    from: Address,
    to: Address,
)
    requires
        in_order(v),
    ensures
        v.register_outcome(admin, id, value, monthly) is Ok ==> in_order(
            v.with_deal(
                id,
                RentToOwnDeal {
                    deal_id: id,
                    tenant,
                    property_value_usdc: value,
                    equity_accumulated_usdc: 0,
                    monthly_equity_usdc: monthly,
                    payments_made: 0,
                    total_payments_required: required,
                    status: DealStatus::Active,
                },
            ),
        ),
        v.payment_outcome(admin, id, rent, equity) is Ok ==> in_order(
            v.with_payment(id, rent, equity, now),
        ),
        v.complete_outcome(admin, id) is Ok ==> in_order(
            v.with_deal(id, v.deals[id].with_status(DealStatus::Completed)),
        ),
        v.default_outcome(admin, id) is Ok ==> in_order(
            v.with_deal(id, v.deals[id].with_status(DealStatus::Defaulted)).with_settlement(
                id,
                v.entitlement(id),
            ),
        ),
        v.settle_outcome(admin, id) matches Ok(settlement) ==> in_order(
            v.with_settlement(id, settlement),
        ),
        v.transfer_outcome(admin, from, to, id) is Ok ==> in_order(
            v.with_deal(id, RentToOwnDeal { tenant: to, ..v.deals[id] }),
        ),
{
    assert(deal_in_order(v, id));
    if v.register_outcome(admin, id, value, monthly) is Ok {
        let after = v.with_deal(
            id,
            RentToOwnDeal {
                deal_id: id,
                tenant,
                property_value_usdc: value,
                equity_accumulated_usdc: 0,
                monthly_equity_usdc: monthly,
                payments_made: 0,
                total_payments_required: required,
                status: DealStatus::Active,
            },
        );
        assert forall|other: Bytes32| #[trigger] deal_in_order(after, other) by {
            assert(deal_in_order(v, other));
        }
    }
    if v.payment_outcome(admin, id, rent, equity) is Ok {
        let after = v.with_payment(id, rent, equity, now);
        assert forall|other: Bytes32| #[trigger] deal_in_order(after, other) by {
            assert(deal_in_order(v, other));
        }
    }
    if v.complete_outcome(admin, id) is Ok {
        let after = v.with_deal(id, v.deals[id].with_status(DealStatus::Completed));
        assert forall|other: Bytes32| #[trigger] deal_in_order(after, other) by {
            assert(deal_in_order(v, other));
        }
    }
    if v.default_outcome(admin, id) is Ok {
        let after = v.with_deal(
            id,
            v.deals[id].with_status(DealStatus::Defaulted),
        ).with_settlement(id, v.entitlement(id));
        law_split_conserves_equity(v.deals[id].equity_accumulated_usdc, v.forfeiture());
        assert forall|other: Bytes32| #[trigger] deal_in_order(after, other) by {
            assert(deal_in_order(v, other));
        }
    }
    if v.settle_outcome(admin, id) is Ok {
        let after = v.with_settlement(id, v.settle_outcome(admin, id)->Ok_0);
        assert forall|other: Bytes32| #[trigger] deal_in_order(after, other) by {
            assert(deal_in_order(v, other));
        }
    }
    if v.transfer_outcome(admin, from, to, id) is Ok {
        let after = v.with_deal(id, RentToOwnDeal { tenant: to, ..v.deals[id] });
        assert forall|other: Bytes32| #[trigger] deal_in_order(after, other) by {
            assert(deal_in_order(v, other));
        }
    }
}

/// Equity only ever goes up: a payment adds exactly its equity part, which is
/// positive, and counts as one payment. The other deals keep theirs, and so does
/// a deal that is completed, defaulted or transferred.
pub proof fn law_equity_only_goes_up(
    v: DealsView,
    admin: Address,
    id: Bytes32,
    rent: i128,
    equity: i128,
    now: u64,
    status: DealStatus,
    to: Address,
)
    requires
        v.payment_outcome(admin, id, rent, equity) is Ok,
        v.payment_abort(admin, id, rent, equity) is None,
    ensures
        ({
            let before = v.deals[id];
            let after = v.with_payment(id, rent, equity, now).deals[id];
            &&& after.equity_accumulated_usdc == before.equity_accumulated_usdc + equity
            &&& after.equity_accumulated_usdc > before.equity_accumulated_usdc
            &&& after.equity_accumulated_usdc <= before.property_value_usdc
            &&& after.payments_made == before.payments_made + 1
        }),
        forall|other: Bytes32|
            other != id && v.deals.dom().contains(other) ==> v.with_payment(
                id,
                rent,
                equity,
                now,
            ).deals[other] == #[trigger] v.deals[other],
        v.with_deal(id, v.deals[id].with_status(status)).with_settlement(
            id,
            v.entitlement(id),
        ).deals[id].equity_accumulated_usdc == v.deals[id].equity_accumulated_usdc,
        v.with_deal(
            id,
            RentToOwnDeal { tenant: to, ..v.deals[id] },
        ).deals[id].equity_accumulated_usdc == v.deals[id].equity_accumulated_usdc,
{
}

/// A transfer moves the position as a whole: the tenant changes, the equity,
/// its share of the property and the payments do not, and later payments
/// accrue to the new holder.
pub proof fn law_transfer_conserves_position(
    v: DealsView,
    admin: Address,
    from: Address,
    to: Address,
    id: Bytes32,
    rent: i128,
    equity: i128,
    now: u64,
)
    requires
        v.transfer_outcome(admin, from, to, id) is Ok,
    ensures
        ({
            let after = v.with_deal(id, RentToOwnDeal { tenant: to, ..v.deals[id] });
            &&& after.deals[id].tenant == to
            &&& after.deals[id].equity_accumulated_usdc == v.deals[id].equity_accumulated_usdc
            &&& after.deals[id].payments_made == v.deals[id].payments_made
            &&& after.deals[id].total_payments_required == v.deals[id].total_payments_required
            &&& after.equity_bps(id) == v.equity_bps(id)
            &&& after.payment_outcome(admin, id, rent, equity) == v.payment_outcome(
                admin,
                id,
                rent,
                equity,
            )
            &&& after.with_payment(id, rent, equity, now).deals[id].tenant == to
        }),
{
}

/// A default is settled exactly once.
pub proof fn law_settled_once(v: DealsView, admin: Address, id: Bytes32)
    requires
        v.settle_outcome(admin, id) is Ok,
    ensures
        v.with_settlement(id, v.settle_outcome(admin, id)->Ok_0).settle_outcome(admin, id) == Err::<
            DefaultSettlementRecord,
            _,
        >(ContractError::AlreadySettled),
{
}

/// A completed or defaulted deal is closed: no payment, completion, default or
/// transfer goes through on it.
pub proof fn law_closed_deals_stay_closed(
    v: DealsView,
    admin: Address,
    id: Bytes32,
    rent: i128,
    equity: i128,
    from: Address,
    to: Address,
)
    requires
        v.deals.dom().contains(id),
        v.deals[id].status !is Active,
    ensures
        v.payment_outcome(admin, id, rent, equity) is Err,
        v.complete_outcome(admin, id) is Err,
        v.default_outcome(admin, id) is Err,
        v.transfer_outcome(admin, from, to, id) is Err,
        v.entry(admin) is Ok && rent > 0 && equity > 0 ==> v.payment_outcome(
            admin,
            id,
            rent,
            equity,
        ) == Err::<(), _>(ContractError::DealNotActive),
{
}

/// The share of a deal in order lies between zero and the whole.
pub proof fn law_percentage_is_a_share(v: DealsView, id: Bytes32)
    requires
        in_order(v),
    ensures
        0 <= v.equity_bps(id) <= 10_000,
{
    assert(deal_in_order(v, id));
    if v.deals.dom().contains(id) && v.deals[id].property_value_usdc != 0 {
        let e = v.deals[id].equity_accumulated_usdc as int;
        let p = v.deals[id].property_value_usdc as int;
        assert(0 <= (e * 10_000) / p <= 10_000) by (nonlinear_arith)
            requires
                0 <= e <= p,
                p > 0,
        ;
    }
}

/// While paused, every entry point that changes a deal, a proposal or a setting
/// answers `Paused`, whatever governance would say; where governance is asked,
/// the storage stays as it is, nothing is asked of the ledger, and nothing
/// aborts.
pub proof fn law_pause_stops_changes(
    v: DealsView,
    admin: Address,
    id: Bytes32,
    value: i128,
    monthly: i128,
    rent: i128,
    equity: i128,
    from: Address,
    to: Address,
    delay: u64,
    hash: Bytes32,
    version: u32,
    now: u64,
)
    requires
        v.is_paused(),
    ensures
        v.register_outcome(admin, id, value, monthly) == Err::<(), _>(ContractError::Paused),
        v.payment_outcome(admin, id, rent, equity) == Err::<(), _>(ContractError::Paused),
        v.complete_outcome(admin, id) == Err::<(), _>(ContractError::Paused),
        v.default_outcome(admin, id) == Err::<(), _>(ContractError::Paused),
        v.settle_outcome(admin, id) == Err::<DefaultSettlementRecord, _>(ContractError::Paused),
        v.transfer_outcome(admin, from, to, id) == Err::<(), _>(ContractError::Paused),
        v.cancel_outcome(admin) == Err::<(), _>(ContractError::Paused),
        // `set_guardian` and `set_upgrade_delay`
        v.governed(upgrade_governance::setting_outcome(v.governance, admin)) == Err::<(), _>(
            ContractError::Paused,
        ),
        v.governed_next(upgrade_governance::guardian_next(v.governance, admin, Some(to))) == v,
        v.governed_next(upgrade_governance::delay_next(v.governance, admin, delay)) == v,
        // `propose_upgrade`
        v.governed(
            upgrade_governance::propose_outcome(v.governance, admin, version, None),
        ) == Err::<(), _>(ContractError::Paused),
        v.governed_next(
            upgrade_governance::propose_next(v.governance, admin, hash, version, None, now),
        ) == v,
        // `execute_upgrade`
        v.governed(
            upgrade_governance::execute_outcome(v.governance, admin, hash, now),
        ) == Err::<(), _>(ContractError::Paused),
        v.governed_next(
            upgrade_governance::execute_next(v.governance, admin, hash, now),
        ) == v,
        // `emergency_upgrade`
        v.governed(
            upgrade_governance::emergency_outcome(v.governance, admin, version, None, false),
        ) == Err::<(), _>(ContractError::Paused),
        v.governed_next(
            upgrade_governance::emergency_next(v.governance, admin, version, None, false),
        ) == v,
        forall|actions: Seq<Action>| #[trigger] v.governed_actions(actions).len() == 0,
        forall|abort: Option<&'static str>| #[trigger] v.governed_abort(abort) is None,
{
}

} // verus!
