//! Upgrade governance: a timelock on ordinary upgrades, a guardian on emergency
//! ones, and sequential versions on both.

use vstd::prelude::*;

use crate::host::{Action, Data, Env, Event, Topics, Value};
use crate::value::{Address, Bytes32};

verus! {

/// The entries that upgrade governance keeps in storage.
#[derive(Clone, Copy, Debug, PartialEq, Eq, Structural)]
pub enum UpgradeGovernanceKey {
    /// Address that may initiate upgrades
    Admin,
    /// Address that emergency upgrades need besides
    Guardian,
    /// Code hash of the proposed upgrade
    PendingUpgradeHash,
    /// When the upgrade was proposed
    PendingUpgradeAt,
    /// Version of the proposed upgrade
    PendingUpgradeVersion,
    /// Version of the running contract
    ContractVersion,
    /// Seconds between proposal and execution
    UpgradeDelay,
    /// Version of the storage layout
    StorageSchemaVersion,
}

#[derive(Clone, Copy, Debug, PartialEq, Eq, Structural)]
pub enum UpgradeGovernanceError {
    /// Unauthorized caller
    NotAuthorized,
    /// Upgrade already pending
    UpgradeAlreadyPending,
    /// No pending upgrade to execute
    NoPendingUpgrade,
    /// Upgrade delay not elapsed
    UpgradeDelayNotElapsed,
    /// Guardian not configured, and one is mandatory
    GuardianNotConfigured,
    /// The version does not follow the current one
    InvalidUpgradeVersion,
    /// The storage layout would go back
    IncompatibleSchemaVersion,
}

impl UpgradeGovernanceError {
    pub open spec fn code_of(self) -> u32 {
        match self {
            Self::NotAuthorized => 1,
            Self::UpgradeAlreadyPending => 2,
            Self::NoPendingUpgrade => 3,
            Self::UpgradeDelayNotElapsed => 4,
            Self::GuardianNotConfigured => 5,
            Self::InvalidUpgradeVersion => 6,
            Self::IncompatibleSchemaVersion => 7,
        }
    }

    /// The number under which callers of a contract see the error.
    pub fn code(self) -> (c: u32)
        ensures
            c == self.code_of(),
    {
        match self {
            Self::NotAuthorized => 1,
            Self::UpgradeAlreadyPending => 2,
            Self::NoPendingUpgrade => 3,
            Self::UpgradeDelayNotElapsed => 4,
            Self::GuardianNotConfigured => 5,
            Self::InvalidUpgradeVersion => 6,
            Self::IncompatibleSchemaVersion => 7,
        }
    }
}

/// `soroban_sdk::Error`, an error as the ledger carries it. Opaque here.
#[verifier::external_type_specification]
#[verifier::external_body]
pub struct ExError(soroban_sdk::Error);

/// The ledger error of contract error number `code`.
pub uninterp spec fn contract_error(code: u32) -> soroban_sdk::Error;

/// `soroban_sdk::Error::from_contract_error`: packs the number into an error
/// of type `Contract`. The result depends on the number alone and is named
/// `contract_error(code)`.
pub assume_specification[ soroban_sdk::Error::from_contract_error ](code: u32) -> (e:
    soroban_sdk::Error)
    ensures
        e == contract_error(code),
;

impl From<UpgradeGovernanceError> for soroban_sdk::Error {
    fn from(e: UpgradeGovernanceError) -> (r: soroban_sdk::Error) {
        soroban_sdk::Error::from_contract_error(e.code())
    }
}

impl vstd::std_specs::convert::FromSpecImpl<UpgradeGovernanceError> for soroban_sdk::Error {
    open spec fn obeys_from_spec() -> bool {
        true
    }

    open spec fn from_spec(e: UpgradeGovernanceError) -> soroban_sdk::Error {
        contract_error(e.code_of())
    }
}

/// What upgrade governance keeps in storage; `None` for an entry never written
/// or removed.
#[derive(Clone, Copy, Debug)]
pub struct UpgradeGovernance {
    pub admin: Option<Address>,
    pub guardian: Option<Address>,
    pub pending_upgrade_hash: Option<Bytes32>,
    pub pending_upgrade_at: Option<u64>,
    pub pending_upgrade_version: Option<u32>,
    pub contract_version: Option<u32>,
    pub upgrade_delay: Option<u64>,
    pub storage_schema_version: Option<u32>,
}

impl UpgradeGovernance {
    pub open spec fn empty() -> UpgradeGovernance {
        UpgradeGovernance {
            admin: None,
            guardian: None,
            pending_upgrade_hash: None,
            pending_upgrade_at: None,
            pending_upgrade_version: None,
            contract_version: None,
            upgrade_delay: None,
            storage_schema_version: None,
        }
    }

    /// Storage before anything was written.
    pub fn new() -> (gov: UpgradeGovernance)
        ensures
            gov == UpgradeGovernance::empty(),
    {
        UpgradeGovernance {
            admin: None,
            guardian: None,
            pending_upgrade_hash: None,
            pending_upgrade_at: None,
            pending_upgrade_version: None,
            contract_version: None,
            upgrade_delay: None,
            storage_schema_version: None,
        }
    }

    pub open spec fn holds(self, key: UpgradeGovernanceKey) -> bool {
        match key {
            UpgradeGovernanceKey::Admin => self.admin is Some,
            UpgradeGovernanceKey::Guardian => self.guardian is Some,
            UpgradeGovernanceKey::PendingUpgradeHash => self.pending_upgrade_hash is Some,
            UpgradeGovernanceKey::PendingUpgradeAt => self.pending_upgrade_at is Some,
            UpgradeGovernanceKey::PendingUpgradeVersion => self.pending_upgrade_version is Some,
            UpgradeGovernanceKey::ContractVersion => self.contract_version is Some,
            UpgradeGovernanceKey::UpgradeDelay => self.upgrade_delay is Some,
            UpgradeGovernanceKey::StorageSchemaVersion => self.storage_schema_version is Some,
        }
    }

    /// Whether storage has an entry under `key`.
    pub fn has(&self, key: UpgradeGovernanceKey) -> (b: bool)
        ensures
            b == self.holds(key),
    {
        match key {
            UpgradeGovernanceKey::Admin => self.admin.is_some(),
            UpgradeGovernanceKey::Guardian => self.guardian.is_some(),
            UpgradeGovernanceKey::PendingUpgradeHash => self.pending_upgrade_hash.is_some(),
            UpgradeGovernanceKey::PendingUpgradeAt => self.pending_upgrade_at.is_some(),
            UpgradeGovernanceKey::PendingUpgradeVersion => self.pending_upgrade_version.is_some(),
            UpgradeGovernanceKey::ContractVersion => self.contract_version.is_some(),
            UpgradeGovernanceKey::UpgradeDelay => self.upgrade_delay.is_some(),
            UpgradeGovernanceKey::StorageSchemaVersion => self.storage_schema_version.is_some(),
        }
    }

    /// The version of the running contract; zero where none was stored.
    pub open spec fn version(self) -> u32 {
        self.contract_version.unwrap_or(0)
    }

    /// The version of the storage layout; one where none was stored.
    pub open spec fn schema(self) -> u32 {
        self.storage_schema_version.unwrap_or(1)
    }

    /// The delay of ordinary upgrades; none where none was stored.
    pub open spec fn delay(self) -> u64 {
        self.upgrade_delay.unwrap_or(0)
    }

    /// All three entries of a proposal are there.
    pub open spec fn pending(self) -> bool {
        self.pending_upgrade_hash is Some && self.pending_upgrade_at is Some
            && self.pending_upgrade_version is Some
    }

    /// `self` without any proposal.
    pub open spec fn without_pending(self) -> UpgradeGovernance {
        UpgradeGovernance {
            pending_upgrade_hash: None,
            pending_upgrade_at: None,
            pending_upgrade_version: None,
            ..self
        }
    }

    /// `self` after the proposal of code `hash` as `version`, at time `now`.
    pub open spec fn proposed(self, hash: Bytes32, version: u32, now: u64) -> UpgradeGovernance {
        UpgradeGovernance {
            pending_upgrade_hash: Some(hash),
            pending_upgrade_at: Some(now),
            pending_upgrade_version: Some(version),
            ..self
        }
    }

    /// `self` after an upgrade to `version`.
    pub open spec fn upgraded(self, version: u32) -> UpgradeGovernance {
        UpgradeGovernance { contract_version: Some(version), ..self.without_pending() }
    }
}

/// Message of the abort when no admin is stored.
pub open spec fn admin_abort(gov: UpgradeGovernance) -> Option<&'static str> {
    if gov.admin is Some {
        None
    } else {
        Some("Admin must be initialized")
    }
}

/// Find out whether looking up the admin would abort.
pub fn check_admin(gov: &UpgradeGovernance) -> (abort: Option<&'static str>)
    ensures
        abort == admin_abort(*gov),
{
    if gov.admin.is_some() {
        None
    } else {
        Some("Admin must be initialized")
    }
}

/// The stored admin.
pub fn get_admin(gov: &UpgradeGovernance) -> (admin: Address)
    requires
        admin_abort(*gov) is None,
    ensures
        gov.admin == Some(admin),
{
    gov.admin.unwrap()
}

/// The stored guardian, if there is one.
pub fn get_guardian(gov: &UpgradeGovernance) -> (guardian: Option<Address>)
    ensures
        guardian == gov.guardian,
{
    gov.guardian
}

/// The version of the running contract.
pub fn get_contract_version(gov: &UpgradeGovernance) -> (version: u32)
    ensures
        version == gov.version(),
{
    gov.contract_version.unwrap_or(0)
}

/// The version of the storage layout.
pub fn get_storage_schema_version(gov: &UpgradeGovernance) -> (version: u32)
    ensures
        version == gov.schema(),
{
    gov.storage_schema_version.unwrap_or(1)
}

/// Message of the abort of a version check: the successor of the current
/// version has to be a `u32`.
pub open spec fn validate_upgrade_safety_abort(gov: UpgradeGovernance) -> Option<&'static str> {
    if gov.version() == u32::MAX {
        Some("attempt to add with overflow")
    } else {
        None
    }
}

/// What a version check answers: the new version has to follow the current
/// one, and a new storage layout, if one is given, must not be older than the
/// current one.
pub open spec fn upgrade_safety(
    gov: UpgradeGovernance,
    new_version: u32,
    new_schema_version: Option<u32>,
) -> Result<(), UpgradeGovernanceError> {
    if new_version != gov.version() + 1 {
        Err(UpgradeGovernanceError::InvalidUpgradeVersion)
    } else if new_schema_version matches Some(schema) && schema < gov.schema() {
        Err(UpgradeGovernanceError::IncompatibleSchemaVersion)
    } else {
        Ok(())
    }
}

/// Check that an upgrade is sequential and that its storage layout fits.
pub fn validate_upgrade_safety(
    gov: &UpgradeGovernance,
    new_version: u32,
    new_schema_version: Option<u32>,
) -> (r: Result<(), UpgradeGovernanceError>)
    requires
        validate_upgrade_safety_abort(*gov) is None,
    ensures
        r == upgrade_safety(*gov, new_version, new_schema_version),
{
    let current_version: u32 = get_contract_version(gov);
    if new_version != current_version + 1 {
        return Err(UpgradeGovernanceError::InvalidUpgradeVersion);
    }
    if let Some(new_schema) = new_schema_version {
        let current_schema: u32 = get_storage_schema_version(gov);
        if new_schema < current_schema {
            return Err(UpgradeGovernanceError::IncompatibleSchemaVersion);
        }
    }
    Ok(())
}

/// Message with which `propose_upgrade` aborts, if it does.
pub open spec fn propose_upgrade_abort(gov: UpgradeGovernance, admin: Address) -> Option<
    &'static str,
> {
    if admin_abort(gov) is Some {
        admin_abort(gov)
    } else if gov.admin != Some(admin) || gov.pending_upgrade_hash is Some {
        None
    } else {
        validate_upgrade_safety_abort(gov)
    }
}

/// Find out whether `propose_upgrade` would abort.
pub fn check_propose_upgrade(gov: &UpgradeGovernance, admin: &Address) -> (abort: Option<
    &'static str,
>)
    ensures
        abort == propose_upgrade_abort(*gov, *admin),
{
    match gov.admin {
        None => Some("Admin must be initialized"),
        Some(current_admin) => if *admin != current_admin || gov.pending_upgrade_hash.is_some() {
            None
        } else if get_contract_version(gov) == u32::MAX {
            Some("attempt to add with overflow")
        } else {
            None
        },
    }
}

/// What `propose_upgrade` answers.
pub open spec fn propose_outcome(
    gov: UpgradeGovernance,
    admin: Address,
    new_version: u32,
    new_schema_version: Option<u32>,
) -> Result<(), UpgradeGovernanceError> {
    if gov.admin != Some(admin) {
        Err(UpgradeGovernanceError::NotAuthorized)
    } else if gov.pending_upgrade_hash is Some {
        Err(UpgradeGovernanceError::UpgradeAlreadyPending)
    } else {
        upgrade_safety(gov, new_version, new_schema_version)
    }
}

pub open spec fn propose_event(
    contract_name: &'static str,
    hash: Bytes32,
    version: u32,
    now: u64,
) -> Event {
    Event {
        topics: Topics::Two(Value::Symbol(contract_name), Value::Symbol("propose_upgrade")),
        data: Data::Three(Value::Bytes(hash), Value::U32(version), Value::U64(now)),
    }
}

/// Governance after `propose_upgrade` at time `now`; a refusal changes nothing.
pub open spec fn propose_next(
    gov: UpgradeGovernance,
    admin: Address,
    hash: Bytes32,
    version: u32,
    schema: Option<u32>,
    now: u64,
) -> UpgradeGovernance {
    if propose_outcome(gov, admin, version, schema) is Ok {
        gov.proposed(hash, version, now)
    } else {
        gov
    }
}

/// What a refused governance call asks of the ledger: the authorisation of the
/// caller, once known to be the admin.
pub open spec fn refused_actions(gov: UpgradeGovernance, admin: Address) -> Seq<Action> {
    if gov.admin == Some(admin) {
        seq![Action::RequireAuth(admin)]
    } else {
        seq![]
    }
}

/// What `propose_upgrade` asks of the ledger.
pub open spec fn propose_actions(
    gov: UpgradeGovernance,
    admin: Address,
    hash: Bytes32,
    version: u32,
    schema: Option<u32>,
    now: u64,
    contract_name: &'static str,
) -> Seq<Action> {
    if propose_outcome(gov, admin, version, schema) is Ok {
        seq![
            Action::RequireAuth(admin),
            Action::Publish(propose_event(contract_name, hash, version, now)),
        ]
    } else {
        refused_actions(gov, admin)
    }
}

/// Propose an ordinary upgrade, which starts its timelock.
///
/// The admin's authorisation is asked for once the caller is known to be the
/// admin.
pub fn propose_upgrade(
    env: &mut Env,
    gov: &mut UpgradeGovernance,
    admin: &Address,
    new_wasm_hash: &Bytes32,
    new_version: u32,
    new_schema_version: Option<u32>,
    contract_name: &'static str,
) -> (r: Result<(), UpgradeGovernanceError>)
    requires
        propose_upgrade_abort(*old(gov), *admin) is None,
    ensures
        r == propose_outcome(*old(gov), *admin, new_version, new_schema_version),
        *final(gov) == propose_next(
            *old(gov),
            *admin,
            *new_wasm_hash,
            new_version,
            new_schema_version,
            old(env).now,
        ),
        final(env).after(
            *old(env),
            propose_actions(
                *old(gov),
                *admin,
                *new_wasm_hash,
                new_version,
                new_schema_version,
                old(env).now,
                contract_name,
            ),
        ),
{
    let current_admin = get_admin(gov);
    if *admin != current_admin {
        return Err(UpgradeGovernanceError::NotAuthorized);
    }
    env.require_auth(admin);

    if gov.has(UpgradeGovernanceKey::PendingUpgradeHash) {
        return Err(UpgradeGovernanceError::UpgradeAlreadyPending);
    }
    match validate_upgrade_safety(gov, new_version, new_schema_version) {
        Err(e) => {
            return Err(e);
        },
        Ok(()) => {},
    }

    let now: u64 = env.timestamp();
    gov.pending_upgrade_hash = Some(*new_wasm_hash);
    gov.pending_upgrade_at = Some(now);
    gov.pending_upgrade_version = Some(new_version);

    env.publish(
        Event {
            topics: Topics::Two(Value::Symbol(contract_name), Value::Symbol("propose_upgrade")),
            data: Data::Three(
                Value::Bytes(*new_wasm_hash),
                Value::U32(new_version),
                Value::U64(now),
            ),
        },
    );
    Ok(())
}

/// Message with which `execute_upgrade` aborts, if it does.
pub open spec fn execute_upgrade_abort(
    gov: UpgradeGovernance,
    admin: Address,
    new_wasm_hash: Bytes32,
) -> Option<&'static str> {
    if admin_abort(gov) is Some {
        admin_abort(gov)
    } else if gov.admin == Some(admin) && gov.pending() && gov.pending_upgrade_hash == Some(
        new_wasm_hash,
    ) && gov.pending_upgrade_at->0 + gov.delay() > u64::MAX {
        Some("attempt to add with overflow")
    } else {
        None
    }
}

/// Find out whether `execute_upgrade` would abort.
pub fn check_execute_upgrade(
    gov: &UpgradeGovernance,
    admin: &Address,
    new_wasm_hash: &Bytes32,
) -> (abort: Option<&'static str>)
    ensures
        abort == execute_upgrade_abort(*gov, *admin, *new_wasm_hash),
{
    match gov.admin {
        None => Some("Admin must be initialized"),
        Some(current_admin) => {
            if *admin != current_admin {
                return None;
            }
            match (gov.pending_upgrade_hash, gov.pending_upgrade_at, gov.pending_upgrade_version) {
                (Some(hash), Some(at), Some(_)) => if hash == *new_wasm_hash && at
                    > u64::MAX - gov.upgrade_delay.unwrap_or(0) {
                    Some("attempt to add with overflow")
                } else {
                    None
                },
                _ => None,
            }
        },
    }
}

/// What `execute_upgrade` answers at time `now`.
pub open spec fn execute_outcome(
    gov: UpgradeGovernance,
    admin: Address,
    new_wasm_hash: Bytes32,
    now: u64,
) -> Result<(), UpgradeGovernanceError> {
    if gov.admin != Some(admin) {
        Err(UpgradeGovernanceError::NotAuthorized)
    } else if !gov.pending() || gov.pending_upgrade_hash != Some(new_wasm_hash) {
        Err(UpgradeGovernanceError::NoPendingUpgrade)
    } else if now < gov.pending_upgrade_at->0 + gov.delay() {
        Err(UpgradeGovernanceError::UpgradeDelayNotElapsed)
    } else {
        Ok(())
    }
}

/// Whether `execute_upgrade` would go through now.
pub fn may_execute_upgrade(
    env: &Env,
    gov: &UpgradeGovernance,
    admin: &Address,
    new_wasm_hash: &Bytes32,
) -> (b: bool)
    requires
        execute_upgrade_abort(*gov, *admin, *new_wasm_hash) is None,
    ensures
        b == execute_outcome(*gov, *admin, *new_wasm_hash, env.now) is Ok,
{
    if *admin != get_admin(gov) {
        return false;
    }
    match (gov.pending_upgrade_hash, gov.pending_upgrade_at, gov.pending_upgrade_version) {
        (Some(hash), Some(at), Some(_)) => hash == *new_wasm_hash && env.timestamp() >= at
            + gov.upgrade_delay.unwrap_or(0),
        _ => false,
    }
}

/// The event of an upgrade that took place; `name` tells which kind.
pub open spec fn upgrade_event(
    contract_name: &'static str,
    name: &'static str,
    admin: Address,
    hash: Bytes32,
    version: u32,
    now: u64,
) -> Event {
    Event {
        topics: Topics::Two(Value::Symbol(contract_name), Value::Symbol(name)),
        data: Data::Four(
            Value::Address(admin),
            Value::Bytes(hash),
            Value::U32(version),
            Value::U64(now),
        ),
    }
}

/// Governance after `execute_upgrade` at time `now`; a refusal changes nothing.
pub open spec fn execute_next(
    gov: UpgradeGovernance,
    admin: Address,
    hash: Bytes32,
    now: u64,
) -> UpgradeGovernance {
    if execute_outcome(gov, admin, hash, now) is Ok {
        gov.upgraded(gov.pending_upgrade_version->0)
    } else {
        gov
    }
}

/// What `execute_upgrade` asks of the ledger.
pub open spec fn execute_actions(
    gov: UpgradeGovernance,
    admin: Address,
    hash: Bytes32,
    now: u64,
    contract_name: &'static str,
) -> Seq<Action> {
    if execute_outcome(gov, admin, hash, now) is Ok {
        seq![
            Action::RequireAuth(admin),
            Action::Publish(
                upgrade_event(
                    contract_name,
                    "execute_upgrade",
                    admin,
                    hash,
                    gov.pending_upgrade_version->0,
                    now,
                ),
            ),
            Action::UpdateWasm(hash),
        ]
    } else {
        refused_actions(gov, admin)
    }
}

/// Execute a proposed upgrade once its delay has elapsed.
pub fn execute_upgrade(
    env: &mut Env,
    gov: &mut UpgradeGovernance,
    admin: &Address,
    new_wasm_hash: &Bytes32,
    contract_name: &'static str,
) -> (r: Result<(), UpgradeGovernanceError>)
    requires
        execute_upgrade_abort(*old(gov), *admin, *new_wasm_hash) is None,
    ensures
        r == execute_outcome(*old(gov), *admin, *new_wasm_hash, old(env).now),
        *final(gov) == execute_next(*old(gov), *admin, *new_wasm_hash, old(env).now),
        final(env).after(
            *old(env),
            execute_actions(*old(gov), *admin, *new_wasm_hash, old(env).now, contract_name),
        ),
{
    let current_admin = get_admin(gov);
    if *admin != current_admin {
        return Err(UpgradeGovernanceError::NotAuthorized);
    }
    env.require_auth(admin);

    let pending_hash = match gov.pending_upgrade_hash {
        Some(hash) => hash,
        None => {
            return Err(UpgradeGovernanceError::NoPendingUpgrade);
        },
    };
    let pending_at: u64 = match gov.pending_upgrade_at {
        Some(at) => at,
        None => {
            return Err(UpgradeGovernanceError::NoPendingUpgrade);
        },
    };
    let pending_version: u32 = match gov.pending_upgrade_version {
        Some(version) => version,
        None => {
            return Err(UpgradeGovernanceError::NoPendingUpgrade);
        },
    };
    if pending_hash != *new_wasm_hash {
        return Err(UpgradeGovernanceError::NoPendingUpgrade);
    }

    let delay: u64 = gov.upgrade_delay.unwrap_or(0);
    let now: u64 = env.timestamp();
    if now < pending_at + delay {
        return Err(UpgradeGovernanceError::UpgradeDelayNotElapsed);
    }

    gov.pending_upgrade_hash = None;
    gov.pending_upgrade_at = None;
    gov.pending_upgrade_version = None;
    gov.contract_version = Some(pending_version);

    env.publish(
        Event {
            topics: Topics::Two(Value::Symbol(contract_name), Value::Symbol("execute_upgrade")),
            data: Data::Four(
                Value::Address(*admin),
                Value::Bytes(*new_wasm_hash),
                Value::U32(pending_version),
                Value::U64(now),
            ),
        },
    );
    env.update_current_contract_wasm(new_wasm_hash);
    Ok(())
}

/// Message with which `emergency_upgrade` aborts, if it does.
pub open spec fn emergency_upgrade_abort(gov: UpgradeGovernance, admin: Address) -> Option<
    &'static str,
> {
    if admin_abort(gov) is Some {
        admin_abort(gov)
    } else if gov.admin != Some(admin) {
        None
    } else {
        validate_upgrade_safety_abort(gov)
    }
}

/// Find out whether `emergency_upgrade` would abort.
pub fn check_emergency_upgrade(gov: &UpgradeGovernance, admin: &Address) -> (abort: Option<
    &'static str,
>)
    ensures
        abort == emergency_upgrade_abort(*gov, *admin),
{
    match gov.admin {
        None => Some("Admin must be initialized"),
        Some(current_admin) => if *admin == current_admin && get_contract_version(gov)
            == u32::MAX {
            Some("attempt to add with overflow")
        } else {
            None
        },
    }
}

/// What `emergency_upgrade` answers.
pub open spec fn emergency_outcome(
    gov: UpgradeGovernance,
    admin: Address,
    new_version: u32,
    new_schema_version: Option<u32>,
    require_guardian: bool,
) -> Result<(), UpgradeGovernanceError> {
    if gov.admin != Some(admin) {
        Err(UpgradeGovernanceError::NotAuthorized)
    } else if upgrade_safety(gov, new_version, new_schema_version) is Err {
        upgrade_safety(gov, new_version, new_schema_version)
    } else if require_guardian && gov.guardian is None {
        Err(UpgradeGovernanceError::GuardianNotConfigured)
    } else {
        Ok(())
    }
}

/// Authorisations that an emergency upgrade asks for: the admin's, and the
/// guardian's where there is one.
pub open spec fn emergency_auths(gov: UpgradeGovernance, admin: Address) -> Seq<Action> {
    match gov.guardian {
        Some(guardian) => seq![Action::RequireAuth(admin), Action::RequireAuth(guardian)],
        None => seq![Action::RequireAuth(admin)],
    }
}

/// Governance after `emergency_upgrade`; a refusal changes nothing.
pub open spec fn emergency_next(
    gov: UpgradeGovernance,
    admin: Address,
    version: u32,
    schema: Option<u32>,
    require_guardian: bool,
) -> UpgradeGovernance {
    if emergency_outcome(gov, admin, version, schema, require_guardian) is Ok {
        gov.upgraded(version)
    } else {
        gov
    }
}

/// What `emergency_upgrade` asks of the ledger at time `now`.
pub open spec fn emergency_actions(
    gov: UpgradeGovernance,
    admin: Address,
    hash: Bytes32,
    version: u32,
    schema: Option<u32>,
    require_guardian: bool,
    now: u64,
    contract_name: &'static str,
) -> Seq<Action> {
    if emergency_outcome(gov, admin, version, schema, require_guardian) is Ok {
        emergency_auths(gov, admin) + seq![
            Action::Publish(
                upgrade_event(contract_name, "emergency_upgrade", admin, hash, version, now),
            ),
            Action::UpdateWasm(hash),
        ]
    } else {
        refused_actions(gov, admin)
    }
}

/// Upgrade at once, without the timelock.
///
/// A configured guardian has to authorise it in any case; with
/// `require_guardian` there has to be one.
pub fn emergency_upgrade(
    env: &mut Env,
    gov: &mut UpgradeGovernance,
    admin: &Address,
    new_wasm_hash: &Bytes32,
    new_version: u32,
    new_schema_version: Option<u32>,
    contract_name: &'static str,
    require_guardian: bool,
) -> (r: Result<(), UpgradeGovernanceError>)
    requires
        emergency_upgrade_abort(*old(gov), *admin) is None,
    ensures
        r == emergency_outcome(
            *old(gov),
            *admin,
            new_version,
            new_schema_version,
            require_guardian,
        ),
        *final(gov) == emergency_next(
            *old(gov),
            *admin,
            new_version,
            new_schema_version,
            require_guardian,
        ),
        final(env).after(
            *old(env),
            emergency_actions(
                *old(gov),
                *admin,
                *new_wasm_hash,
                new_version,
                new_schema_version,
                require_guardian,
                old(env).now,
                contract_name,
            ),
        ),
{
    let current_admin = get_admin(gov);
    if *admin != current_admin {
        return Err(UpgradeGovernanceError::NotAuthorized);
    }
    env.require_auth(admin);

    match validate_upgrade_safety(gov, new_version, new_schema_version) {
        Err(e) => {
            return Err(e);
        },
        Ok(()) => {},
    }

    if require_guardian {
        match get_guardian(gov) {
            Some(guardian) => {
                env.require_auth(&guardian);
            },
            None => {
                return Err(UpgradeGovernanceError::GuardianNotConfigured);
            },
        }
    } else if let Some(guardian) = get_guardian(gov) {
        env.require_auth(&guardian);
    }

    gov.pending_upgrade_hash = None;
    gov.pending_upgrade_at = None;
    gov.pending_upgrade_version = None;
    gov.contract_version = Some(new_version);

    env.publish(
        Event {
            topics: Topics::Two(Value::Symbol(contract_name), Value::Symbol("emergency_upgrade")),
            data: Data::Four(
                Value::Address(*admin),
                Value::Bytes(*new_wasm_hash),
                Value::U32(new_version),
                Value::U64(env.timestamp()),
            ),
        },
    );
    env.update_current_contract_wasm(new_wasm_hash);
    Ok(())
}

/// What a setting of governance answers: only the admin may change one.
pub open spec fn setting_outcome(gov: UpgradeGovernance, admin: Address) -> Result<
    (),
    UpgradeGovernanceError,
> {
    if gov.admin == Some(admin) {
        Ok(())
    } else {
        Err(UpgradeGovernanceError::NotAuthorized)
    }
}

/// What a setting asks of the ledger: the caller's authorisation in any case,
/// and `event` once the caller has got through.
pub open spec fn setting_actions(gov: UpgradeGovernance, admin: Address, event: Event) -> Seq<
    Action,
> {
    if setting_outcome(gov, admin) is Ok {
        seq![Action::RequireAuth(admin), Action::Publish(event)]
    } else {
        seq![Action::RequireAuth(admin)]
    }
}

/// Governance after `set_upgrade_delay`.
pub open spec fn delay_next(
    gov: UpgradeGovernance,
    admin: Address,
    delay_seconds: u64,
) -> UpgradeGovernance {
    if setting_outcome(gov, admin) is Ok {
        UpgradeGovernance { upgrade_delay: Some(delay_seconds), ..gov }
    } else {
        gov
    }
}

/// Governance after `set_guardian`.
pub open spec fn guardian_next(
    gov: UpgradeGovernance,
    admin: Address,
    guardian: Option<Address>,
) -> UpgradeGovernance {
    if setting_outcome(gov, admin) is Ok {
        UpgradeGovernance { guardian, ..gov }
    } else {
        gov
    }
}

pub open spec fn delay_event(contract_name: &'static str, delay_seconds: u64) -> Event {
    Event {
        topics: Topics::Two(Value::Symbol(contract_name), Value::Symbol("set_upgrade_delay")),
        data: Data::One(Value::U64(delay_seconds)),
    }
}

/// Set the delay of ordinary upgrades.
pub fn set_upgrade_delay(
    env: &mut Env,
    gov: &mut UpgradeGovernance,
    admin: &Address,
    delay_seconds: u64,
    contract_name: &'static str,
) -> (r: Result<(), UpgradeGovernanceError>)
    requires
        admin_abort(*old(gov)) is None,
    ensures
        r == setting_outcome(*old(gov), *admin),
        *final(gov) == delay_next(*old(gov), *admin, delay_seconds),
        final(env).after(
            *old(env),
            setting_actions(*old(gov), *admin, delay_event(contract_name, delay_seconds)),
        ),
{
    let current_admin = get_admin(gov);
    if *admin != current_admin {
        env.require_auth(admin);
        return Err(UpgradeGovernanceError::NotAuthorized);
    }
    env.require_auth(admin);

    gov.upgrade_delay = Some(delay_seconds);
    env.publish(
        Event {
            topics: Topics::Two(Value::Symbol(contract_name), Value::Symbol("set_upgrade_delay")),
            data: Data::One(Value::U64(delay_seconds)),
        },
    );
    Ok(())
}

/// The guardian itself is the payload; a removal has none.
pub open spec fn guardian_event(contract_name: &'static str, guardian: Option<Address>) -> Event {
    Event {
        topics: Topics::Two(Value::Symbol(contract_name), Value::Symbol("set_guardian")),
        data: match guardian {
            Some(g) => Data::One(Value::Address(g)),
            None => Data::Unit,
        },
    }
}

/// Set the guardian, or remove it with `None`.
pub fn set_guardian(
    env: &mut Env,
    gov: &mut UpgradeGovernance,
    admin: &Address,
    guardian: Option<Address>,
    contract_name: &'static str,
) -> (r: Result<(), UpgradeGovernanceError>)
    requires
        admin_abort(*old(gov)) is None,
    ensures
        r == setting_outcome(*old(gov), *admin),
        *final(gov) == guardian_next(*old(gov), *admin, guardian),
        final(env).after(
            *old(env),
            setting_actions(*old(gov), *admin, guardian_event(contract_name, guardian)),
        ),
{
    let current_admin = get_admin(gov);
    if *admin != current_admin {
        env.require_auth(admin);
        return Err(UpgradeGovernanceError::NotAuthorized);
    }
    env.require_auth(admin);

    match guardian {
        Some(g) => {
            gov.guardian = Some(g);
            env.publish(
                Event {
                    topics: Topics::Two(
                        Value::Symbol(contract_name),
                        Value::Symbol("set_guardian"),
                    ),
                    data: Data::One(Value::Address(g)),
                },
            );
        },
        None => {
            gov.guardian = None;
            env.publish(
                Event {
                    topics: Topics::Two(
                        Value::Symbol(contract_name),
                        Value::Symbol("set_guardian"),
                    ),
                    data: Data::Unit,
                },
            );
        },
    }
    Ok(())
}

/// Write the entries that governance starts from. A guardian that is already
/// stored stays where none is given, and so does a proposal.
pub fn initialize_upgrade_governance(
    gov: &mut UpgradeGovernance,
    admin: &Address,
    guardian: Option<Address>,
    initial_version: u32,
    initial_schema_version: u32,
    upgrade_delay: u64,
)
    ensures
        *final(gov) == (UpgradeGovernance {
            admin: Some(*admin),
            guardian: if guardian is Some {
                guardian
            } else {
                old(gov).guardian
            },
            contract_version: Some(initial_version),
            storage_schema_version: Some(initial_schema_version),
            upgrade_delay: Some(upgrade_delay),
            ..*old(gov)
        }),
{
    gov.admin = Some(*admin);
    if let Some(g) = guardian {
        gov.guardian = Some(g);
    }
    gov.contract_version = Some(initial_version);
    gov.storage_schema_version = Some(initial_schema_version);
    gov.upgrade_delay = Some(upgrade_delay);
}

impl UpgradeGovernance {
    /// A stored proposal is complete, and its version follows the current one.
    pub open spec fn sequential(self) -> bool {
        self.pending_upgrade_hash is Some ==> self.pending() && self.pending_upgrade_version->0
            == self.version() + 1
    }
}

/// Timelock: an upgrade proposed at `proposed_at` cannot be executed before its
/// delay has elapsed, and can be from then on, for the proposed code only.
pub proof fn law_timelock(
    gov: UpgradeGovernance,
    admin: Address,
    hash: Bytes32,
    version: u32,
    schema: Option<u32>,
    proposed_at: u64,
    other: Bytes32,
    now: u64,
)
    requires
        propose_outcome(gov, admin, version, schema) is Ok,
        other != hash,
    ensures
        now < proposed_at + gov.delay() ==> execute_outcome(
            gov.proposed(hash, version, proposed_at),
            admin,
            hash,
            now,
        ) == Err::<(), _>(UpgradeGovernanceError::UpgradeDelayNotElapsed),
        now >= proposed_at + gov.delay() ==> execute_outcome(
            gov.proposed(hash, version, proposed_at),
            admin,
            hash,
            now,
        ) is Ok,
        execute_outcome(gov.proposed(hash, version, proposed_at), admin, other, now) == Err::<
            (),
            _,
        >(UpgradeGovernanceError::NoPendingUpgrade),
{
}

/// Versions are sequential: every operation keeps a stored proposal one version
/// ahead, so that an upgrade, ordinary or emergency, raises the version by
/// exactly one.
pub proof fn law_versions_are_sequential(
    gov: UpgradeGovernance,
    admin: Address,
    hash: Bytes32,
    version: u32,
    schema: Option<u32>,
    now: u64,
    require_guardian: bool,
    delay: u64,
    guardian: Option<Address>,
)
    requires
        gov.sequential(),
    ensures
        propose_next(gov, admin, hash, version, schema, now).sequential(),
        execute_next(gov, admin, hash, now).sequential(),
        emergency_next(gov, admin, version, schema, require_guardian).sequential(),
        delay_next(gov, admin, delay).sequential(),
        guardian_next(gov, admin, guardian).sequential(),
        gov.without_pending().sequential(),
        execute_outcome(gov, admin, hash, now) is Ok ==> execute_next(
            gov,
            admin,
            hash,
            now,
        ).version() == gov.version() + 1,
        emergency_outcome(gov, admin, version, schema, require_guardian) is Ok ==> emergency_next(
            gov,
            admin,
            version,
            schema,
            require_guardian,
        ).version() == gov.version() + 1,
{
}

/// One proposal at a time, and each is executed at most once: while one is
/// stored another is refused, and after an upgrade nothing is left to execute.
pub proof fn law_one_proposal_executed_once(
    gov: UpgradeGovernance,
    admin: Address,
    hash: Bytes32,
    version: u32,
    schema: Option<u32>,
    now: u64,
    other: Bytes32,
    other_version: u32,
    later: u64,
)
    requires
        gov.admin == Some(admin),
    ensures
        propose_outcome(gov.proposed(hash, version, now), admin, other_version, schema) == Err::<
            (),
            _,
        >(UpgradeGovernanceError::UpgradeAlreadyPending),
        execute_outcome(gov.upgraded(version), admin, other, later) == Err::<(), _>(
            UpgradeGovernanceError::NoPendingUpgrade,
        ),
        execute_outcome(gov.without_pending(), admin, other, later) == Err::<(), _>(
            UpgradeGovernanceError::NoPendingUpgrade,
        ),
{
}

/// Nobody but the stored admin gets anything done, and an emergency upgrade
/// asks for the guardian's authorisation wherever a guardian is stored; where
/// one is mandatory and none is stored, it is refused.
pub proof fn law_authority(
    gov: UpgradeGovernance,
    caller: Address,
    hash: Bytes32,
    version: u32,
    schema: Option<u32>,
    now: u64,
    require_guardian: bool,
)
    ensures
        gov.admin != Some(caller) ==> propose_outcome(gov, caller, version, schema) is Err
            && execute_outcome(gov, caller, hash, now) is Err && emergency_outcome(
            gov,
            caller,
            version,
            schema,
            require_guardian,
        ) is Err && setting_outcome(gov, caller) is Err,
        gov.guardian matches Some(guardian) ==> emergency_auths(gov, caller).contains(
            Action::RequireAuth(guardian),
        ),
        require_guardian && gov.guardian is None ==> emergency_outcome(
            gov,
            caller,
            version,
            schema,
            require_guardian,
        ) is Err,
{
    if gov.guardian is Some {
        assert(emergency_auths(gov, caller)[1] == Action::RequireAuth(gov.guardian->0));
    }
}

} // verus!
