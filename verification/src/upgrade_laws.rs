//! What holds of upgrade governance in every state.

use vstd::prelude::*;

use crate::host::{Action, Data, Event, Topics, Value};
use crate::upgrade_governance as governance;
use crate::upgrade_governance::{UpgradeGovernance, UpgradeGovernanceError, UpgradeGovernanceKey};
use crate::value::{Address, Bytes32};

verus! {

/// What reads as stored where it is stored, and as its default where it is not:
/// version zero, layout one, no delay.
pub proof fn law_defaults(gov: UpgradeGovernance)
    ensures
        gov.contract_version matches Some(v) ==> gov.version() == v,
        gov.contract_version is None ==> gov.version() == 0,
        gov.storage_schema_version matches Some(v) ==> gov.schema() == v,
        gov.storage_schema_version is None ==> gov.schema() == 1,
        gov.upgrade_delay matches Some(d) ==> gov.delay() == d,
        gov.upgrade_delay is None ==> gov.delay() == 0,
        forall|key: UpgradeGovernanceKey|
            !#[trigger] UpgradeGovernance::empty().holds(key),
        gov.holds(UpgradeGovernanceKey::Admin) <==> gov.admin is Some,
        gov.holds(UpgradeGovernanceKey::Guardian) <==> gov.guardian is Some,
        gov.holds(UpgradeGovernanceKey::PendingUpgradeHash) <==> gov.pending_upgrade_hash is Some,
        gov.holds(UpgradeGovernanceKey::PendingUpgradeAt) <==> gov.pending_upgrade_at is Some,
        gov.holds(UpgradeGovernanceKey::PendingUpgradeVersion) <==> gov.pending_upgrade_version
            is Some,
        gov.holds(UpgradeGovernanceKey::ContractVersion) <==> gov.contract_version is Some,
        gov.holds(UpgradeGovernanceKey::UpgradeDelay) <==> gov.upgrade_delay is Some,
        gov.holds(UpgradeGovernanceKey::StorageSchemaVersion) <==> gov.storage_schema_version
            is Some,
{
}

/// An upgrade is safe exactly if its version is the next one, and its storage
/// layout, where one is named, is not older than the current one.
pub proof fn law_safe_upgrades(gov: UpgradeGovernance, version: u32, schema: Option<u32>)
    ensures
        ({
            let current = match gov.contract_version {
                Some(v) => v as int,
                None => 0,
            };
            let layout = match gov.storage_schema_version {
                Some(v) => v as int,
                None => 1,
            };
            let fits = schema is None || schema->0 >= layout;
            let answer = governance::upgrade_safety(gov, version, schema);
            &&& answer is Ok <==> version - current == 1 && fits
            &&& version - current != 1 ==> answer == Err::<(), _>(
                UpgradeGovernanceError::InvalidUpgradeVersion,
            )
            &&& version - current == 1 && !fits ==> answer == Err::<(), _>(
                UpgradeGovernanceError::IncompatibleSchemaVersion,
            )
            &&& governance::validate_upgrade_safety_abort(gov) is None <==> current < u32::MAX
        }),
{
}

/// The admin can propose every safe upgrade as long as none is proposed, and
/// nobody can propose anything else.
pub proof fn law_proposals_go_through(
    gov: UpgradeGovernance,
    caller: Address,
    version: u32,
    schema: Option<u32>,
)
    ensures
        ({
            let current = match gov.contract_version {
                Some(v) => v as int,
                None => 0,
            };
            let layout = match gov.storage_schema_version {
                Some(v) => v as int,
                None => 1,
            };
            let free = gov.admin == Some(caller) && gov.pending_upgrade_hash is None;
            let fits = schema is None || schema->0 >= layout;
            let answer = governance::propose_outcome(gov, caller, version, schema);
            let abort = governance::propose_upgrade_abort(gov, caller);
            &&& answer is Ok <==> free && version - current == 1 && fits
            &&& gov.admin != Some(caller) ==> answer == Err::<(), _>(
                UpgradeGovernanceError::NotAuthorized,
            )
            &&& gov.admin == Some(caller) && gov.pending_upgrade_hash is Some ==> answer == Err::<
                (),
                _,
            >(UpgradeGovernanceError::UpgradeAlreadyPending)
            &&& free && version - current != 1 ==> answer == Err::<(), _>(
                UpgradeGovernanceError::InvalidUpgradeVersion,
            )
            &&& free && version - current == 1 && !fits ==> answer == Err::<(), _>(
                UpgradeGovernanceError::IncompatibleSchemaVersion,
            )
            &&& abort is None <==> gov.admin is Some && (!free || current < u32::MAX)
            &&& gov.admin is None ==> abort == Some("Admin must be initialized")
            &&& free && current == u32::MAX ==> abort == Some("attempt to add with overflow")
        }),
{
}

/// The admin can execute the proposed code once the delay since its proposal has
/// passed, at that very second too, and nobody can execute anything else.
pub proof fn law_executions_go_through(
    gov: UpgradeGovernance,
    caller: Address,
    hash: Bytes32,
    now: u64,
)
    ensures
        ({
            let delay = match gov.upgrade_delay {
                Some(d) => d as int,
                None => 0,
            };
            let complete = gov.pending_upgrade_hash == Some(hash) && gov.pending_upgrade_at is Some
                && gov.pending_upgrade_version is Some;
            let elapsed = now - gov.pending_upgrade_at->0;
            let answer = governance::execute_outcome(gov, caller, hash, now);
            let abort = governance::execute_upgrade_abort(gov, caller, hash);
            &&& answer is Ok <==> gov.admin == Some(caller) && complete && elapsed >= delay
            &&& gov.admin != Some(caller) ==> answer == Err::<(), _>(
                UpgradeGovernanceError::NotAuthorized,
            )
            &&& gov.admin == Some(caller) && !complete ==> answer == Err::<(), _>(
                UpgradeGovernanceError::NoPendingUpgrade,
            )
            &&& gov.admin == Some(caller) && complete && elapsed < delay ==> answer == Err::<
                (),
                _,
            >(UpgradeGovernanceError::UpgradeDelayNotElapsed)
            &&& gov.admin is None ==> abort == Some("Admin must be initialized")
            &&& gov.admin is Some && !(gov.admin == Some(caller) && complete) ==> abort is None
            &&& gov.admin == Some(caller) && complete ==> (abort is None
                <==> gov.pending_upgrade_at->0 + delay <= u64::MAX)
        }),
{
}

/// The admin can make every safe emergency upgrade at once, pending proposal or
/// not, where a mandatory guardian is stored; nobody can make any other.
pub proof fn law_emergencies_go_through(
    gov: UpgradeGovernance,
    caller: Address,
    version: u32,
    schema: Option<u32>,
    require_guardian: bool,
)
    ensures
        ({
            let current = match gov.contract_version {
                Some(v) => v as int,
                None => 0,
            };
            let layout = match gov.storage_schema_version {
                Some(v) => v as int,
                None => 1,
            };
            let fits = schema is None || schema->0 >= layout;
            let safe = version - current == 1 && fits;
            let guarded = gov.guardian is Some || !require_guardian;
            let mine = gov.admin == Some(caller);
            let answer = governance::emergency_outcome(
                gov,
                caller,
                version,
                schema,
                require_guardian,
            );
            let abort = governance::emergency_upgrade_abort(gov, caller);
            &&& answer is Ok <==> mine && safe && guarded
            &&& !mine ==> answer == Err::<(), _>(UpgradeGovernanceError::NotAuthorized)
            &&& mine && version - current != 1 ==> answer == Err::<(), _>(
                UpgradeGovernanceError::InvalidUpgradeVersion,
            )
            &&& mine && version - current == 1 && !fits ==> answer == Err::<(), _>(
                UpgradeGovernanceError::IncompatibleSchemaVersion,
            )
            &&& mine && safe && !guarded ==> answer == Err::<(), _>(
                UpgradeGovernanceError::GuardianNotConfigured,
            )
            &&& gov.admin is None ==> abort == Some("Admin must be initialized")
            &&& gov.admin is Some ==> (abort is None <==> !mine || current < u32::MAX)
        }),
{
}

/// A proposal that goes through is stored as made, with its time; all else
/// stays. A refused one changes nothing.
pub proof fn law_proposal_is_stored(
    gov: UpgradeGovernance,
    caller: Address,
    hash: Bytes32,
    version: u32,
    schema: Option<u32>,
    now: u64,
)
    ensures
        ({
            let next = governance::propose_next(gov, caller, hash, version, schema, now);
            let done = governance::propose_outcome(gov, caller, version, schema) is Ok;
            &&& !done ==> next == gov
            &&& done ==> next.pending_upgrade_hash == Some(hash) && next.pending_upgrade_at == Some(
                now,
            ) && next.pending_upgrade_version == Some(version)
            &&& next.admin == gov.admin
            &&& next.guardian == gov.guardian
            &&& next.contract_version == gov.contract_version
            &&& next.upgrade_delay == gov.upgrade_delay
            &&& next.storage_schema_version == gov.storage_schema_version
        }),
{
}

/// An upgrade, executed or in an emergency, takes on the version it was made for
/// and clears the proposal; all else stays. A refused one changes nothing.
pub proof fn law_upgrade_takes_effect(
    gov: UpgradeGovernance,
    caller: Address,
    hash: Bytes32,
    version: u32,
    schema: Option<u32>,
    require_guardian: bool,
    now: u64,
)
    ensures
        ({
            let executed = governance::execute_next(gov, caller, hash, now);
            let done = governance::execute_outcome(gov, caller, hash, now) is Ok;
            &&& !done ==> executed == gov
            &&& done ==> executed == (UpgradeGovernance {
                pending_upgrade_hash: None,
                pending_upgrade_at: None,
                pending_upgrade_version: None,
                contract_version: gov.pending_upgrade_version,
                ..gov
            })
        }),
        ({
            let next = governance::emergency_next(gov, caller, version, schema, require_guardian);
            let done = governance::emergency_outcome(
                gov,
                caller,
                version,
                schema,
                require_guardian,
            ) is Ok;
            &&& !done ==> next == gov
            &&& done ==> next == (UpgradeGovernance {
                pending_upgrade_hash: None,
                pending_upgrade_at: None,
                pending_upgrade_version: None,
                contract_version: Some(version),
                ..gov
            })
        }),
        gov.without_pending() == (UpgradeGovernance {
            pending_upgrade_hash: None,
            pending_upgrade_at: None,
            pending_upgrade_version: None,
            ..gov
        }),
{
}

/// The admin, and nobody else, sets the delay and the guardian, each to what was
/// given and without touching anything else.
pub proof fn law_settings_are_stored(
    gov: UpgradeGovernance,
    caller: Address,
    delay: u64,
    guardian: Option<Address>,
)
    ensures
        governance::setting_outcome(gov, caller) is Ok <==> gov.admin == Some(caller),
        gov.admin != Some(caller) ==> governance::setting_outcome(gov, caller) == Err::<(), _>(
            UpgradeGovernanceError::NotAuthorized,
        ),
        gov.admin == Some(caller) ==> governance::delay_next(gov, caller, delay) == (
        UpgradeGovernance { upgrade_delay: Some(delay), ..gov }),
        gov.admin == Some(caller) ==> governance::guardian_next(gov, caller, guardian) == (
        UpgradeGovernance { guardian, ..gov }),
        gov.admin != Some(caller) ==> governance::delay_next(gov, caller, delay) == gov
            && governance::guardian_next(gov, caller, guardian) == gov,
        governance::admin_abort(gov) is None <==> gov.admin is Some,
        gov.admin is None ==> governance::admin_abort(gov) == Some("Admin must be initialized"),
{
}

/// What upgrades ask of the ledger: new code exactly if they go through, and
/// then the code that was given, behind the authorisation of the admin and an
/// event that says what happened.
pub proof fn law_upgrades_ask_for_the_code(
    gov: UpgradeGovernance,
    caller: Address,
    hash: Bytes32,
    version: u32,
    schema: Option<u32>,
    require_guardian: bool,
    now: u64,
    name: &'static str,
)
    ensures
        ({
            let actions = governance::propose_actions(
                gov,
                caller,
                hash,
                version,
                schema,
                now,
                name,
            );
            &&& governance::propose_outcome(gov, caller, version, schema) is Ok ==> actions
                =~= seq![
                Action::RequireAuth(caller),
                Action::Publish(
                    Event {
                        topics: Topics::Two(Value::Symbol(name), Value::Symbol("propose_upgrade")),
                        data: Data::Three(
                            Value::Bytes(hash),
                            Value::U32(version),
                            Value::U64(now),
                        ),
                    },
                ),
            ]
            &&& governance::propose_outcome(gov, caller, version, schema) is Err ==> actions
                =~= governance::refused_actions(gov, caller)
        }),
        ({
            let actions = governance::execute_actions(gov, caller, hash, now, name);
            &&& governance::execute_outcome(gov, caller, hash, now) is Ok ==> actions =~= seq![
                Action::RequireAuth(caller),
                Action::Publish(
                    Event {
                        topics: Topics::Two(Value::Symbol(name), Value::Symbol("execute_upgrade")),
                        data: Data::Four(
                            Value::Address(caller),
                            Value::Bytes(hash),
                            Value::U32(gov.pending_upgrade_version->0),
                            Value::U64(now),
                        ),
                    },
                ),
                Action::UpdateWasm(hash),
            ]
            &&& governance::execute_outcome(gov, caller, hash, now) is Err ==> actions
                =~= governance::refused_actions(gov, caller)
        }),
        ({
            let actions = governance::emergency_actions(
                gov,
                caller,
                hash,
                version,
                schema,
                require_guardian,
                now,
                name,
            );
            let done = governance::emergency_outcome(
                gov,
                caller,
                version,
                schema,
                require_guardian,
            ) is Ok;
            let told = Action::Publish(
                Event {
                    topics: Topics::Two(Value::Symbol(name), Value::Symbol("emergency_upgrade")),
                    data: Data::Four(
                        Value::Address(caller),
                        Value::Bytes(hash),
                        Value::U32(version),
                        Value::U64(now),
                    ),
                },
            );
            &&& done && gov.guardian is None ==> actions =~= seq![
                Action::RequireAuth(caller),
                told,
                Action::UpdateWasm(hash),
            ]
            &&& done && gov.guardian is Some ==> actions =~= seq![
                Action::RequireAuth(caller),
                Action::RequireAuth(gov.guardian->0),
                told,
                Action::UpdateWasm(hash),
            ]
            &&& !done ==> actions =~= governance::refused_actions(gov, caller)
        }),
        gov.admin == Some(caller) ==> governance::refused_actions(gov, caller) =~= seq![
            Action::RequireAuth(caller),
        ],
        gov.admin != Some(caller) ==> governance::refused_actions(gov, caller).len() == 0,
{
}

/// A setting asks for the caller's authorisation, and the admin's is announced.
pub proof fn law_settings_are_announced(
    gov: UpgradeGovernance,
    caller: Address,
    event: Event,
    name: &'static str,
    delay: u64,
    guardian: Option<Address>,
)
    ensures
        gov.admin == Some(caller) ==> governance::setting_actions(gov, caller, event) =~= seq![
            Action::RequireAuth(caller),
            Action::Publish(event),
        ],
        gov.admin != Some(caller) ==> governance::setting_actions(gov, caller, event) =~= seq![
            Action::RequireAuth(caller),
        ],
        governance::delay_event(name, delay) == (Event {
            topics: Topics::Two(Value::Symbol(name), Value::Symbol("set_upgrade_delay")),
            data: Data::One(Value::U64(delay)),
        }),
        governance::guardian_event(name, guardian).topics == Topics::Two(
            Value::Symbol(name),
            Value::Symbol("set_guardian"),
        ),
        guardian matches Some(g) ==> governance::guardian_event(name, guardian).data == Data::One(
            Value::Address(g),
        ),
        guardian is None ==> governance::guardian_event(name, guardian).data == Data::Unit,
{
}

/// From proposal to new version: what is proposed on a fresh proposal slot and
/// executed after its delay makes the contract one version newer, with nothing
/// pending, whatever else is stored.
pub proof fn law_proposed_then_executed(
    gov: UpgradeGovernance,
    admin: Address,
    hash: Bytes32,
    version: u32,
    at: u64,
    later: u64,
)
    requires
        gov.admin == Some(admin),
        gov.pending_upgrade_hash is None,
        gov.contract_version matches Some(v) ==> version == v + 1,
        gov.contract_version is None ==> version == 1,
        later >= at + (match gov.upgrade_delay {
            Some(d) => d as int,
            None => 0,
        }),
    ensures
        ({
            let proposed = governance::propose_next(gov, admin, hash, version, None, at);
            let done = governance::execute_next(proposed, admin, hash, later);
            &&& done.contract_version == Some(version)
            &&& done.pending_upgrade_hash is None
            &&& done.pending_upgrade_at is None
            &&& done.pending_upgrade_version is None
            &&& done.admin == gov.admin
            &&& done.guardian == gov.guardian
            &&& done.upgrade_delay == gov.upgrade_delay
            &&& done.storage_schema_version == gov.storage_schema_version
        }),
{
}

/// Errors are told apart by their numbers, from one on in the order of their
/// declaration.
pub proof fn law_errors_are_told_apart(a: UpgradeGovernanceError, b: UpgradeGovernanceError)
    ensures
        a.code_of() == b.code_of() ==> a == b,
        1 <= a.code_of() <= 7,
        UpgradeGovernanceError::NotAuthorized.code_of()
            < UpgradeGovernanceError::UpgradeAlreadyPending.code_of()
            < UpgradeGovernanceError::NoPendingUpgrade.code_of()
            < UpgradeGovernanceError::UpgradeDelayNotElapsed.code_of()
            < UpgradeGovernanceError::GuardianNotConfigured.code_of()
            < UpgradeGovernanceError::InvalidUpgradeVersion.code_of()
            < UpgradeGovernanceError::IncompatibleSchemaVersion.code_of(),
{
}

} // verus!
