use shelterflex_contracts::host::{Action, Data, Env, Topics, Value};
use shelterflex_contracts::upgrade_governance::{
    check_emergency_upgrade, check_execute_upgrade, check_propose_upgrade, emergency_upgrade,
    execute_upgrade, get_admin, get_contract_version, get_guardian, get_storage_schema_version,
    initialize_upgrade_governance, may_execute_upgrade, propose_upgrade, set_guardian,
    set_upgrade_delay, validate_upgrade_safety, UpgradeGovernance, UpgradeGovernanceError,
    UpgradeGovernanceKey,
};
use shelterflex_contracts::value::{Address, Bytes32};

const NAME: &str = "some_contract";

fn addr(n: u128) -> Address {
    Address { contract: false, id: Bytes32 { hi: 0, lo: n } }
}

fn hash(n: u128) -> Bytes32 {
    Bytes32 { hi: n, lo: n }
}

fn env_at(now: u64) -> Env {
    Env::new(now, Address { contract: true, id: hash(9) })
}

fn governed(guardian: Option<Address>, delay: u64) -> UpgradeGovernance {
    let mut gov = UpgradeGovernance::new();
    initialize_upgrade_governance(&mut gov, &addr(1), guardian, 1, 1, delay);
    gov
}

#[test]
fn test_upgrade_governance_error_from_u32() {
    // Test that error conversion works
    let error = UpgradeGovernanceError::NotAuthorized;
    assert_eq!(error.code(), 1);

    let error = UpgradeGovernanceError::UpgradeAlreadyPending;
    assert_eq!(error.code(), 2);

    let error = UpgradeGovernanceError::NoPendingUpgrade;
    assert_eq!(error.code(), 3);

    let error = UpgradeGovernanceError::UpgradeDelayNotElapsed;
    assert_eq!(error.code(), 4);

    let error = UpgradeGovernanceError::GuardianNotConfigured;
    assert_eq!(error.code(), 5);

    let error = UpgradeGovernanceError::InvalidUpgradeVersion;
    assert_eq!(error.code(), 6);

    let error = UpgradeGovernanceError::IncompatibleSchemaVersion;
    assert_eq!(error.code(), 7);
}

#[test]
fn ledger_error_carries_the_code() {
    let error: soroban_sdk::Error = UpgradeGovernanceError::GuardianNotConfigured.into();
    assert_eq!(error.get_code(), 5);
    assert!(error.is_type(soroban_sdk::xdr::ScErrorType::Contract));
    assert_ne!(
        soroban_sdk::Error::from(UpgradeGovernanceError::NotAuthorized),
        soroban_sdk::Error::from(UpgradeGovernanceError::NoPendingUpgrade)
    );
}

#[test]
fn fresh_storage_reads_as_defaults() {
    let gov = UpgradeGovernance::new();
    assert_eq!(get_contract_version(&gov), 0);
    assert_eq!(get_storage_schema_version(&gov), 1);
    assert_eq!(get_guardian(&gov), None);
    assert!(!gov.has(UpgradeGovernanceKey::Admin));
    assert!(!gov.has(UpgradeGovernanceKey::UpgradeDelay));
    assert_eq!(check_propose_upgrade(&gov, &addr(1)), Some("Admin must be initialized"));
    assert_eq!(check_execute_upgrade(&gov, &addr(1), &hash(1)), Some("Admin must be initialized"));
    assert_eq!(check_emergency_upgrade(&gov, &addr(1)), Some("Admin must be initialized"));
}

#[test]
fn initialization_writes_every_entry() {
    let mut gov = governed(Some(addr(2)), 60);
    assert_eq!(get_admin(&gov), addr(1));
    assert_eq!(get_guardian(&gov), Some(addr(2)));
    assert_eq!(get_contract_version(&gov), 1);
    assert!(gov.has(UpgradeGovernanceKey::Guardian));
    assert!(gov.has(UpgradeGovernanceKey::StorageSchemaVersion));
    // A second one without a guardian keeps the stored guardian.
    initialize_upgrade_governance(&mut gov, &addr(3), None, 4, 5, 6);
    assert_eq!(get_admin(&gov), addr(3));
    assert_eq!(get_guardian(&gov), Some(addr(2)));
    assert_eq!(get_storage_schema_version(&gov), 5);
    assert_eq!(gov.upgrade_delay, Some(6));
}

#[test]
fn versions_have_to_be_sequential_and_schemas_not_older() {
    let mut gov = governed(None, 0);
    gov.storage_schema_version = Some(3);
    assert_eq!(validate_upgrade_safety(&gov, 2, None), Ok(()));
    assert_eq!(validate_upgrade_safety(&gov, 2, Some(3)), Ok(()));
    assert_eq!(
        validate_upgrade_safety(&gov, 3, None),
        Err(UpgradeGovernanceError::InvalidUpgradeVersion)
    );
    assert_eq!(
        validate_upgrade_safety(&gov, 1, None),
        Err(UpgradeGovernanceError::InvalidUpgradeVersion)
    );
    assert_eq!(
        validate_upgrade_safety(&gov, 2, Some(2)),
        Err(UpgradeGovernanceError::IncompatibleSchemaVersion)
    );
}

#[test]
fn version_without_successor_aborts() {
    let mut gov = governed(None, 0);
    gov.contract_version = Some(u32::MAX);
    assert_eq!(check_propose_upgrade(&gov, &addr(1)), Some("attempt to add with overflow"));
    assert_eq!(check_emergency_upgrade(&gov, &addr(1)), Some("attempt to add with overflow"));
    // Whoever is refused is refused before the version is looked at.
    assert_eq!(check_propose_upgrade(&gov, &addr(2)), None);
    assert_eq!(check_emergency_upgrade(&gov, &addr(2)), None);
}

#[test]
fn timelock_holds_until_the_delay_has_elapsed() {
    let mut gov = governed(None, 3600);
    let mut env = env_at(1_000);
    assert_eq!(propose_upgrade(&mut env, &mut gov, &addr(1), &hash(7), 2, None, NAME), Ok(()));
    assert_eq!(gov.pending_upgrade_hash, Some(hash(7)));
    assert_eq!(gov.pending_upgrade_at, Some(1_000));
    assert_eq!(gov.pending_upgrade_version, Some(2));

    let mut early = env_at(4_599);
    assert!(!may_execute_upgrade(&early, &gov, &addr(1), &hash(7)));
    assert_eq!(
        execute_upgrade(&mut early, &mut gov, &addr(1), &hash(7), NAME),
        Err(UpgradeGovernanceError::UpgradeDelayNotElapsed)
    );
    assert_eq!(gov.pending_upgrade_hash, Some(hash(7)));

    let mut due = env_at(4_600);
    assert_eq!(
        execute_upgrade(&mut due, &mut gov, &addr(1), &hash(8), NAME),
        Err(UpgradeGovernanceError::NoPendingUpgrade)
    );
    assert!(may_execute_upgrade(&due, &gov, &addr(1), &hash(7)));
    let mut due = env_at(4_600);
    assert_eq!(execute_upgrade(&mut due, &mut gov, &addr(1), &hash(7), NAME), Ok(()));
    assert_eq!(gov.contract_version, Some(2));
    assert_eq!(gov.pending_upgrade_hash, None);
    assert_eq!(gov.pending_upgrade_at, None);
    assert_eq!(gov.pending_upgrade_version, None);
    assert_eq!(due.log.len(), 3);
    assert!(matches!(&due.log[0], Action::RequireAuth(a) if *a == addr(1)));
    match &due.log[1] {
        Action::Publish(event) => {
            assert!(matches!(
                &event.topics,
                Topics::Two(Value::Symbol(NAME), Value::Symbol("execute_upgrade"))
            ));
            assert!(matches!(
                &event.data,
                Data::Four(Value::Address(a), Value::Bytes(h), Value::U32(2), Value::U64(4_600))
                    if *a == addr(1) && *h == hash(7)
            ));
        }
        _ => panic!("an event was due"),
    }
    assert!(matches!(&due.log[2], Action::UpdateWasm(h) if *h == hash(7)));

    let mut again = env_at(9_999);
    assert_eq!(
        execute_upgrade(&mut again, &mut gov, &addr(1), &hash(7), NAME),
        Err(UpgradeGovernanceError::NoPendingUpgrade)
    );
}

#[test]
fn a_time_past_the_range_aborts_the_execution() {
    let mut gov = governed(None, u64::MAX);
    let mut env = env_at(1);
    assert_eq!(propose_upgrade(&mut env, &mut gov, &addr(1), &hash(7), 2, None, NAME), Ok(()));
    assert_eq!(
        check_execute_upgrade(&gov, &addr(1), &hash(7)),
        Some("attempt to add with overflow")
    );
    assert_eq!(check_execute_upgrade(&gov, &addr(1), &hash(8)), None);
    assert_eq!(check_execute_upgrade(&gov, &addr(5), &hash(7)), None);
}

#[test]
fn one_proposal_at_a_time() {
    let mut gov = governed(None, 0);
    let mut env = env_at(5);
    assert_eq!(propose_upgrade(&mut env, &mut gov, &addr(1), &hash(7), 2, None, NAME), Ok(()));
    let mut env = env_at(6);
    assert_eq!(
        propose_upgrade(&mut env, &mut gov, &addr(1), &hash(8), 2, None, NAME),
        Err(UpgradeGovernanceError::UpgradeAlreadyPending)
    );
    assert_eq!(gov.pending_upgrade_hash, Some(hash(7)));
    assert_eq!(env.log.len(), 1);
}

#[test]
fn only_the_admin_gets_through() {
    let mut gov = governed(Some(addr(2)), 0);
    let mut env = env_at(5);
    assert_eq!(
        propose_upgrade(&mut env, &mut gov, &addr(3), &hash(7), 2, None, NAME),
        Err(UpgradeGovernanceError::NotAuthorized)
    );
    assert_eq!(
        execute_upgrade(&mut env, &mut gov, &addr(3), &hash(7), NAME),
        Err(UpgradeGovernanceError::NotAuthorized)
    );
    assert_eq!(
        emergency_upgrade(&mut env, &mut gov, &addr(3), &hash(7), 2, None, NAME, true),
        Err(UpgradeGovernanceError::NotAuthorized)
    );
    assert_eq!(env.log.len(), 0);
    // Settings ask for the caller's authorisation before they refuse it.
    assert_eq!(
        set_upgrade_delay(&mut env, &mut gov, &addr(3), 1, NAME),
        Err(UpgradeGovernanceError::NotAuthorized)
    );
    assert_eq!(
        set_guardian(&mut env, &mut gov, &addr(3), None, NAME),
        Err(UpgradeGovernanceError::NotAuthorized)
    );
    assert_eq!(env.log.len(), 2);
    assert!(matches!(&env.log[0], Action::RequireAuth(a) if *a == addr(3)));
    assert_eq!(gov.guardian, Some(addr(2)));
}

#[test]
fn emergency_upgrade_asks_for_the_guardian() {
    let mut gov = governed(Some(addr(2)), 3600);
    let mut env = env_at(5);
    assert_eq!(propose_upgrade(&mut env, &mut gov, &addr(1), &hash(7), 2, None, NAME), Ok(()));
    let mut env = env_at(6);
    assert_eq!(
        emergency_upgrade(&mut env, &mut gov, &addr(1), &hash(8), 2, Some(1), NAME, true),
        Ok(())
    );
    assert_eq!(gov.contract_version, Some(2));
    assert_eq!(gov.pending_upgrade_hash, None);
    assert_eq!(env.log.len(), 4);
    assert!(matches!(&env.log[0], Action::RequireAuth(a) if *a == addr(1)));
    assert!(matches!(&env.log[1], Action::RequireAuth(a) if *a == addr(2)));
    assert!(matches!(&env.log[3], Action::UpdateWasm(h) if *h == hash(8)));
}

#[test]
fn emergency_upgrade_without_a_guardian() {
    let mut gov = governed(None, 3600);
    let mut env = env_at(5);
    assert_eq!(
        emergency_upgrade(&mut env, &mut gov, &addr(1), &hash(8), 2, None, NAME, true),
        Err(UpgradeGovernanceError::GuardianNotConfigured)
    );
    assert_eq!(gov.contract_version, Some(1));
    assert_eq!(
        emergency_upgrade(&mut env, &mut gov, &addr(1), &hash(8), 3, None, NAME, false),
        Err(UpgradeGovernanceError::InvalidUpgradeVersion)
    );
    assert_eq!(
        emergency_upgrade(&mut env, &mut gov, &addr(1), &hash(8), 2, Some(0), NAME, false),
        Err(UpgradeGovernanceError::IncompatibleSchemaVersion)
    );
    assert_eq!(
        emergency_upgrade(&mut env, &mut gov, &addr(1), &hash(8), 2, None, NAME, false),
        Ok(())
    );
    assert_eq!(gov.contract_version, Some(2));
}

#[test]
fn settings_change_what_they_name() {
    let mut gov = governed(None, 0);
    let mut env = env_at(5);
    assert_eq!(set_upgrade_delay(&mut env, &mut gov, &addr(1), 77, NAME), Ok(()));
    assert_eq!(gov.upgrade_delay, Some(77));
    assert_eq!(set_guardian(&mut env, &mut gov, &addr(1), Some(addr(4)), NAME), Ok(()));
    assert_eq!(gov.guardian, Some(addr(4)));
    assert_eq!(set_guardian(&mut env, &mut gov, &addr(1), None, NAME), Ok(()));
    assert_eq!(gov.guardian, None);
    assert_eq!(env.log.len(), 6);
    match &env.log[5] {
        Action::Publish(event) => assert!(matches!(&event.data, Data::Unit)),
        _ => panic!("an event was due"),
    }
}
