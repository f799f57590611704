use shelterflex_contracts::host::{Action, Env};
use shelterflex_contracts::value::{Address, Bytes32};
use shelterflex_contracts::vesting_schedule::{
    calculate_claimable_amount, calculate_vested_amount, check_vested_amount, ContractError,
    VestingSchedule, VestingScheduleContract,
};

fn addr(n: u128) -> Address {
    Address { contract: false, id: Bytes32 { hi: 0, lo: n } }
}

fn schedule(claimed_amount: i128) -> VestingSchedule {
    VestingSchedule {
        beneficiary: addr(10),
        total_amount: 1000,
        claimed_amount,
        start_time: 1000,
        end_time: 2000,
        cliff_time: 1200,
        revocable: true,
        revoked: false,
    }
}

fn this() -> Address {
    Address { contract: true, id: Bytes32 { hi: 5, lo: 5 } }
}

/// A contract with an admin and one schedule.
fn setup() -> (VestingScheduleContract, Env) {
    let mut contract = VestingScheduleContract::new();
    let mut env = Env::new(0, this());
    assert_eq!(contract.check_initialize(), None);
    contract.initialize(&mut env, &addr(1), &addr(3));
    assert_eq!(
        contract.check_create_vesting_schedule(&addr(10), 1000, 1000, 2000, 1200),
        None
    );
    contract.create_vesting_schedule(&mut env, &addr(10), 1000, 1000, 2000, 1200, true);
    (contract, env)
}

#[test]
fn test_calculate_vested_amount() {
    let schedule = schedule(0);

    // Before cliff
    assert_eq!(calculate_vested_amount(&schedule, 1100), 0);

    // At cliff
    assert_eq!(calculate_vested_amount(&schedule, 1200), 100);

    // Halfway
    assert_eq!(calculate_vested_amount(&schedule, 1500), 500);

    // After end
    assert_eq!(calculate_vested_amount(&schedule, 2500), 1000);
}

#[test]
fn test_calculate_claimable_amount() {
    // Halfway, already claimed 200
    assert_eq!(calculate_claimable_amount(&schedule(200), 1500), 300);
}

#[test]
fn vested_amounts_along_the_line() {
    let schedule = schedule(0);

    // The jump at the cliff, and the elapsed share since the start from there on
    assert_eq!(calculate_vested_amount(&schedule, 1199), 0);
    assert_eq!(calculate_vested_amount(&schedule, 1200), 100);
    assert_eq!(calculate_vested_amount(&schedule, 1201), 201);

    // Up to the end
    assert_eq!(calculate_vested_amount(&schedule, 1999), 999);
    assert_eq!(calculate_vested_amount(&schedule, 2000), 1000);

    // A cliff at the start makes no jump, one at the end leaves no line
    let at_start = VestingSchedule { cliff_time: 1000, ..schedule };
    assert_eq!(calculate_vested_amount(&at_start, 1000), 0);
    assert_eq!(calculate_vested_amount(&at_start, 1001), 1);
    let at_end = VestingSchedule { cliff_time: 2000, ..schedule };
    assert_eq!(calculate_vested_amount(&at_end, 1999), 0);
    assert_eq!(calculate_vested_amount(&at_end, 2000), 1000);
}

#[test]
fn vested_amounts_never_go_back() {
    let schedule = VestingSchedule { total_amount: 7, ..schedule(0) };
    let mut before = 0;
    for now in 900..2100 {
        let vested = calculate_vested_amount(&schedule, now);
        assert!(before <= vested && vested <= 7);
        before = vested;
    }
}

#[test]
fn what_the_line_cannot_hold_aborts() {
    let big = VestingSchedule { total_amount: i128::MAX, ..schedule(0) };
    assert_eq!(check_vested_amount(&big, 1500), Some("attempt to multiply with overflow"));
    assert_eq!(check_vested_amount(&big, 2000), None);
    let early = VestingSchedule { cliff_time: 500, ..schedule(0) };
    assert_eq!(check_vested_amount(&early, 600), Some("attempt to subtract with overflow"));
    let backwards = VestingSchedule { end_time: 900, cliff_time: 100, ..schedule(0) };
    assert_eq!(check_vested_amount(&backwards, 200), None);
    assert_eq!(calculate_vested_amount(&backwards, 200), 0);
    assert_eq!(calculate_claimable_amount(&schedule(i128::MAX), 0), -i128::MAX);
    assert_eq!(calculate_claimable_amount(&schedule(i128::MIN), 2000), i128::MAX);
}

#[test]
fn claims_are_booked() {
    let (mut contract, mut env) = setup();
    env.log.clear();
    env.now = 1100;
    assert_eq!(contract.check_claim(&env, &addr(10)), Some("nothing to claim"));
    env.now = 1500;
    assert_eq!(contract.check_get_claimable_amount(&env, &addr(10)), None);
    assert_eq!(contract.get_claimable_amount(&env, &addr(10)), 500);
    assert_eq!(contract.check_claim(&env, &addr(10)), None);
    contract.claim(&mut env, &addr(10));
    assert_eq!(contract.get_vesting_schedule(&addr(10)).claimed_amount, 500);
    assert_eq!(contract.get_claimable_amount(&env, &addr(10)), 0);
    assert_eq!(contract.check_claim(&env, &addr(10)), Some("nothing to claim"));
    assert_eq!(env.log.len(), 1);
    assert!(matches!(&env.log[0], Action::RequireAuth(a) if *a == addr(10)));
    contract.token = None;
    env.now = 3000;
    assert_eq!(contract.check_claim(&env, &addr(10)), Some("token not set"));
}

#[test]
fn a_revoked_schedule_pays_nothing() {
    let (mut contract, mut env) = setup();
    env.now = 1500;
    assert_eq!(contract.check_revoke(&addr(11)), Some("vesting schedule not found"));
    assert_eq!(contract.check_revoke(&addr(10)), None);
    contract.revoke(&mut env, &addr(10));
    assert_eq!(contract.check_revoke(&addr(10)), Some("already revoked"));
    assert_eq!(contract.check_claim(&env, &addr(10)), Some("schedule revoked"));
    assert_eq!(contract.get_claimable_amount(&env, &addr(10)), 0);
    assert_eq!(
        contract.check_create_vesting_schedule(&addr(12), 1, 1, 2, 1),
        None
    );
    contract.create_vesting_schedule(&mut env, &addr(12), 1, 1, 2, 1, false);
    assert_eq!(contract.check_revoke(&addr(12)), Some("not revocable"));
}

#[test]
fn each_abort_of_the_schedules() {
    let fresh = VestingScheduleContract::new();
    assert_eq!(fresh.check_admin(), Some("admin not set"));
    assert_eq!(
        fresh.check_get_vesting_schedule(&addr(10)),
        Some("vesting schedule not found")
    );
    let (contract, _env) = setup();
    assert_eq!(contract.check_initialize(), Some("already initialized"));
    let create = |amount: i128, start: u64, end: u64, cliff: u64, to: u128| {
        contract.check_create_vesting_schedule(&addr(to), amount, start, end, cliff)
    };
    assert_eq!(create(0, 1, 2, 1, 11), Some("invalid amount"));
    assert_eq!(create(1, 2, 2, 2, 11), Some("invalid time parameters"));
    assert_eq!(create(1, 1, 3, 0, 11), Some("invalid cliff time"));
    assert_eq!(create(1, 1, 3, 4, 11), Some("invalid cliff time"));
    assert_eq!(create(1, 1, 3, 2, 10), Some("schedule already exists"));
    assert_eq!(create(1, 1, 3, 2, 11), None);
}

#[test]
fn the_admin_authorises_changes() {
    let (mut contract, mut env) = setup();
    assert_eq!(env.log.len(), 2);
    assert!(matches!(&env.log[1], Action::RequireAuth(a) if *a == addr(1)));
    contract.set_admin(&mut env, &addr(4));
    assert!(matches!(&env.log[2], Action::RequireAuth(a) if *a == addr(1)));
    assert_eq!(contract.admin, Some(addr(4)));
    assert_eq!(contract.contract_version, Some(1));
    contract.revoke(&mut env, &addr(10));
    assert!(matches!(&env.log[3], Action::RequireAuth(a) if *a == addr(4)));
}

#[test]
fn a_pause_stops_the_schedules() {
    let (mut contract, mut env) = setup();
    env.now = 1500;
    contract.pause(&mut env);
    assert_eq!(contract.paused, Some(true));
    let message = Some("contract is paused");
    assert_eq!(contract.check_claim(&env, &addr(10)), message);
    assert_eq!(contract.check_revoke(&addr(10)), message);
    assert_eq!(contract.check_set_admin(), message);
    assert_eq!(contract.check_create_vesting_schedule(&addr(11), 1, 1, 3, 2), message);
    // Reading and lifting the pause go on working.
    assert_eq!(contract.check_get_claimable_amount(&env, &addr(10)), None);
    assert_eq!(contract.check_admin(), None);
    contract.unpause(&mut env);
    assert_eq!(contract.paused, Some(false));
    assert_eq!(contract.check_claim(&env, &addr(10)), None);
    assert_eq!(contract.check_create_vesting_schedule(&addr(11), 1, 1, 3, 2), None);
}

#[test]
fn error_codes_of_the_schedules() {
    assert_eq!(ContractError::AlreadyInitialized.code(), 1);
    assert_eq!(ContractError::NotAuthorized.code(), 2);
    assert_eq!(ContractError::Paused.code(), 3);
    assert_eq!(ContractError::InvalidAmount.code(), 4);
    assert_eq!(ContractError::InsufficientBalance.code(), 5);
    assert_eq!(ContractError::ScheduleNotFound.code(), 6);
    assert_eq!(ContractError::ScheduleAlreadyExists.code(), 7);
    assert_eq!(ContractError::InvalidTimeParameters.code(), 8);
    assert_eq!(ContractError::InvalidCliffTime.code(), 9);
    assert_eq!(ContractError::CliffNotReached.code(), 10);
    assert_eq!(ContractError::NotRevocable.code(), 11);
    assert_eq!(ContractError::AlreadyRevoked.code(), 12);
    assert_eq!(ContractError::TokenNotSet.code(), 13);
}
