use shelterflex_contracts::access_control::PausableError;
use shelterflex_contracts::host::{Action, Data, Env, Topics, Value};
use shelterflex_contracts::rent_wallet::validation::validate_amount;
use shelterflex_contracts::rent_wallet::{ContractError, RentWallet};
use shelterflex_contracts::value::{Address, Bytes32};

// The wallet takes its limit as an argument; any positive value would do here.
const MAX_AMOUNT: i128 = i128::MAX / 2;

fn addr(n: u128) -> Address {
    Address { contract: false, id: Bytes32 { hi: 0, lo: n } }
}

fn hash(seed: u8) -> Bytes32 {
    Bytes32 { hi: u128::from_be_bytes([seed; 16]), lo: u128::from_be_bytes([seed; 16]) }
}

fn fail_on(abort: Option<&'static str>) {
    if let Some(message) = abort {
        panic!("{}", message);
    }
}

/// The wallet behind its checks.
struct Client {
    wallet: RentWallet,
    env: Env,
}

impl Client {
    fn try_init(&mut self, admin: &Address) -> Result<(), ContractError> {
        self.wallet.init(&mut self.env, admin)
    }

    fn try_credit(
        &mut self,
        admin: &Address,
        user: &Address,
        amount: i128,
    ) -> Result<(), ContractError> {
        fail_on(self.wallet.check_admin());
        self.wallet.credit(&mut self.env, admin, user, amount)
    }

    fn try_debit(
        &mut self,
        admin: &Address,
        user: &Address,
        amount: i128,
    ) -> Result<(), ContractError> {
        fail_on(self.wallet.check_debit(&self.env, admin, user, amount));
        self.wallet.debit(&mut self.env, admin, user, amount)
    }

    fn balance(&self, user: &Address) -> i128 {
        self.wallet.balance(user)
    }

    fn try_pause(&mut self, admin: &Address) -> Result<(), PausableError> {
        fail_on(self.wallet.check_admin());
        self.wallet.pause(&mut self.env, admin)
    }

    fn try_unpause(&mut self, admin: &Address) -> Result<(), PausableError> {
        fail_on(self.wallet.check_admin());
        self.wallet.unpause(&mut self.env, admin)
    }

    fn try_propose_upgrade(
        &mut self,
        admin: &Address,
        hash: &Bytes32,
        version: u32,
    ) -> Result<(), ContractError> {
        fail_on(self.wallet.check_propose_upgrade(admin));
        self.wallet.propose_upgrade(&mut self.env, admin, hash, version)
    }

    fn try_execute_upgrade(&mut self, admin: &Address, hash: &Bytes32) -> Result<(), ContractError> {
        self.wallet.execute_upgrade(&mut self.env, admin, hash)
    }

    fn try_cancel_upgrade(&mut self, admin: &Address) -> Result<(), ContractError> {
        fail_on(self.wallet.check_admin());
        self.wallet.cancel_upgrade(&mut self.env, admin)
    }
}

fn fresh() -> Client {
    Client {
        wallet: RentWallet::new(MAX_AMOUNT),
        env: Env::new(0, Address { contract: true, id: hash(9) }),
    }
}

fn setup() -> (Client, Address, Address, Address) {
    let mut client = fresh();
    let admin = addr(1);
    client.try_init(&admin).unwrap();
    (client, admin, addr(2), addr(3))
}

#[test]
fn init_sets_admin() {
    let mut client = fresh();
    let admin = addr(1);
    client.try_init(&admin).unwrap();
    assert_eq!(client.wallet.contract_version(), 1u32);

    // Admin should be able to perform admin operations
    let user = addr(2);
    client.try_credit(&admin, &user, 100i128).unwrap();
    assert_eq!(client.balance(&user), 100i128);
}

#[test]
fn version_matches_contract_version() {
    let (client, _admin, _user, _non_admin) = setup();
    assert_eq!(client.wallet.version(), 1u32);
    assert_eq!(client.wallet.version(), client.wallet.contract_version());
}

#[test]
fn init_initializes_empty_balances() {
    let (client, _admin, user, _non_admin) = setup();
    // Balance should be zero for any user initially
    assert_eq!(client.balance(&user), 0i128);
}

#[test]
fn init_cannot_be_called_twice() {
    let mut client = fresh();
    let admin = addr(1);
    client.try_init(&admin).unwrap();
    let err = client.try_init(&admin).unwrap_err();
    assert_eq!(err, ContractError::AlreadyInitialized);
}

#[test]
fn credit_increases_balance() {
    let (mut client, admin, user, _non_admin) = setup();
    assert_eq!(client.balance(&user), 0i128);
    client.try_credit(&admin, &user, 100i128).unwrap();
    assert_eq!(client.balance(&user), 100i128);
}

#[test]
fn credit_accumulates_balance() {
    let (mut client, admin, user, _non_admin) = setup();
    client.try_credit(&admin, &user, 50i128).unwrap();
    assert_eq!(client.balance(&user), 50i128);
    client.try_credit(&admin, &user, 75i128).unwrap();
    assert_eq!(client.balance(&user), 125i128);
}

#[test]
fn credit_fails_with_zero_amount() {
    let (mut client, admin, user, _non_admin) = setup();
    let err = client.try_credit(&admin, &user, 0i128).unwrap_err();
    assert_eq!(err, ContractError::InvalidAmount);
}

#[test]
fn credit_fails_with_negative_amount() {
    let (mut client, admin, user, _non_admin) = setup();
    let err = client.try_credit(&admin, &user, -10i128).unwrap_err();
    assert_eq!(err, ContractError::InvalidAmount);
}

#[test]
fn debit_decreases_balance() {
    let (mut client, admin, user, _non_admin) = setup();
    client.try_credit(&admin, &user, 100i128).unwrap();
    assert_eq!(client.balance(&user), 100i128);
    client.try_debit(&admin, &user, 30i128).unwrap();
    assert_eq!(client.balance(&user), 70i128);
}

#[test]
fn debit_can_reduce_balance_to_zero() {
    let (mut client, admin, user, _non_admin) = setup();
    client.try_credit(&admin, &user, 50i128).unwrap();
    client.try_debit(&admin, &user, 50i128).unwrap();
    assert_eq!(client.balance(&user), 0i128);
}

#[test]
fn debit_fails_with_insufficient_balance() {
    let (mut client, admin, user, _non_admin) = setup();
    client.try_credit(&admin, &user, 50i128).unwrap();
    let err = client.try_debit(&admin, &user, 100i128).unwrap_err();
    assert_eq!(err, ContractError::InsufficientBalance);
}

#[test]
fn debit_fails_when_balance_is_zero() {
    let (mut client, admin, user, _non_admin) = setup();
    let err = client.try_debit(&admin, &user, 1i128).unwrap_err();
    assert_eq!(err, ContractError::InsufficientBalance);
}

#[test]
fn debit_fails_with_zero_amount() {
    let (mut client, admin, user, _non_admin) = setup();
    client.try_credit(&admin, &user, 100i128).unwrap();
    let err = client.try_debit(&admin, &user, 0i128).unwrap_err();
    assert_eq!(err, ContractError::InvalidAmount);
}

#[test]
fn debit_fails_with_negative_amount() {
    let (mut client, admin, user, _non_admin) = setup();
    client.try_credit(&admin, &user, 100i128).unwrap();
    let err = client.try_debit(&admin, &user, -10i128).unwrap_err();
    assert_eq!(err, ContractError::InvalidAmount);
}

#[test]
fn balance_returns_zero_for_new_user() {
    let (client, _admin, user, _non_admin) = setup();
    let new_user = addr(44);
    assert_eq!(client.balance(&user), 0i128);
    assert_eq!(client.balance(&new_user), 0i128);
}

#[test]
fn balance_reflects_credit_and_debit_operations() {
    let (mut client, admin, user, _non_admin) = setup();
    assert_eq!(client.balance(&user), 0i128);
    client.try_credit(&admin, &user, 200i128).unwrap();
    assert_eq!(client.balance(&user), 200i128);
    client.try_debit(&admin, &user, 80i128).unwrap();
    assert_eq!(client.balance(&user), 120i128);
}

#[test]
fn invariant_balance_never_negative_after_failed_debit() {
    let (mut client, admin, user, _non_admin) = setup();
    let err = client.try_debit(&admin, &user, 1i128).unwrap_err();
    assert_eq!(err, ContractError::InsufficientBalance);
    assert!(client.balance(&user) >= 0i128);
}

#[test]
fn admin_can_pause_and_unpause() {
    let (mut client, admin, _user, _non_admin) = setup();
    client.try_pause(&admin).unwrap();
    assert!(client.wallet.is_paused());
    client.try_unpause(&admin).unwrap();
    assert!(!client.wallet.is_paused());
}

#[test]
fn paused_contract_blocks_credit_and_debit() {
    let (mut client, admin, user, _non_admin) = setup();
    client.try_pause(&admin).unwrap();
    let err = client.try_credit(&admin, &user, 10i128).unwrap_err();
    assert_eq!(err, ContractError::Paused);
    let err = client.try_debit(&admin, &user, 10i128).unwrap_err();
    assert_eq!(err, ContractError::Paused);
}

#[test]
fn non_admin_cannot_pause() {
    let (mut client, _admin, _user, non_admin) = setup();
    let err = client.try_pause(&non_admin).unwrap_err();
    assert_eq!(err, PausableError::NotAuthorized);
}

#[test]
fn non_admin_cannot_unpause() {
    let (mut client, admin, _user, non_admin) = setup();
    client.try_pause(&admin).unwrap();
    let err = client.try_unpause(&non_admin).unwrap_err();
    assert_eq!(err, PausableError::NotAuthorized);
    assert!(client.wallet.is_paused());
}

#[test]
fn credit_fails_when_paused() {
    let (mut client, admin, user, _non_admin) = setup();
    client.try_pause(&admin).unwrap();
    let err = client.try_credit(&admin, &user, 10i128).unwrap_err();
    assert_eq!(err, ContractError::Paused);
}

#[test]
fn propose_upgrade_stores_pending_hash() {
    let (mut client, admin, _user, _non_admin) = setup();
    let hash = hash(0);
    client.try_propose_upgrade(&admin, &hash, 2u32).unwrap();
    assert_eq!(client.wallet.governance.pending_upgrade_hash, Some(hash));
}

#[test]
fn propose_upgrade_fails_if_already_pending() {
    let (mut client, admin, _user, _non_admin) = setup();
    let hash = hash(0);
    client.try_propose_upgrade(&admin, &hash, 2u32).unwrap();
    let err = client.try_propose_upgrade(&admin, &hash, 2u32).unwrap_err();
    assert_eq!(err, ContractError::UpgradeAlreadyPending);
}

#[test]
fn cancel_upgrade_clears_pending() {
    let (mut client, admin, _user, _non_admin) = setup();
    let hash = hash(0);
    client.try_propose_upgrade(&admin, &hash, 2u32).unwrap();
    client.try_cancel_upgrade(&admin).unwrap();
    // Can propose again after cancellation
    client.try_propose_upgrade(&admin, &hash, 2u32).unwrap();
}

#[test]
fn execute_upgrade_fails_when_delay_not_met() {
    let (mut client, admin, _user, _non_admin) = setup();
    let hash = hash(0);
    // Set a 1-hour delay
    client.wallet.set_upgrade_delay(&mut client.env, &admin, 3600u64).unwrap();
    client.try_propose_upgrade(&admin, &hash, 2u32).unwrap();
    // Execute immediately: should fail because delay not met
    let err = client.try_execute_upgrade(&admin, &hash).unwrap_err();
    assert_eq!(err, ContractError::UpgradeDelayNotMet);
}

#[test]
fn execute_upgrade_fails_with_no_pending() {
    let (mut client, admin, _user, _non_admin) = setup();
    let err = client.try_execute_upgrade(&admin, &hash(0)).unwrap_err();
    assert_eq!(err, ContractError::NoUpgradePending);
}

#[test]
fn cancel_upgrade_fails_with_no_pending() {
    let (mut client, admin, _user, _non_admin) = setup();
    let err = client.try_cancel_upgrade(&admin).unwrap_err();
    assert_eq!(err, ContractError::NoUpgradePending);
}

#[test]
fn failed_execute_upgrade_does_not_clear_pending_upgrade() {
    let (mut client, admin, _user, _non_admin) = setup();
    let hash = hash(0);
    // Propose an upgrade to version 2.
    client.try_propose_upgrade(&admin, &hash, 2u32).unwrap();

    // Break schema compatibility to force execute_upgrade to fail.
    client.wallet.governance.storage_schema_version = Some(0u32);

    let err = client.try_execute_upgrade(&admin, &hash).unwrap_err();
    assert_eq!(err, ContractError::IncompatibleStateSchema);

    // Pending proposal should still exist; re-proposing should fail.
    let err2 = client.try_propose_upgrade(&admin, &hash, 2u32).unwrap_err();
    assert_eq!(err2, ContractError::UpgradeAlreadyPending);
}

#[test]
fn credit_overflow_returns_error_without_mutating_balance() {
    let (mut client, admin, user, _non_admin) = setup();
    client.wallet.balances.set(user, i128::MAX - 1);
    let err = client.try_credit(&admin, &user, 2i128).unwrap_err();
    assert_eq!(err, ContractError::BalanceOverflow);
    assert_eq!(client.balance(&user), i128::MAX - 1);
}

#[test]
fn credit_at_max_amount_boundary_succeeds_from_zero() {
    let (mut client, admin, user, _non_admin) = setup();
    client.try_credit(&admin, &user, MAX_AMOUNT).unwrap();
    assert_eq!(client.balance(&user), MAX_AMOUNT);
    let err = client.try_credit(&admin, &user, MAX_AMOUNT + 1).unwrap_err();
    assert_eq!(err, ContractError::AmountTooLarge);
}

#[test]
fn debit_exact_balance_succeeds_and_debit_over_balance_is_rejected() {
    let (mut client, admin, user, _non_admin) = setup();
    client.try_credit(&admin, &user, 75i128).unwrap();
    client.try_debit(&admin, &user, 75i128).unwrap();
    assert_eq!(client.balance(&user), 0i128);

    let before = client.balance(&user);
    let err = client.try_debit(&admin, &user, 1i128).unwrap_err();
    assert_eq!(err, ContractError::InsufficientBalance);
    assert_eq!(client.balance(&user), before);
}

#[test]
fn rejected_credit_and_debit_leave_balance_unchanged() {
    let (mut client, admin, user, _non_admin) = setup();
    client.try_credit(&admin, &user, 40i128).unwrap();
    let before = client.balance(&user);
    assert_eq!(
        client.try_credit(&admin, &user, 0i128).unwrap_err(),
        ContractError::InvalidAmount
    );
    assert_eq!(client.balance(&user), before);
    assert_eq!(
        client.try_debit(&admin, &user, 100i128).unwrap_err(),
        ContractError::InsufficientBalance
    );
    assert_eq!(client.balance(&user), before);
}

#[test]
fn non_admin_cannot_credit_or_debit() {
    let (mut client, admin, user, non_admin) = setup();
    client.try_credit(&admin, &user, 10i128).unwrap();
    assert_eq!(
        client.try_credit(&non_admin, &user, 5i128).unwrap_err(),
        ContractError::NotAuthorized
    );
    assert_eq!(
        client.try_debit(&non_admin, &user, 1i128).unwrap_err(),
        ContractError::NotAuthorized
    );
    assert_eq!(client.balance(&user), 10i128);
}

#[test]
fn property_randomized_credit_debit_sequence_preserves_balance_invariant() {
    let (mut client, admin, user, _non_admin) = setup();

    let mut rng: u64 = 0xC0FFEE_u64;
    let mut net_applied: i128 = 0;
    const OPS: u32 = 200;

    for step in 0..OPS {
        rng = rng.wrapping_mul(1_103_515_245).wrapping_add(12_345);
        let roll = (rng % 100) as u32;
        let amount = ((rng % 50) + 1) as i128;

        if roll < 45 {
            if matches!(client.try_credit(&admin, &user, amount), Ok(())) {
                net_applied += amount;
            }
        } else {
            if matches!(client.try_debit(&admin, &user, amount), Ok(())) {
                net_applied -= amount;
            }
        }

        let balance = client.balance(&user);
        assert!(balance >= 0, "negative balance at step {}", step);
        assert_eq!(balance, net_applied, "balance drift at step {}", step);
    }
}

#[test]
fn calls_before_init_abort() {
    let client = fresh();
    assert_eq!(client.wallet.check_admin(), Some("admin not set"));
    assert_eq!(
        client.wallet.check_debit(&client.env, &addr(1), &addr(2), 1),
        Some("admin not set")
    );
    assert_eq!(client.wallet.state_schema_version(), 1);
    assert_eq!(client.wallet.contract_version(), 0);
}

#[test]
fn set_admin_hands_the_wallet_over() {
    let (mut client, admin, user, _non_admin) = setup();
    let next = addr(50);
    assert_eq!(
        client.wallet.set_admin(&mut client.env, &user, &next),
        Err(ContractError::NotAuthorized)
    );
    client.env.log.clear();
    assert_eq!(client.wallet.set_admin(&mut client.env, &admin, &next), Ok(()));
    match &client.env.log[1] {
        Action::Publish(event) => assert!(matches!(
            &event.data,
            Data::Two(Value::Address(a), Value::Address(b)) if *a == admin && *b == next
        )),
        _ => panic!("an event was due"),
    }
    assert_eq!(client.try_credit(&admin, &user, 1), Err(ContractError::NotAuthorized));
    assert_eq!(client.try_credit(&next, &user, 1), Ok(()));
}

#[test]
fn movements_are_published_with_the_user_as_topic() {
    let (mut client, admin, user, _non_admin) = setup();
    client.env.log.clear();
    client.try_credit(&admin, &user, 12).unwrap();
    assert_eq!(client.env.log.len(), 2);
    assert!(matches!(&client.env.log[0], Action::RequireAuth(a) if *a == admin));
    match &client.env.log[1] {
        Action::Publish(event) => {
            assert!(matches!(
                &event.topics,
                Topics::Three(
                    Value::Symbol("rent_wallet"),
                    Value::Symbol("credit"),
                    Value::Address(a)
                ) if *a == user
            ));
            assert!(matches!(&event.data, Data::One(Value::I128(12))));
        }
        _ => panic!("an event was due"),
    }
}

#[test]
fn upgrade_runs_through() {
    let (mut client, admin, user, _non_admin) = setup();
    let hash = hash(7);
    assert_eq!(
        client.try_propose_upgrade(&admin, &hash, 3),
        Err(ContractError::InvalidUpgradeVersion)
    );
    assert_eq!(client.try_propose_upgrade(&user, &hash, 2), Err(ContractError::NotAuthorized));
    client.wallet.set_guardian(&mut client.env, &admin, &user).unwrap();
    client.try_propose_upgrade(&admin, &hash, 2).unwrap();
    client.try_execute_upgrade(&admin, &hash).unwrap();
    assert_eq!(client.wallet.contract_version(), 2);
    assert!(matches!(client.env.log.last(), Some(Action::UpdateWasm(h)) if *h == hash));
    // The schema is now behind the version.
    assert_eq!(
        client.try_propose_upgrade(&admin, &hash, 3),
        Err(ContractError::IncompatibleStateSchema)
    );
    assert_eq!(client.wallet.check_emergency_upgrade(&admin), None);
    assert_eq!(
        client.wallet.emergency_upgrade(&mut client.env, &admin, &hash, 3),
        Err(ContractError::IncompatibleStateSchema)
    );
    client.wallet.governance.storage_schema_version = Some(2);
    assert_eq!(client.wallet.emergency_upgrade(&mut client.env, &admin, &hash, 3), Ok(()));
    assert_eq!(client.wallet.contract_version(), 3);
    client.wallet.governance.storage_schema_version = Some(3);
    client.wallet.governance.guardian = None;
    assert_eq!(
        client.wallet.emergency_upgrade(&mut client.env, &admin, &hash, 4),
        Err(ContractError::NotAuthorized)
    );
}

#[test]
fn amounts_are_validated() {
    assert_eq!(validate_amount(1, 10), Ok(()));
    assert_eq!(validate_amount(10, 10), Ok(()));
    assert_eq!(validate_amount(11, 10), Err(ContractError::AmountTooLarge));
    assert_eq!(validate_amount(0, 10), Err(ContractError::InvalidAmount));
    assert_eq!(validate_amount(-1, 10), Err(ContractError::InvalidAmount));
}

#[test]
fn error_codes_of_the_wallet() {
    assert_eq!(ContractError::AlreadyInitialized.code(), 1);
    assert_eq!(ContractError::NotAuthorized.code(), 2);
    assert_eq!(ContractError::Paused.code(), 3);
    assert_eq!(ContractError::InvalidAmount.code(), 4);
    assert_eq!(ContractError::InsufficientBalance.code(), 5);
    assert_eq!(ContractError::UpgradeAlreadyPending.code(), 6);
    assert_eq!(ContractError::NoUpgradePending.code(), 7);
    assert_eq!(ContractError::UpgradeDelayNotMet.code(), 8);
    assert_eq!(ContractError::AmountTooLarge.code(), 9);
    assert_eq!(ContractError::InvalidTimeValue.code(), 10);
    assert_eq!(ContractError::EmptyString.code(), 11);
    assert_eq!(ContractError::StringTooLong.code(), 12);
    assert_eq!(ContractError::InvalidStringChar.code(), 13);
    assert_eq!(ContractError::SameAddress.code(), 14);
    assert_eq!(ContractError::InvalidUpgradeVersion.code(), 15);
    assert_eq!(ContractError::IncompatibleStateSchema.code(), 16);
    assert_eq!(ContractError::BalanceOverflow.code(), 17);
    assert_eq!(ContractError::MonthlyCapExceeded.code(), 18);
}

#[test]
fn a_debit_takes_back_a_credit() {
    let (mut client, admin, user, other) = setup();
    client.try_credit(&admin, &other, 9).unwrap();
    client.try_credit(&admin, &user, 1_000).unwrap();
    client.try_debit(&admin, &user, 1_000).unwrap();
    assert_eq!(client.balance(&user), 0);
    assert_eq!(client.balance(&other), 9);
}

#[test]
fn a_pause_stops_every_change() {
    let (mut client, admin, user, other) = setup();
    client.try_propose_upgrade(&admin, &hash(1), 2).unwrap();
    client.try_pause(&admin).unwrap();
    client.env.log.clear();
    let env = &mut client.env;
    let wallet = &mut client.wallet;
    let paused = Err(ContractError::Paused);
    assert_eq!(wallet.set_admin(env, &admin, &user), paused);
    assert_eq!(wallet.set_admin(env, &other, &user), Err(ContractError::NotAuthorized));
    assert_eq!(wallet.set_default_monthly_cap(env, &admin, 5), paused);
    assert_eq!(wallet.set_user_monthly_cap(env, &admin, &user, 5), paused);
    assert_eq!(wallet.cancel_upgrade(env, &admin), paused);
    let asked = env.log.len();
    assert_eq!(wallet.set_guardian(env, &admin, &user), paused);
    assert_eq!(wallet.set_upgrade_delay(env, &admin, 5), paused);
    assert_eq!(wallet.propose_upgrade(env, &admin, &hash(2), 2), paused);
    assert_eq!(wallet.execute_upgrade(env, &admin, &hash(1)), paused);
    assert_eq!(wallet.emergency_upgrade(env, &admin, &hash(1), 2), paused);
    assert_eq!(env.log.len(), asked);
    assert_eq!(wallet.governance.admin, Some(admin));
    assert_eq!(wallet.governance.guardian, None);
    assert_eq!(wallet.governance.pending_upgrade_hash, Some(hash(1)));
    assert_eq!(wallet.monthly_cap_default, None);
    client.try_unpause(&admin).unwrap();
    assert_eq!(client.try_execute_upgrade(&admin, &hash(1)), Ok(()));
}

#[test]
fn a_broken_schema_goes_before_a_stranger_and_after_the_admins_own_proposal() {
    let (mut client, admin, user, _non_admin) = setup();
    client.try_propose_upgrade(&admin, &hash(1), 2).unwrap();
    client.wallet.governance.storage_schema_version = Some(0);
    assert_eq!(
        client.try_propose_upgrade(&user, &hash(1), 2),
        Err(ContractError::IncompatibleStateSchema)
    );
    assert_eq!(
        client.try_propose_upgrade(&admin, &hash(1), 2),
        Err(ContractError::UpgradeAlreadyPending)
    );
}
