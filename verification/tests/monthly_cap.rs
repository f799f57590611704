use shelterflex_contracts::host::{Action, Data, Env, Value};
use shelterflex_contracts::rent_wallet::monthly_cap::{
    current_month_key, get_monthly_cap_default, get_monthly_cap_override,
};
use shelterflex_contracts::rent_wallet::{ContractError, RentWallet};
use shelterflex_contracts::value::{Address, Bytes32};

// 30-day month in seconds
const MONTH_SECS: u64 = 2_592_000;

// The wallet takes its limit as an argument; any positive value would do here.
const MAX_AMOUNT: i128 = i128::MAX / 2;

fn addr(n: u128) -> Address {
    Address { contract: false, id: Bytes32 { hi: 0, lo: n } }
}

struct Client {
    wallet: RentWallet,
    env: Env,
}

impl Client {
    fn set_timestamp(&mut self, now: u64) {
        self.env.now = now;
    }

    fn try_debit(
        &mut self,
        admin: &Address,
        user: &Address,
        amount: i128,
    ) -> Result<(), ContractError> {
        if let Some(message) = self.wallet.check_debit(&self.env, admin, user, amount) {
            panic!("{}", message);
        }
        self.wallet.debit(&mut self.env, admin, user, amount)
    }

    fn try_credit(
        &mut self,
        admin: &Address,
        user: &Address,
        amount: i128,
    ) -> Result<(), ContractError> {
        self.wallet.credit(&mut self.env, admin, user, amount)
    }

    fn try_set_default_monthly_cap(
        &mut self,
        admin: &Address,
        cap: i128,
    ) -> Result<(), ContractError> {
        self.wallet.set_default_monthly_cap(&mut self.env, admin, cap)
    }

    fn try_set_user_monthly_cap(
        &mut self,
        admin: &Address,
        user: &Address,
        cap: i128,
    ) -> Result<(), ContractError> {
        self.wallet.set_user_monthly_cap(&mut self.env, admin, user, cap)
    }

    fn balance(&self, user: &Address) -> i128 {
        self.wallet.balance(user)
    }

    fn get_monthly_spent(&self, user: &Address) -> i128 {
        self.wallet.get_monthly_spent(&self.env, user)
    }

    fn get_monthly_cap(&self, user: &Address) -> i128 {
        self.wallet.get_monthly_cap(user)
    }
}

fn make() -> (Client, Address, Address) {
    let this = Address { contract: true, id: Bytes32 { hi: 9, lo: 9 } };
    let mut client = Client { wallet: RentWallet::new(MAX_AMOUNT), env: Env::new(0, this) };
    let admin = addr(1);
    let user = addr(2);
    client.wallet.init(&mut client.env, &admin).unwrap();
    client.set_timestamp(MONTH_SECS); // put us in month 1

    // Fund user
    client.try_credit(&admin, &user, 10_000i128).unwrap();
    (client, admin, user)
}

#[test]
fn debit_within_cap_succeeds() {
    let (mut client, admin, user) = make();
    client.try_set_default_monthly_cap(&admin, 5_000i128).unwrap();
    client.try_debit(&admin, &user, 4_000i128).expect("debit within cap must succeed");
    assert_eq!(client.balance(&user), 6_000i128);
    assert_eq!(client.get_monthly_spent(&user), 4_000i128);
}

#[test]
fn debit_exceeding_cap_fails_with_monthly_cap_exceeded() {
    let (mut client, admin, user) = make();
    client.try_set_default_monthly_cap(&admin, 1_000i128).unwrap();
    let err = client.try_debit(&admin, &user, 1_001i128).unwrap_err();
    assert_eq!(err, ContractError::MonthlyCapExceeded);
    // Balance must be unchanged after a rejected debit
    assert_eq!(client.balance(&user), 10_000i128);
}

#[test]
fn cumulative_debits_respect_cap() {
    let (mut client, admin, user) = make();
    client.try_set_default_monthly_cap(&admin, 1_500i128).unwrap();
    client.try_debit(&admin, &user, 1_000i128).unwrap();
    // 1000 spent, 500 remaining
    client.try_debit(&admin, &user, 500i128).unwrap();
    // 1500 spent: exactly at cap; next debit must fail
    let err = client.try_debit(&admin, &user, 1i128).unwrap_err();
    assert_eq!(err, ContractError::MonthlyCapExceeded);
}

#[test]
fn monthly_spend_resets_at_start_of_new_month() {
    let (mut client, admin, user) = make();
    client.try_set_default_monthly_cap(&admin, 500i128).unwrap();

    // Exhaust cap in month 1
    client.set_timestamp(MONTH_SECS);
    client.try_debit(&admin, &user, 500i128).unwrap();
    let err = client.try_debit(&admin, &user, 1i128).unwrap_err();
    assert_eq!(err, ContractError::MonthlyCapExceeded);

    // Advance to month 2: cap counter resets
    client.set_timestamp(MONTH_SECS * 2 + 1);
    client
        .try_debit(&admin, &user, 500i128)
        .expect("new month should reset the spend counter");
}

#[test]
fn monthly_spend_resets_exactly_at_period_boundary() {
    let (mut client, admin, user) = make();
    client.try_set_default_monthly_cap(&admin, 1_000i128).unwrap();

    // Last second of period 1.
    let period_1_end = MONTH_SECS * 2 - 1;
    client.set_timestamp(period_1_end);
    client.try_debit(&admin, &user, 900i128).unwrap();
    // Still period 1: 900 + 200 > 1000 must fail here.
    let err = client.try_debit(&admin, &user, 200i128).unwrap_err();
    assert_eq!(err, ContractError::MonthlyCapExceeded);

    // First instant of period 2: spend counter must have reset, so the
    // same 200 that just failed now succeeds.
    let period_2_start = MONTH_SECS * 2;
    client.set_timestamp(period_2_start);
    client
        .try_debit(&admin, &user, 200i128)
        .expect("first debit of the new period must succeed");
    assert_eq!(client.get_monthly_spent(&user), 200i128);
}

#[test]
fn property_randomized_debit_sequence_never_exceeds_monthly_cap() {
    let (mut client, admin, user) = make();
    client.try_credit(&admin, &user, 1_000_000i128).unwrap();

    let mut rng: u64 = 0xC0FFEE_u64;
    rng = rng.wrapping_mul(1_103_515_245).wrapping_add(12_345);
    let cap = 1 + (rng % 5_000) as i128;
    client.try_set_default_monthly_cap(&admin, cap).unwrap();

    let mut spent: i128 = 0;
    const OPS: u32 = 200;
    for step in 0..OPS {
        rng = rng.wrapping_mul(1_103_515_245).wrapping_add(12_345);
        let amount = ((rng % 300) + 1) as i128;

        let result = client.try_debit(&admin, &user, amount);
        if matches!(result, Ok(())) {
            spent += amount;
        } else if let Err(ContractError::MonthlyCapExceeded) = result {
            assert!(
                spent + amount > cap,
                "debit rejected at step {step} when it should have fit under the cap"
            );
        } else {
            panic!("unexpected debit result at step {step}");
        }

        assert!(spent <= cap, "cap invariant violated at step {step}");
        assert_eq!(
            client.get_monthly_spent(&user),
            spent,
            "spent counter drifted from locally tracked total at step {step}"
        );
    }
}

#[test]
fn per_user_override_cap_takes_precedence_over_default() {
    let (mut client, admin, user) = make();
    // Default cap is 500, but user has a higher override of 2_000
    client.try_set_default_monthly_cap(&admin, 500i128).unwrap();
    client.try_set_user_monthly_cap(&admin, &user, 2_000i128).unwrap();

    // 1_000 would fail against the 500 default but pass against the 2_000 override
    client
        .try_debit(&admin, &user, 1_000i128)
        .expect("per-user override should allow larger debit");
    assert_eq!(client.get_monthly_cap(&user), 2_000i128);
}

#[test]
fn per_user_override_can_restrict_below_default() {
    let (mut client, admin, user) = make();
    client.try_set_default_monthly_cap(&admin, 5_000i128).unwrap();
    // Override is smaller than the default
    client.try_set_user_monthly_cap(&admin, &user, 100i128).unwrap();
    let err = client.try_debit(&admin, &user, 101i128).unwrap_err();
    assert_eq!(err, ContractError::MonthlyCapExceeded);
}

#[test]
fn zero_default_cap_means_no_cap_enforced() {
    let (mut client, admin, user) = make();
    // No default cap was set: no enforcement
    client
        .try_debit(&admin, &user, 9_000i128)
        .expect("zero default cap must not block debits");
    assert_eq!(client.balance(&user), 1_000i128);
    assert_eq!(client.get_monthly_spent(&user), 0);

    // Setting a cap after the fact must start being enforced against
    // subsequent debits.
    client.try_set_default_monthly_cap(&admin, 500i128).unwrap();
    let err = client.try_debit(&admin, &user, 501i128).unwrap_err();
    assert_eq!(err, ContractError::MonthlyCapExceeded);
}

#[test]
fn get_monthly_spent_is_zero_before_any_debit() {
    let (client, _admin, user) = make();
    assert_eq!(client.get_monthly_spent(&user), 0i128);
}

#[test]
fn get_monthly_cap_returns_default_when_no_override_set() {
    let (mut client, admin, user) = make();
    client.try_set_default_monthly_cap(&admin, 3_000i128).unwrap();
    assert_eq!(client.get_monthly_cap(&user), 3_000i128);
}

#[test]
fn non_admin_cannot_set_default_monthly_cap() {
    let (mut client, _admin, _user) = make();
    let rogue = addr(66);
    let err = client.try_set_default_monthly_cap(&rogue, 1_000i128).unwrap_err();
    assert_eq!(err, ContractError::NotAuthorized);
}

#[test]
fn non_admin_cannot_set_user_monthly_cap() {
    let (mut client, _admin, user) = make();
    let rogue = addr(66);
    let err = client.try_set_user_monthly_cap(&rogue, &user, 1_000i128).unwrap_err();
    assert_eq!(err, ContractError::NotAuthorized);
}

#[test]
fn caps_have_bounds() {
    let (mut client, admin, user) = make();
    assert_eq!(client.try_set_default_monthly_cap(&admin, -1), Err(ContractError::InvalidAmount));
    assert_eq!(
        client.try_set_user_monthly_cap(&admin, &user, -1),
        Err(ContractError::InvalidAmount)
    );
    assert_eq!(
        client.try_set_default_monthly_cap(&admin, MAX_AMOUNT + 1),
        Err(ContractError::AmountTooLarge)
    );
    assert_eq!(
        client.try_set_user_monthly_cap(&admin, &user, MAX_AMOUNT + 1),
        Err(ContractError::AmountTooLarge)
    );
    assert_eq!(get_monthly_cap_default(&client.wallet), 0);
    assert_eq!(get_monthly_cap_override(&client.wallet, &user), None);
    client.env.log.clear();
    assert_eq!(client.try_set_user_monthly_cap(&admin, &user, 0), Ok(()));
    assert_eq!(get_monthly_cap_override(&client.wallet, &user), Some(0));
    match &client.env.log[1] {
        Action::Publish(event) => assert!(matches!(
            &event.data,
            Data::Two(Value::OptionalAddress(Some(a)), Value::I128(0)) if *a == user
        )),
        _ => panic!("an event was due"),
    }
}

#[test]
fn an_override_of_zero_lifts_the_default() {
    let (mut client, admin, user) = make();
    client.try_set_default_monthly_cap(&admin, 1).unwrap();
    client.try_set_user_monthly_cap(&admin, &user, 0).unwrap();
    assert_eq!(client.try_debit(&admin, &user, 9_000), Ok(()));
    assert_eq!(client.get_monthly_spent(&user), 0);
}

#[test]
fn failed_debits_are_not_counted() {
    let (mut client, admin, user) = make();
    client.try_set_default_monthly_cap(&admin, 20_000).unwrap();
    assert_eq!(
        client.try_debit(&admin, &user, 10_001),
        Err(ContractError::InsufficientBalance)
    );
    assert_eq!(client.get_monthly_spent(&user), 0);
    client.try_debit(&admin, &user, 10).unwrap();
    assert_eq!(client.get_monthly_spent(&user), 10);
    assert_eq!(client.get_monthly_spent(&addr(77)), 0);
}

#[test]
fn months_are_thirty_days() {
    let this = Address { contract: true, id: Bytes32 { hi: 9, lo: 9 } };
    assert_eq!(current_month_key(&Env::new(0, this)), 0);
    assert_eq!(current_month_key(&Env::new(MONTH_SECS - 1, this)), 0);
    assert_eq!(current_month_key(&Env::new(MONTH_SECS, this)), 1);
    assert_eq!(current_month_key(&Env::new(u64::MAX, this)), (u64::MAX / MONTH_SECS) as u32);
}

#[test]
fn a_counter_past_the_range_aborts() {
    let (mut client, admin, user) = make();
    client.wallet.monthly_cap_default = Some(i128::MAX);
    client.wallet.monthly_spent.set((user, 1), i128::MAX);
    assert_eq!(
        client.wallet.check_debit(&client.env, &admin, &user, 1),
        Some("attempt to add with overflow")
    );
}
