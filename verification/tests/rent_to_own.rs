use shelterflex_contracts::access_control::PausableError;
use shelterflex_contracts::host::{Action, Data, Env, Topics, Value};
use shelterflex_contracts::rent_to_own::{
    equity_split, ContractError, DealStatus, DefaultSettlementRecord, RentToOwn,
};
use shelterflex_contracts::value::{Address, Bytes32};

fn addr(n: u128) -> Address {
    Address { contract: false, id: Bytes32 { hi: 0, lo: n } }
}

fn make_deal_id(seed: u8) -> Bytes32 {
    Bytes32 { hi: u128::from_be_bytes([seed; 16]), lo: u128::from_be_bytes([seed; 16]) }
}

fn fail_on(abort: Option<&'static str>) {
    if let Some(message) = abort {
        panic!("{}", message);
    }
}

/// The deals behind their checks.
struct Client {
    deals: RentToOwn,
    env: Env,
}

impl Client {
    fn try_register_deal(
        &mut self,
        admin: &Address,
        id: &Bytes32,
        tenant: &Address,
        value: i128,
        monthly: i128,
        required: u32,
    ) -> Result<(), ContractError> {
        fail_on(self.deals.check_entry());
        self.deals.register_deal(&mut self.env, admin, id, tenant, value, monthly, required)
    }

    fn register_deal(
        &mut self,
        admin: &Address,
        id: &Bytes32,
        tenant: &Address,
        value: i128,
        monthly: i128,
        required: u32,
    ) {
        self.try_register_deal(admin, id, tenant, value, monthly, required).unwrap();
    }

    fn try_record_equity_payment(
        &mut self,
        admin: &Address,
        id: &Bytes32,
        rent: i128,
        equity: i128,
    ) -> Result<(), ContractError> {
        fail_on(self.deals.check_record_equity_payment(admin, id, rent, equity));
        self.deals.record_equity_payment(&mut self.env, admin, id, rent, equity)
    }

    fn record_equity_payment(&mut self, admin: &Address, id: &Bytes32, rent: i128, equity: i128) {
        self.try_record_equity_payment(admin, id, rent, equity).unwrap();
    }

    fn try_complete_deal(&mut self, admin: &Address, id: &Bytes32) -> Result<(), ContractError> {
        fail_on(self.deals.check_entry());
        self.deals.complete_deal(&mut self.env, admin, id)
    }

    fn complete_deal(&mut self, admin: &Address, id: &Bytes32) {
        self.try_complete_deal(admin, id).unwrap();
    }

    fn try_default_deal(
        &mut self,
        admin: &Address,
        id: &Bytes32,
        reason: &str,
    ) -> Result<(), ContractError> {
        fail_on(self.deals.check_entry());
        self.deals.default_deal(&mut self.env, admin, id, &reason.to_string())
    }

    fn default_deal(&mut self, admin: &Address, id: &Bytes32, reason: &str) {
        self.try_default_deal(admin, id, reason).unwrap();
    }

    fn try_settle_default(
        &mut self,
        admin: &Address,
        id: &Bytes32,
    ) -> Result<DefaultSettlementRecord, ContractError> {
        fail_on(self.deals.check_entry());
        self.deals.settle_default(&mut self.env, admin, id)
    }

    fn settle_default(&mut self, admin: &Address, id: &Bytes32) -> DefaultSettlementRecord {
        match self.try_settle_default(admin, id) {
            Ok(settlement) => settlement,
            Err(e) => panic!("{:?}", e),
        }
    }

    fn settle_error(&mut self, admin: &Address, id: &Bytes32) -> ContractError {
        match self.try_settle_default(admin, id) {
            Ok(_) => panic!("the settlement went through"),
            Err(e) => e,
        }
    }

    fn try_transfer_position(
        &mut self,
        admin: &Address,
        from: &Address,
        to: &Address,
        id: &Bytes32,
    ) -> Result<(), ContractError> {
        fail_on(self.deals.check_entry());
        self.deals.transfer_position(&mut self.env, admin, from, to, id)
    }

    fn transfer_position(&mut self, admin: &Address, from: &Address, to: &Address, id: &Bytes32) {
        self.try_transfer_position(admin, from, to, id).unwrap();
    }

    fn get_equity_percentage(&self, id: &Bytes32) -> u32 {
        fail_on(self.deals.check_get_equity_percentage(id));
        self.deals.get_equity_percentage(id)
    }
}

fn with_forfeiture(bps: u32) -> (Address, Client) {
    let this = Address { contract: true, id: make_deal_id(99) };
    let mut client = Client { deals: RentToOwn::new(), env: Env::new(7_000, this) };
    let admin = addr(1);
    client.deals.init(&admin, bps).unwrap();
    (admin, client)
}

fn setup() -> (Address, Client) {
    // Default: 20% forfeiture on default
    with_forfeiture(2000u32)
}

#[test]
fn full_lifecycle_register_payments_complete() {
    let (admin, mut client) = setup();
    let tenant = addr(10);
    let deal_id = make_deal_id(1);

    client.register_deal(&admin, &deal_id, &tenant, 100_000, 10_000, 10);

    for _ in 0..10 {
        client.record_equity_payment(&admin, &deal_id, 15_000, 10_000);
    }

    let deal = client.deals.get_deal(&deal_id).unwrap();
    assert_eq!(deal.payments_made, 10);
    assert_eq!(deal.equity_accumulated_usdc, 100_000);

    client.complete_deal(&admin, &deal_id);
    let deal = client.deals.get_deal(&deal_id).unwrap();
    assert!(matches!(deal.status, DealStatus::Completed));
}

#[test]
fn equity_is_monotonically_increasing() {
    let (admin, mut client) = setup();
    let tenant = addr(10);
    let deal_id = make_deal_id(2);

    client.register_deal(&admin, &deal_id, &tenant, 100_000, 10_000, 5);

    let mut prev_equity = 0i128;
    for _ in 0..5 {
        client.record_equity_payment(&admin, &deal_id, 15_000, 10_000);
        let deal = client.deals.get_deal(&deal_id).unwrap();
        assert!(deal.equity_accumulated_usdc > prev_equity);
        prev_equity = deal.equity_accumulated_usdc;
    }
}

#[test]
fn default_mid_deal() {
    let (admin, mut client) = setup();
    let tenant = addr(10);
    let deal_id = make_deal_id(3);

    client.register_deal(&admin, &deal_id, &tenant, 100_000, 10_000, 10);
    client.record_equity_payment(&admin, &deal_id, 15_000, 10_000);
    client.record_equity_payment(&admin, &deal_id, 15_000, 10_000);

    client.default_deal(&admin, &deal_id, "missed_payment");
    let deal = client.deals.get_deal(&deal_id).unwrap();
    assert!(matches!(deal.status, DealStatus::Defaulted));
    assert_eq!(deal.equity_accumulated_usdc, 20_000);
}

#[test]
fn overpayment_protection() {
    let (admin, mut client) = setup();
    let tenant = addr(10);
    let deal_id = make_deal_id(4);

    client.register_deal(&admin, &deal_id, &tenant, 10_000, 6_000, 2);
    client.record_equity_payment(&admin, &deal_id, 8_000, 6_000);

    let result = client.try_record_equity_payment(&admin, &deal_id, 8_000, 6_000);
    assert_eq!(result.unwrap_err(), ContractError::EquityOverflow);
}

#[test]
fn complete_deal_fails_if_payments_not_done() {
    let (admin, mut client) = setup();
    let tenant = addr(10);
    let deal_id = make_deal_id(5);

    client.register_deal(&admin, &deal_id, &tenant, 100_000, 10_000, 10);
    client.record_equity_payment(&admin, &deal_id, 15_000, 10_000);

    let result = client.try_complete_deal(&admin, &deal_id);
    assert_eq!(result.unwrap_err(), ContractError::PaymentsNotComplete);
}

#[test]
fn equity_percentage_correct() {
    let (admin, mut client) = setup();
    let tenant = addr(10);
    let deal_id = make_deal_id(6);

    client.register_deal(&admin, &deal_id, &tenant, 100_000, 25_000, 4);
    client.record_equity_payment(&admin, &deal_id, 30_000, 25_000);

    assert_eq!(client.get_equity_percentage(&deal_id), 2_500);
}

#[test]
fn non_admin_cannot_register_deal() {
    let (_admin, mut client) = setup();
    let attacker = addr(66);
    let tenant = addr(10);
    let deal_id = make_deal_id(7);

    let result = client.try_register_deal(&attacker, &deal_id, &tenant, 100_000, 10_000, 10);
    assert_eq!(result.unwrap_err(), ContractError::NotAuthorized);
}

#[test]
fn payment_on_completed_deal_fails() {
    let (admin, mut client) = setup();
    let tenant = addr(10);
    let deal_id = make_deal_id(8);

    client.register_deal(&admin, &deal_id, &tenant, 10_000, 10_000, 1);
    client.record_equity_payment(&admin, &deal_id, 10_000, 10_000);
    client.complete_deal(&admin, &deal_id);

    let result = client.try_record_equity_payment(&admin, &deal_id, 10_000, 10_000);
    assert_eq!(result.unwrap_err(), ContractError::DealNotActive);
}

#[test]
fn default_equity_split_correct() {
    // 30% forfeiture
    let (admin, mut client) = with_forfeiture(3000u32);
    let tenant = addr(10);
    let deal_id = make_deal_id(20);

    client.register_deal(&admin, &deal_id, &tenant, 100_000, 10_000, 10);
    // Make 4 payments: equity = 40_000
    for _ in 0..4 {
        client.record_equity_payment(&admin, &deal_id, 15_000, 10_000);
    }

    client.default_deal(&admin, &deal_id, "default");

    let settlement = client.deals.get_default_settlement(&deal_id).unwrap();
    // 40_000 * 3000 / 10_000 = 12_000 forfeited
    // 40_000 - 12_000 = 28_000 refundable
    assert_eq!(settlement.forfeited_usdc, 12_000);
    assert_eq!(settlement.refundable_usdc, 28_000);
    assert_eq!(settlement.refundable_usdc + settlement.forfeited_usdc, 40_000);
    assert!(!settlement.settled);
}

#[test]
fn double_settlement_rejected() {
    let (admin, mut client) = setup();
    let tenant = addr(10);
    let deal_id = make_deal_id(21);

    client.register_deal(&admin, &deal_id, &tenant, 100_000, 10_000, 10);
    client.record_equity_payment(&admin, &deal_id, 15_000, 10_000);

    client.default_deal(&admin, &deal_id, "default");

    // First settlement succeeds
    let s = client.settle_default(&admin, &deal_id);
    assert!(s.settled);

    // Second settlement is rejected
    let err = client.settle_error(&admin, &deal_id);
    assert_eq!(err, ContractError::AlreadySettled);
}

#[test]
fn complete_vs_default_divergence() {
    let (admin, mut client) = setup();
    let tenant = addr(10);
    let deal_id_a = make_deal_id(22);
    let deal_id_b = make_deal_id(23);

    // Deal A: completes normally, full equity to tenant, no split
    client.register_deal(&admin, &deal_id_a, &tenant, 10_000, 10_000, 1);
    client.record_equity_payment(&admin, &deal_id_a, 10_000, 10_000);
    client.complete_deal(&admin, &deal_id_a);
    let deal_a = client.deals.get_deal(&deal_id_a).unwrap();
    assert!(matches!(deal_a.status, DealStatus::Completed));
    // No settlement record for completed deal
    assert!(client.deals.get_default_settlement(&deal_id_a).is_none());

    // Deal B: defaults, equity is split
    client.register_deal(&admin, &deal_id_b, &tenant, 10_000, 10_000, 1);
    client.record_equity_payment(&admin, &deal_id_b, 10_000, 10_000);
    // Can't complete if we want to default: use a fresh deal without completing
    let deal_id_c = make_deal_id(24);
    client.register_deal(&admin, &deal_id_c, &tenant, 10_000, 2_000, 5);
    client.record_equity_payment(&admin, &deal_id_c, 5_000, 2_000);
    client.default_deal(&admin, &deal_id_c, "test");
    let deal_c = client.deals.get_deal(&deal_id_c).unwrap();
    assert!(matches!(deal_c.status, DealStatus::Defaulted));
    assert!(client.deals.get_default_settlement(&deal_id_c).is_some());
}

#[test]
fn zero_equity_default() {
    let (admin, mut client) = setup();
    let tenant = addr(10);
    let deal_id = make_deal_id(25);

    client.register_deal(&admin, &deal_id, &tenant, 100_000, 10_000, 10);
    // No payments made; equity = 0
    client.default_deal(&admin, &deal_id, "no_payments");

    let settlement = client.deals.get_default_settlement(&deal_id).unwrap();
    assert_eq!(settlement.refundable_usdc, 0);
    assert_eq!(settlement.forfeited_usdc, 0);

    // Settlement of zero-equity deal should still succeed once
    let s = client.settle_default(&admin, &deal_id);
    assert!(s.settled);
}

#[test]
fn settle_non_defaulted_deal_rejected() {
    let (admin, mut client) = setup();
    let tenant = addr(10);
    let deal_id = make_deal_id(26);

    client.register_deal(&admin, &deal_id, &tenant, 10_000, 10_000, 1);
    // Still active: settle_default must fail
    let err = client.settle_error(&admin, &deal_id);
    assert_eq!(err, ContractError::DealNotDefaulted);
}

#[test]
fn authorized_transfer_succeeds() {
    let (admin, mut client) = setup();
    let tenant = addr(10);
    let new_tenant = addr(11);
    let deal_id = make_deal_id(30);

    client.register_deal(&admin, &deal_id, &tenant, 100_000, 10_000, 10);
    client.record_equity_payment(&admin, &deal_id, 15_000, 10_000);

    let deal_before = client.deals.get_deal(&deal_id).unwrap();
    assert_eq!(deal_before.tenant, tenant);
    assert_eq!(deal_before.equity_accumulated_usdc, 10_000);

    // Transfer succeeds with admin authorization
    client.transfer_position(&admin, &tenant, &new_tenant, &deal_id);

    let deal_after = client.deals.get_deal(&deal_id).unwrap();
    assert_eq!(deal_after.tenant, new_tenant);
    // Equity is conserved exactly
    assert_eq!(deal_after.equity_accumulated_usdc, 10_000);
    assert_eq!(deal_after.payments_made, 1);
}

#[test]
fn unauthorized_transfer_rejected() {
    let (admin, mut client) = setup();
    let tenant = addr(10);
    let attacker = addr(66);
    let new_tenant = addr(11);
    let deal_id = make_deal_id(31);

    client.register_deal(&admin, &deal_id, &tenant, 100_000, 10_000, 10);

    // Attacker cannot transfer someone else's position
    let err = client
        .try_transfer_position(&admin, &attacker, &new_tenant, &deal_id)
        .unwrap_err();
    assert_eq!(err, ContractError::NotAuthorized);
}

#[test]
fn transfer_without_admin_rejected() {
    let (admin, mut client) = setup();
    let tenant = addr(10);
    let new_tenant = addr(11);
    let deal_id = make_deal_id(32);

    client.register_deal(&admin, &deal_id, &tenant, 100_000, 10_000, 10);

    // Non-admin cannot authorize transfer
    let random = addr(67);
    let err = client
        .try_transfer_position(&random, &tenant, &new_tenant, &deal_id)
        .unwrap_err();
    assert_eq!(err, ContractError::NotAuthorized);
}

#[test]
fn transfer_on_completed_deal_rejected() {
    let (admin, mut client) = setup();
    let tenant = addr(10);
    let new_tenant = addr(11);
    let deal_id = make_deal_id(33);

    client.register_deal(&admin, &deal_id, &tenant, 10_000, 10_000, 1);
    client.record_equity_payment(&admin, &deal_id, 10_000, 10_000);
    client.complete_deal(&admin, &deal_id);

    // Cannot transfer completed deal
    let err = client
        .try_transfer_position(&admin, &tenant, &new_tenant, &deal_id)
        .unwrap_err();
    assert_eq!(err, ContractError::InvalidTransfer);
}

#[test]
fn transfer_on_defaulted_deal_rejected() {
    let (admin, mut client) = setup();
    let tenant = addr(10);
    let new_tenant = addr(11);
    let deal_id = make_deal_id(34);

    client.register_deal(&admin, &deal_id, &tenant, 100_000, 10_000, 10);
    client.record_equity_payment(&admin, &deal_id, 15_000, 10_000);
    client.default_deal(&admin, &deal_id, "test");

    // Cannot transfer defaulted deal
    let err = client
        .try_transfer_position(&admin, &tenant, &new_tenant, &deal_id)
        .unwrap_err();
    assert_eq!(err, ContractError::InvalidTransfer);
}

#[test]
fn transfer_to_same_address_rejected() {
    let (admin, mut client) = setup();
    let tenant = addr(10);
    let deal_id = make_deal_id(35);

    client.register_deal(&admin, &deal_id, &tenant, 100_000, 10_000, 10);

    // Cannot transfer to self
    let err = client
        .try_transfer_position(&admin, &tenant, &tenant, &deal_id)
        .unwrap_err();
    assert_eq!(err, ContractError::InvalidTransfer);
}

#[test]
fn equity_conserved_across_transfer() {
    let (admin, mut client) = setup();
    let tenant = addr(10);
    let new_tenant = addr(11);
    let deal_id = make_deal_id(36);

    client.register_deal(&admin, &deal_id, &tenant, 100_000, 10_000, 10);

    // Build up equity
    for _ in 0..5 {
        client.record_equity_payment(&admin, &deal_id, 15_000, 10_000);
    }

    let equity_before = client.deals.get_deal(&deal_id).unwrap().equity_accumulated_usdc;
    assert_eq!(equity_before, 50_000);

    client.transfer_position(&admin, &tenant, &new_tenant, &deal_id);

    let equity_after = client.deals.get_deal(&deal_id).unwrap().equity_accumulated_usdc;
    assert_eq!(equity_after, 50_000);
    // Equity percentage should remain the same
    assert_eq!(client.get_equity_percentage(&deal_id), 5000);
}

#[test]
fn post_transfer_payments_accrue_to_new_holder() {
    let (admin, mut client) = setup();
    let tenant = addr(10);
    let new_tenant = addr(11);
    let deal_id = make_deal_id(37);

    client.register_deal(&admin, &deal_id, &tenant, 100_000, 10_000, 10);
    client.record_equity_payment(&admin, &deal_id, 15_000, 10_000);

    client.transfer_position(&admin, &tenant, &new_tenant, &deal_id);

    // New payments should accrue to new holder
    client.record_equity_payment(&admin, &deal_id, 15_000, 10_000);

    let deal = client.deals.get_deal(&deal_id).unwrap();
    assert_eq!(deal.tenant, new_tenant);
    assert_eq!(deal.equity_accumulated_usdc, 20_000);
    assert_eq!(deal.payments_made, 2);
}

#[test]
fn transfer_on_nonexistent_deal_rejected() {
    let (admin, mut client) = setup();
    let tenant = addr(10);
    let new_tenant = addr(11);
    let deal_id = make_deal_id(38);

    // Cannot transfer non-existent deal
    let err = client
        .try_transfer_position(&admin, &tenant, &new_tenant, &deal_id)
        .unwrap_err();
    assert_eq!(err, ContractError::DealNotFound);
}

#[test]
fn equity_payment_overflow_returns_amount_overflow() {
    let (admin, mut client) = setup();
    let tenant = addr(10);
    let id = make_deal_id(1);

    // Register a deal with maximum property value
    client.register_deal(&admin, &id, &tenant, i128::MAX, 10_000, 10);

    // First payment succeeds
    client.record_equity_payment(&admin, &id, 1_000, 10_000);

    // Attempting to add more than remaining capacity should return AmountOverflow
    let result = client.try_record_equity_payment(&admin, &id, i128::MAX, 10_000);
    assert_eq!(
        result.unwrap_err(),
        ContractError::AmountOverflow,
        "equity payment overflow must return AmountOverflow"
    );
}

#[test]
fn equity_percentage_overflow_handling() {
    let (admin, mut client) = setup();
    let tenant = addr(10);
    let id = make_deal_id(3);

    // Register a deal with very small property value
    client.register_deal(&admin, &id, &tenant, 1, 10_000, 10);

    // Record equity that exceeds property value should fail with EquityOverflow, not trap
    let result = client.try_record_equity_payment(&admin, &id, 100, 10_000);
    assert_eq!(
        result.unwrap_err(),
        ContractError::EquityOverflow,
        "equity exceeding property value must return EquityOverflow"
    );
}

#[test]
fn get_equity_percentage_handles_overflow() {
    let (admin, mut client) = setup();
    let tenant = addr(10);
    let id = make_deal_id(4);

    // Register a deal with zero property value (edge case)
    client.register_deal(&admin, &id, &tenant, 0, 10_000, 10);

    // get_equity_percentage should handle division by zero gracefully
    let percentage = client.get_equity_percentage(&id);
    assert_eq!(percentage, 0, "zero property value should return 0% equity");
}

#[test]
fn equity_splits() {
    assert_eq!(equity_split(50_000, 2000), Some((40_000, 10_000)));
    assert_eq!(equity_split(9_999, 1), Some((9_999, 0)));
    assert_eq!(equity_split(77, 0), Some((77, 0)));
    assert_eq!(equity_split(77, 10_000), Some((0, 77)));
    assert_eq!(equity_split(i128::MAX, 2), None);
}

#[test]
fn a_default_beyond_the_range_returns_amount_overflow() {
    let (admin, mut client) = setup();
    let id = make_deal_id(40);
    client.register_deal(&admin, &id, &addr(10), i128::MAX, 1, 1);
    client.record_equity_payment(&admin, &id, 1, i128::MAX - 1);
    assert_eq!(client.try_default_deal(&admin, &id, "late"), Err(ContractError::AmountOverflow));
    assert!(matches!(client.deals.get_deal(&id).unwrap().status, DealStatus::Active));
    assert_eq!(
        client.deals.check_get_equity_percentage(&id),
        Some("attempt to multiply with overflow")
    );
    // The sum of the equity does not fit either.
    assert_eq!(
        client.try_record_equity_payment(&admin, &id, 1, 2),
        Err(ContractError::AmountOverflow)
    );
}

#[test]
fn each_refusal_of_a_deal() {
    let (admin, mut client) = setup();
    let id = make_deal_id(41);
    assert_eq!(client.deals.init(&admin, 1), Err(ContractError::AlreadyInitialized));
    assert_eq!(RentToOwn::new().init(&admin, 10_001), Err(ContractError::InvalidAmount));
    assert_eq!(RentToOwn::new().check_entry(), Some("not init"));
    assert_eq!(
        client.try_register_deal(&admin, &id, &addr(10), -1, 1, 1),
        Err(ContractError::InvalidAmount)
    );
    assert_eq!(
        client.try_register_deal(&admin, &id, &addr(10), 1, 0, 1),
        Err(ContractError::InvalidAmount)
    );
    assert_eq!(client.try_complete_deal(&admin, &id), Err(ContractError::DealNotFound));
    client.register_deal(&admin, &id, &addr(10), 100, 1, 1);
    assert_eq!(
        client.try_register_deal(&admin, &id, &addr(10), 100, 1, 1),
        Err(ContractError::DealAlreadyExists)
    );
    assert_eq!(
        client.try_record_equity_payment(&admin, &id, 0, 1),
        Err(ContractError::InvalidAmount)
    );
    assert_eq!(
        client.try_record_equity_payment(&admin, &id, 1, 0),
        Err(ContractError::InvalidAmount)
    );
    client.default_deal(&admin, &id, "late");
    client.deals.settlements.remove(&id);
    assert_eq!(client.settle_error(&admin, &id), ContractError::SettlementNotFound);
    assert_eq!(client.settle_error(&admin, &make_deal_id(42)), ContractError::DealNotFound);
}

#[test]
fn a_payment_is_recorded_and_published() {
    let (admin, mut client) = setup();
    let id = make_deal_id(43);
    client.register_deal(&admin, &id, &addr(10), 100, 1, 1);
    client.env.log.clear();
    client.record_equity_payment(&admin, &id, 9, 4);
    let payment = client.deals.payments.get(&(id, 1)).unwrap();
    assert_eq!(payment.equity_amount, 4);
    assert_eq!(payment.total_rent_amount, 9);
    assert_eq!(payment.paid_at, 7_000);
    assert!(matches!(&client.env.log[0], Action::RequireAuth(a) if *a == admin));
    match &client.env.log[1] {
        Action::Publish(event) => {
            assert!(matches!(
                &event.topics,
                Topics::Two(
                    Value::Symbol("rent_to_own"),
                    Value::Symbol("equity_payment_recorded")
                )
            ));
            assert!(matches!(
                &event.data,
                Data::Three(Value::Bytes(b), Value::U32(1), Value::I128(4)) if *b == id
            ));
        }
        _ => panic!("an event was due"),
    }
}

#[test]
fn a_pause_stops_the_deals() {
    let (admin, mut client) = setup();
    let id = make_deal_id(44);
    client.register_deal(&admin, &id, &addr(10), 100, 1, 1);
    assert_eq!(
        client.deals.pause(&mut client.env, &addr(10)),
        Err(PausableError::NotAuthorized)
    );
    assert_eq!(client.deals.pause(&mut client.env, &admin), Ok(()));
    assert!(client.deals.is_paused());
    assert_eq!(
        client.try_record_equity_payment(&admin, &id, 1, 1),
        Err(ContractError::Paused)
    );
    assert_eq!(client.try_default_deal(&admin, &id, "late"), Err(ContractError::Paused));
    assert_eq!(client.settle_error(&admin, &id), ContractError::Paused);
    let hash = make_deal_id(45);
    let paused = Err(ContractError::Paused);
    client.env.log.clear();
    assert_eq!(client.deals.set_guardian(&mut client.env, &admin, &addr(20)), paused);
    assert_eq!(client.deals.set_upgrade_delay(&mut client.env, &admin, 5), paused);
    assert_eq!(client.deals.propose_upgrade(&mut client.env, &admin, &hash, 2), paused);
    assert_eq!(client.deals.execute_upgrade(&mut client.env, &admin, &hash), paused);
    assert_eq!(client.deals.emergency_upgrade(&mut client.env, &admin, &hash, 2), paused);
    assert_eq!(client.deals.cancel_upgrade(&mut client.env, &admin), paused);
    assert!(client.env.log.is_empty());
    assert_eq!(client.deals.governance.guardian, None);
    assert_eq!(client.deals.governance.pending_upgrade_hash, None);
    assert_eq!(client.deals.governance.contract_version, Some(1));
    assert_eq!(client.deals.check_setting(), None);
    assert_eq!(client.deals.check_propose_upgrade(&admin), None);
    assert_eq!(client.deals.check_execute_upgrade(&admin, &hash), None);
    assert_eq!(client.deals.check_emergency_upgrade(&admin), None);
    assert_eq!(RentToOwn::new().check_setting(), Some("Admin must be initialized"));
    assert_eq!(client.deals.unpause(&mut client.env, &admin), Ok(()));
    assert_eq!(client.try_record_equity_payment(&admin, &id, 1, 1), Ok(()));
}

#[test]
fn upgrades_of_the_deals() {
    let (admin, mut client) = setup();
    let hash = make_deal_id(50);
    let guardian = addr(20);
    let env = &mut client.env;
    assert_eq!(client.deals.cancel_upgrade(env, &admin), Err(ContractError::NoUpgradePending));
    assert_eq!(
        client.deals.execute_upgrade(env, &admin, &hash),
        Err(ContractError::NoUpgradePending)
    );
    assert_eq!(
        client.deals.set_upgrade_delay(env, &guardian, 5),
        Err(ContractError::NotAuthorized)
    );
    assert_eq!(client.deals.set_upgrade_delay(env, &admin, 5), Ok(()));
    assert_eq!(client.deals.set_guardian(env, &admin, &guardian), Ok(()));
    assert_eq!(client.deals.governance.guardian, Some(guardian));
    assert_eq!(client.deals.propose_upgrade(env, &admin, &hash, 2), Ok(()));
    assert_eq!(
        client.deals.propose_upgrade(env, &admin, &hash, 2),
        Err(ContractError::UpgradeAlreadyPending)
    );
    assert_eq!(
        client.deals.execute_upgrade(env, &admin, &hash),
        Err(ContractError::UpgradeDelayNotMet)
    );
    env.now = 7_005;
    assert_eq!(client.deals.execute_upgrade(env, &admin, &hash), Ok(()));
    assert_eq!(client.deals.governance.contract_version, Some(2));
}

#[test]
fn error_codes_of_the_deals() {
    assert_eq!(ContractError::AlreadyInitialized.code(), 1);
    assert_eq!(ContractError::NotAuthorized.code(), 2);
    assert_eq!(ContractError::DealNotFound.code(), 3);
    assert_eq!(ContractError::DealNotActive.code(), 4);
    assert_eq!(ContractError::PaymentsNotComplete.code(), 5);
    assert_eq!(ContractError::EquityOverflow.code(), 6);
    assert_eq!(ContractError::InvalidAmount.code(), 7);
    assert_eq!(ContractError::DealAlreadyExists.code(), 8);
    assert_eq!(ContractError::AlreadySettled.code(), 9);
    assert_eq!(ContractError::DealNotDefaulted.code(), 10);
    assert_eq!(ContractError::SettlementNotFound.code(), 11);
    assert_eq!(ContractError::InvalidTransfer.code(), 12);
    assert_eq!(ContractError::Paused.code(), 13);
    assert_eq!(ContractError::UpgradeAlreadyPending.code(), 14);
    assert_eq!(ContractError::NoUpgradePending.code(), 15);
    assert_eq!(ContractError::UpgradeDelayNotMet.code(), 16);
    assert_eq!(ContractError::AmountOverflow.code(), 17);
}
