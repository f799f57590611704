use shelterflex_contracts::host::{Action, Data, Env, Topics, Value};
use shelterflex_contracts::rent_schedule::{
    assert_positive_payment, instalment_remaining, InstalmentStatus, RentSchedule,
    ScheduledInstalment, WaiverReason,
};
use shelterflex_contracts::value::{Address, Bytes32};

fn addr(n: u128) -> Address {
    Address { contract: false, id: Bytes32 { hi: 0, lo: n } }
}

fn bytes(seed: u8) -> Bytes32 {
    Bytes32 { hi: u128::from_be_bytes([seed; 16]), lo: u128::from_be_bytes([seed; 16]) }
}

fn env() -> Env {
    Env::new(12_345, Address { contract: true, id: bytes(200) })
}

fn instalment(number: u32, due_timestamp: u64, amount_due: i128) -> ScheduledInstalment {
    ScheduledInstalment {
        instalment_number: number,
        due_timestamp,
        amount_due,
        amount_paid: 0,
        status: InstalmentStatus::Pending,
        paid_at: None,
        last_tx_id: None,
    }
}

fn make_instalments(count: u32) -> Vec<ScheduledInstalment> {
    let mut v = Vec::new();
    for i in 0..count {
        v.push(instalment(
            i + 1,
            (i as u64 + 1) * 30 * 24 * 3600,
            100_000i128 * (i as i128 + 1),
        ));
    }
    v
}

/// The contract behind its checks: every call fails with the message of its
/// abort.
struct Client {
    contract: RentSchedule,
    env: Env,
}

fn fail_on(abort: Option<&'static str>) {
    if let Some(message) = abort {
        panic!("{}", message);
    }
}

impl Client {
    fn init(&mut self, admin: &Address, operator: &Address) {
        fail_on(self.contract.check_init());
        self.contract.init(&mut self.env, admin, operator);
    }

    fn pause(&mut self, caller: &Address) {
        fail_on(self.contract.check_admin(caller));
        self.contract.pause(&mut self.env, caller);
    }

    fn unpause(&mut self, caller: &Address) {
        fail_on(self.contract.check_admin(caller));
        self.contract.unpause(&mut self.env, caller);
    }

    fn create_schedule(&mut self, caller: &Address, deal: &String, v: Vec<ScheduledInstalment>) {
        fail_on(self.contract.check_create_schedule(caller, deal, &v));
        self.contract.create_schedule(&mut self.env, caller, deal, v);
    }

    fn record_payment(
        &mut self,
        caller: &Address,
        deal: &String,
        number: u32,
        amount: i128,
        tx: &Bytes32,
        paid_at: u64,
    ) {
        fail_on(self.contract.check_record_payment(deal, number, amount));
        self.contract.record_payment(&mut self.env, caller, deal, number, amount, tx, paid_at);
    }

    fn mark_overdue(&mut self, caller: &Address, deal: &String, number: u32) {
        fail_on(self.contract.check_mark_overdue(caller, deal, number));
        self.contract.mark_overdue(&mut self.env, caller, deal, number);
    }

    fn waive_instalment(
        &mut self,
        caller: &Address,
        deal: &String,
        number: u32,
        reason: WaiverReason,
    ) {
        fail_on(self.contract.check_waive_instalment(caller, deal, number));
        self.contract.waive_instalment(&mut self.env, caller, deal, number, reason);
    }

    fn get_instalment(&self, deal: &String, number: u32) -> ScheduledInstalment {
        fail_on(self.contract.check_get_instalment(deal, number));
        self.contract.get_instalment(deal, number)
    }

    fn instalment_remaining(&self, deal: &String, number: u32) -> i128 {
        fail_on(self.contract.check_instalment_remaining(deal, number));
        self.contract.instalment_remaining(deal, number)
    }
}

fn setup() -> (Address, Address, Client) {
    (addr(1), addr(2), Client { contract: RentSchedule::new(), env: env() })
}

fn with_deal(deal: &str, count: u32) -> (Address, Address, Client, String) {
    let (admin, operator, mut client) = setup();
    client.init(&admin, &operator);
    let deal_id = deal.to_string();
    client.create_schedule(&admin, &deal_id, make_instalments(count));
    (admin, operator, client, deal_id)
}

#[test]
fn create_schedule_and_get() {
    let (_admin, _operator, client, deal_id) = with_deal("deal_001", 3);
    let schedule = client.contract.get_schedule(&deal_id);
    assert_eq!(schedule.len(), 3);
}

#[test]
#[should_panic(expected = "ScheduleExists")]
fn create_schedule_fails_if_duplicate() {
    let (admin, _operator, mut client, deal_id) = with_deal("deal_002", 2);
    client.create_schedule(&admin, &deal_id, make_instalments(2));
}

#[test]
fn partial_then_full_payment_transitions_to_paid() {
    let (admin, _operator, mut client, deal_id) = with_deal("deal_partial", 1);

    let tx1 = bytes(1);
    client.record_payment(&admin, &deal_id, 1u32, 40_000i128, &tx1, 1_000u64);
    let partial = client.get_instalment(&deal_id, 1u32);
    assert!(matches!(partial.status, InstalmentStatus::Pending));
    assert_eq!(partial.amount_paid, 40_000i128);
    assert_eq!(client.instalment_remaining(&deal_id, 1u32), 60_000i128);

    let tx2 = bytes(2);
    client.record_payment(&admin, &deal_id, 1u32, 60_000i128, &tx2, 2_000u64);
    let paid = client.get_instalment(&deal_id, 1u32);
    assert!(matches!(paid.status, InstalmentStatus::Paid));
    assert_eq!(paid.amount_paid, 100_000i128);
    assert_eq!(client.instalment_remaining(&deal_id, 1u32), 0i128);
}

#[test]
#[should_panic(expected = "Overpayment")]
fn overpayment_beyond_due_is_rejected() {
    let (admin, _operator, mut client, deal_id) = with_deal("deal_overpay", 1);
    let tx = bytes(3);
    client.record_payment(&admin, &deal_id, 1u32, 100_001i128, &tx, 1_000u64);
}

#[test]
fn mark_overdue_reflects_remaining_on_partial_payment() {
    let (admin, _operator, mut client, deal_id) = with_deal("deal_overdue_partial", 1);

    let tx = bytes(4);
    client.record_payment(&admin, &deal_id, 1u32, 25_000i128, &tx, 1_000u64);
    client.mark_overdue(&admin, &deal_id, 1u32);

    let inst = client.get_instalment(&deal_id, 1u32);
    assert!(matches!(inst.status, InstalmentStatus::Overdue));
    assert_eq!(client.instalment_remaining(&deal_id, 1u32), 75_000i128);
}

#[test]
#[should_panic(expected = "InvalidStatus")]
fn mark_overdue_on_paid_instalment_panics() {
    let (admin, _operator, mut client, deal_id) = with_deal("deal_004", 1);
    let tx_id = bytes(2);
    client.record_payment(&admin, &deal_id, 1u32, 100_000i128, &tx_id, 1_000_000u64);
    client.mark_overdue(&admin, &deal_id, 1u32);
}

#[test]
fn get_schedule_returns_sorted_order() {
    let (admin, operator, mut client) = setup();
    client.init(&admin, &operator);

    let deal_id = "deal_006".to_string();
    let v = vec![instalment(3, 90, 300), instalment(1, 30, 100), instalment(2, 60, 200)];
    client.create_schedule(&admin, &deal_id, v);

    let schedule = client.contract.get_schedule(&deal_id);
    assert_eq!(schedule[0].instalment_number, 1);
    assert_eq!(schedule[1].instalment_number, 2);
    assert_eq!(schedule[2].instalment_number, 3);
}

#[test]
fn waiver_persists_audit_fields() {
    let (admin, _operator, mut client, deal_id) = with_deal("deal_waiver", 1);
    client.waive_instalment(&admin, &deal_id, 1u32, WaiverReason::Hardship);

    let audit = client.contract.get_waiver(&deal_id, 1u32).unwrap();
    assert_eq!(audit.actor, admin);
    assert_eq!(audit.reason, WaiverReason::Hardship);
    assert_eq!(audit.amount_waived, 100_000i128);
    assert_eq!(audit.waived_at, client.env.timestamp());
}

#[test]
#[should_panic(expected = "InvalidStatus")]
fn record_payment_on_waived_instalment_fails() {
    let (admin, _operator, mut client, deal_id) = with_deal("deal_008", 1);
    client.waive_instalment(&admin, &deal_id, 1u32, WaiverReason::AdminAdjustment);
    let tx_id = bytes(3);
    client.record_payment(&admin, &deal_id, 1u32, 1_000i128, &tx_id, 1_000_000u64);
}

#[test]
#[should_panic(expected = "InvalidStatus")]
fn double_pay_on_paid_instalment_fails() {
    let (admin, _operator, mut client, deal_id) = with_deal("deal_double_pay", 1);
    let tx1 = bytes(5);
    client.record_payment(&admin, &deal_id, 1u32, 100_000i128, &tx1, 1_000u64);
    let tx2 = bytes(6);
    client.record_payment(&admin, &deal_id, 1u32, 1i128, &tx2, 2_000u64);
}

#[test]
#[should_panic(expected = "ContractPaused")]
fn paused_blocks_record_payment() {
    let (admin, _operator, mut client, deal_id) = with_deal("deal_009", 1);
    client.pause(&admin);
    let tx_id = bytes(4);
    client.record_payment(&admin, &deal_id, 1u32, 1_000i128, &tx_id, 1_000_000u64);
}

#[test]
#[should_panic(expected = "ContractPaused")]
fn paused_blocks_mark_overdue() {
    let (admin, _operator, mut client, deal_id) = with_deal("deal_010", 1);
    client.pause(&admin);
    client.mark_overdue(&admin, &deal_id, 1u32);
}

#[test]
fn unpause_restores_operations() {
    let (admin, _operator, mut client, deal_id) = with_deal("deal_011", 1);
    client.pause(&admin);
    client.unpause(&admin);

    let tx_id = bytes(5);
    client.record_payment(&admin, &deal_id, 1u32, 100_000i128, &tx_id, 1_000_000u64);
    let inst = client.get_instalment(&deal_id, 1u32);
    assert!(matches!(inst.status, InstalmentStatus::Paid));
}

#[test]
fn equal_numbers_keep_their_order() {
    let (admin, operator, mut client) = setup();
    client.init(&admin, &operator);
    let deal_id = "stable".to_string();
    let v = vec![
        instalment(2, 1, 10),
        instalment(1, 2, 20),
        instalment(2, 3, 30),
        instalment(1, 4, 40),
    ];
    client.create_schedule(&admin, &deal_id, v);
    let schedule = client.contract.get_schedule(&deal_id);
    let due: Vec<i128> = schedule.iter().map(|i| i.amount_due).collect();
    assert_eq!(due, vec![20, 40, 10, 30]);
    // A payment goes to the first instalment of its number.
    client.record_payment(&admin, &deal_id, 2, 10, &bytes(1), 5);
    let schedule = client.contract.get_schedule(&deal_id);
    let paid: Vec<i128> = schedule.iter().map(|i| i.amount_paid).collect();
    assert_eq!(paid, vec![0, 0, 10, 0]);
    assert_eq!(client.contract.get_schedule(&"none".to_string()).len(), 0);
}

#[test]
fn each_abort_has_its_message() {
    let (admin, operator, mut client) = setup();
    let deal = "d".to_string();
    assert_eq!(client.contract.check_record_payment(&deal, 1, 1), Some("NotInitialized"));
    assert_eq!(client.contract.check_admin(&admin), Some("NotInitialized"));
    client.init(&admin, &operator);
    assert_eq!(client.contract.check_init(), Some("AlreadyInitialized"));
    assert_eq!(client.contract.check_admin(&operator), Some("NotAuthorized"));
    assert_eq!(client.contract.check_record_payment(&deal, 1, 0), Some("InvalidAmount"));
    assert_eq!(client.contract.check_record_payment(&deal, 1, 1), Some("NoSchedule"));
    assert_eq!(
        client.contract.check_create_schedule(&addr(7), &deal, &make_instalments(1)),
        Some("NotAuthorized")
    );
    let huge = vec![instalment(1, 1, i128::MAX), instalment(2, 2, 1)];
    assert_eq!(
        client.contract.check_create_schedule(&operator, &deal, &huge),
        Some("attempt to add with overflow")
    );
    client.create_schedule(&operator, &deal, make_instalments(1));
    assert_eq!(client.contract.check_record_payment(&deal, 9, 1), Some("NotFound"));
    assert_eq!(
        client.contract.check_get_instalment(&deal, 9),
        Some("called `Option::unwrap()` on a `None` value")
    );
    assert_eq!(client.contract.check_mark_overdue(&addr(7), &deal, 1), Some("NotAuthorized"));
    assert_eq!(client.contract.check_mark_overdue(&operator, &deal, 1), None);
    assert_eq!(client.contract.check_waive_instalment(&operator, &deal, 1), Some("NotAuthorized"));
    client.waive_instalment(&admin, &deal, 1, WaiverReason::Promotional);
    assert_eq!(client.contract.check_waive_instalment(&admin, &deal, 1), Some("AlreadyWaived"));
    let odd = ScheduledInstalment { amount_paid: -1, ..instalment(1, 1, i128::MAX) };
    let other = "o".to_string();
    client.create_schedule(&admin, &other, vec![odd]);
    assert_eq!(
        client.contract.check_instalment_remaining(&other, 1),
        Some("attempt to subtract with overflow")
    );
    assert_eq!(
        client.contract.check_waive_instalment(&admin, &other, 1),
        Some("attempt to subtract with overflow")
    );
    let none = "n".to_string();
    client.create_schedule(&admin, &none, vec![instalment(1, 1, 0)]);
    assert_eq!(client.contract.check_mark_overdue(&admin, &none, 1), Some("InvalidStatus"));
    assert_eq!(assert_positive_payment(1), None);
    assert_eq!(assert_positive_payment(0), Some("InvalidAmount"));
    assert_eq!(instalment_remaining(&instalment(1, 1, 5)), 5);
}

#[test]
fn payments_are_published() {
    let (admin, _operator, mut client, deal_id) = with_deal("deal", 1);
    client.env.log.clear();
    client.record_payment(&admin, &deal_id, 1, 40_000, &bytes(1), 1);
    assert_eq!(client.env.log.len(), 2);
    assert!(matches!(&client.env.log[0], Action::RequireAuth(a) if *a == admin));
    match &client.env.log[1] {
        Action::Publish(event) => {
            match &event.topics {
                Topics::Three(
                    Value::Symbol("rent_schedule"),
                    Value::Symbol("partial_payment_recorded"),
                    Value::Text(deal),
                ) => assert_eq!(deal, "deal"),
                _ => panic!("unexpected topics"),
            }
            assert!(matches!(
                &event.data,
                Data::Five(
                    Value::U32(1),
                    Value::I128(40_000),
                    Value::I128(40_000),
                    Value::I128(60_000),
                    Value::Bytes(tx)
                ) if *tx == bytes(1)
            ));
        }
        _ => panic!("an event was due"),
    }
    client.env.log.clear();
    client.record_payment(&admin, &deal_id, 1, 60_000, &bytes(2), 9);
    let inst = client.get_instalment(&deal_id, 1);
    assert_eq!(inst.paid_at, Some(9));
    assert_eq!(inst.last_tx_id, Some(bytes(2)));
    match &client.env.log[1] {
        Action::Publish(event) => assert!(matches!(
            &event.data,
            Data::Three(Value::U32(1), Value::I128(100_000), Value::Bytes(tx)) if *tx == bytes(2)
        )),
        _ => panic!("an event was due"),
    }
}

#[test]
fn waiver_reasons_have_their_numbers() {
    assert_eq!(WaiverReason::Hardship.code(), 1);
    assert_eq!(WaiverReason::DisputeResolved.code(), 2);
    assert_eq!(WaiverReason::AdminAdjustment.code(), 3);
    assert_eq!(WaiverReason::Promotional.code(), 4);
}

#[test]
fn a_pause_stops_every_change_of_a_schedule() {
    let (admin, operator, mut client, deal) = with_deal("deal_stopped", 1);
    let other = "o".to_string();
    client.pause(&admin);
    let message = Some("ContractPaused");
    assert_eq!(client.contract.check_record_payment(&deal, 1, 1), message);
    assert_eq!(client.contract.check_mark_overdue(&operator, &deal, 1), message);
    assert_eq!(client.contract.check_waive_instalment(&admin, &deal, 1), message);
    assert_eq!(
        client.contract.check_create_schedule(&admin, &other, &make_instalments(1)),
        message
    );
    client.unpause(&admin);
    assert_eq!(client.contract.check_waive_instalment(&admin, &deal, 1), None);
    assert_eq!(client.contract.check_create_schedule(&admin, &other, &make_instalments(1)), None);
}
