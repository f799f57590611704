use shelterflex_contracts::access_control::PausableError;
use shelterflex_contracts::host::{Action, Data, Env, Topics, Value};
use shelterflex_contracts::mvp_staking_pool::{
    require_positive_amount, ContractError, StakingPool, REWARD_INDEX_SCALE,
};
use shelterflex_contracts::value::{Address, Bytes32};

fn addr(n: u128) -> Address {
    Address { contract: false, id: Bytes32 { hi: 0, lo: n } }
}

fn contract_addr(n: u128) -> Address {
    Address { contract: true, id: Bytes32 { hi: 0, lo: n } }
}

fn hash(n: u128) -> Bytes32 {
    Bytes32 { hi: n, lo: n }
}

fn fail_on(abort: Option<&'static str>) {
    if let Some(message) = abort {
        panic!("{}", message);
    }
}

/// The pool behind its checks: every call fails with the message of its abort.
struct Client {
    pool: StakingPool,
    env: Env,
}

impl Client {
    fn init(&mut self, admin: &Address, token: &Address) {
        fail_on(self.pool.check_init());
        self.pool.init(&mut self.env, admin, token);
    }

    fn stake(&mut self, user: &Address, amount: i128) {
        fail_on(self.pool.check_stake(user, amount));
        self.pool.stake(&mut self.env, user, amount);
    }

    fn try_unstake(&mut self, user: &Address, amount: i128) -> Result<(), ContractError> {
        fail_on(self.pool.check_unstake(user, amount));
        self.pool.unstake(&mut self.env, user, amount)
    }

    fn unstake(&mut self, user: &Address, amount: i128) {
        self.try_unstake(user, amount).unwrap();
    }

    fn try_utilize_stake(
        &mut self,
        admin: &Address,
        user: &Address,
        amount: i128,
    ) -> Result<(), ContractError> {
        fail_on(self.pool.check_utilize_stake(admin, user, amount));
        self.pool.utilize_stake(&mut self.env, admin, user, amount)
    }

    fn fund_rewards(&mut self, from: &Address, amount: i128) {
        fail_on(self.pool.check_fund_rewards(from, amount));
        self.pool.fund_rewards(&mut self.env, from, amount);
    }

    fn claimable(&mut self, user: &Address) -> i128 {
        fail_on(self.pool.check_claimable(user));
        self.pool.claimable(user)
    }

    fn claim(&mut self, to: &Address) -> i128 {
        fail_on(self.pool.check_claim(to));
        self.pool.claim(&mut self.env, to)
    }

    fn pause(&mut self, admin: &Address) -> Result<(), PausableError> {
        fail_on(self.pool.check_admin());
        self.pool.pause(&mut self.env, admin)
    }

    fn unpause(&mut self, admin: &Address) -> Result<(), PausableError> {
        fail_on(self.pool.check_admin());
        self.pool.unpause(&mut self.env, admin)
    }
}

fn fresh() -> Client {
    Client { pool: StakingPool::new(), env: Env::new(1_000, contract_addr(100)) }
}

fn setup() -> (Client, Address, Address) {
    let mut client = fresh();
    let admin = addr(1);
    let token = contract_addr(2);
    client.init(&admin, &token);
    (client, admin, token)
}

#[test]
fn rewards_accrue_and_can_be_claimed_without_iteration() {
    let (mut client, admin, _token) = setup();
    let user_a = addr(10);
    let user_b = addr(11);

    client.stake(&user_a, 100i128);
    client.fund_rewards(&admin, 50i128);
    assert!(client.claimable(&user_a) > 0);

    client.stake(&user_b, 100i128);
    client.fund_rewards(&admin, 100i128);

    let claimable_a = client.claimable(&user_a);
    let claimable_b = client.claimable(&user_b);
    assert_eq!(claimable_a, 100i128);
    assert_eq!(claimable_b, 50i128);

    let claimed = client.claim(&user_a);
    assert_eq!(claimed, 100i128);

    let claimed_again = client.claim(&user_a);
    assert_eq!(claimed_again, 0i128);

    client.pause(&admin).unwrap();
}

#[test]
fn init_sets_admin_and_token() {
    let mut client = fresh();
    let admin = addr(1);
    let token = contract_addr(2);
    client.init(&admin, &token);
    assert_eq!(client.pool.contract_version(), 2u32);
    assert_eq!(client.pool.token, Some(token));
    // Verify admin can pause
    client.pause(&admin).unwrap();
}

#[test]
#[should_panic(expected = "already initialized")]
fn lib_init_cannot_be_called_twice() {
    let mut client = fresh();
    client.init(&addr(1), &contract_addr(2));
    client.init(&addr(1), &contract_addr(2));
}

#[test]
fn staked_balance_returns_zero_for_new_user() {
    let (client, _admin, _token) = setup();
    assert_eq!(client.pool.staked_balance(&addr(10)), 0i128);
    assert_eq!(client.pool.staked_balance(&addr(11)), 0i128);
}

#[test]
fn total_staked_returns_zero_initially() {
    let (client, _admin, _token) = setup();
    assert_eq!(client.pool.total_staked(), 0i128);
}

#[test]
fn lib_admin_can_pause_and_unpause() {
    let (mut client, admin, _token) = setup();
    client.pause(&admin).unwrap();
    assert!(client.pool.is_paused());
    client.unpause(&admin).unwrap();
    assert!(!client.pool.is_paused());
}

#[test]
#[should_panic]
fn lib_non_admin_cannot_pause() {
    let (mut client, _admin, _token) = setup();
    client.pause(&addr(99)).unwrap();
}

#[test]
#[should_panic(expected = "contract is paused")]
fn stake_fails_when_paused() {
    let (mut client, admin, _token) = setup();
    client.pause(&admin).unwrap();
    client.stake(&addr(10), 100i128);
}

#[test]
#[should_panic(expected = "contract is paused")]
fn unstake_fails_when_paused() {
    let (mut client, admin, _token) = setup();
    client.pause(&admin).unwrap();
    client.unstake(&addr(10), 50i128);
}

#[test]
#[should_panic(expected = "amount must be positive")]
fn stake_fails_with_zero_amount() {
    let (mut client, _admin, _token) = setup();
    client.stake(&addr(10), 0i128);
}

#[test]
#[should_panic(expected = "amount must be positive")]
fn stake_fails_with_negative_amount() {
    let (mut client, _admin, _token) = setup();
    client.stake(&addr(10), -10i128);
}

#[test]
#[should_panic(expected = "amount must be positive")]
fn unstake_fails_with_zero_amount() {
    let (mut client, _admin, _token) = setup();
    client.unstake(&addr(10), 0i128);
}

#[test]
#[should_panic(expected = "amount must be positive")]
fn unstake_fails_with_negative_amount() {
    let (mut client, _admin, _token) = setup();
    client.unstake(&addr(10), -10i128);
}

#[test]
fn unstake_fails_with_insufficient_unused_when_no_stake() {
    let (mut client, _admin, _token) = setup();
    let e = client.try_unstake(&addr(10), 100i128).unwrap_err();
    assert_eq!(e, ContractError::InsufficientUnusedStake);
}

#[test]
fn unstake_fails_when_unstaking_more_than_unused_without_stake() {
    let (mut client, _admin, _token) = setup();
    let e = client.try_unstake(&addr(10), 100i128).unwrap_err();
    assert_eq!(e, ContractError::InsufficientUnusedStake);
}

#[test]
fn stake_and_unstake_work_correctly() {
    let (mut client, _admin, _token) = setup();
    let user = addr(10);
    assert_eq!(client.pool.staked_balance(&user), 0i128);
    assert_eq!(client.pool.total_staked(), 0i128);

    client.stake(&user, 30);
    assert_eq!(client.pool.staked_balance(&user), 30);
    assert_eq!(client.pool.total_staked(), 30);
    client.unstake(&user, 30);
    assert_eq!(client.pool.staked_balance(&user), 0i128);
    assert_eq!(client.pool.total_staked(), 0i128);
}

#[test]
fn multiple_users_can_stake_independently() {
    let (client, _admin, _token) = setup();
    let user1 = addr(10);
    let user2 = addr(11);
    assert_eq!(client.pool.staked_balance(&user1), 0i128);
    assert_eq!(client.pool.staked_balance(&user2), 0i128);
    assert_eq!(client.pool.total_staked(), 0i128);
    assert_ne!(user1, user2);
    assert_eq!(client.pool.staked_balance(&user1), 0i128);
    assert_eq!(client.pool.staked_balance(&user2), 0i128);
}

#[test]
fn stake_emits_event_with_standardized_topic() {
    let (mut client, _admin, token) = setup();
    let user = addr(10);
    assert_eq!(client.pool.staked_balance(&user), 0i128);

    client.env.log.clear();
    client.stake(&user, 5);
    assert_eq!(client.env.log.len(), 3);
    assert!(matches!(&client.env.log[0], Action::RequireAuth(a) if *a == user));
    assert!(matches!(
        &client.env.log[1],
        Action::Transfer { token: t, from, to, amount: 5 }
            if *t == token && *from == user && *to == contract_addr(100)
    ));
    match &client.env.log[2] {
        Action::Publish(event) => {
            assert!(matches!(
                &event.topics,
                Topics::Three(
                    Value::Symbol("mvp_staking_pool"),
                    Value::Symbol("stake"),
                    Value::Address(a)
                ) if *a == user
            ));
            assert!(matches!(&event.data, Data::One(Value::I128(5))));
        }
        _ => panic!("an event was due"),
    }
}

#[test]
fn unstake_emits_event_with_standardized_topic() {
    let (mut client, _admin, token) = setup();
    let user = addr(10);
    assert_eq!(client.pool.staked_balance(&user), 0i128);

    client.stake(&user, 5);
    client.env.log.clear();
    client.unstake(&user, 2);
    assert!(matches!(
        &client.env.log[1],
        Action::Transfer { token: t, from, to, amount: 2 }
            if *t == token && *from == contract_addr(100) && *to == user
    ));
    match &client.env.log[2] {
        Action::Publish(event) => assert!(matches!(
            &event.topics,
            Topics::Three(
                    Value::Symbol("mvp_staking_pool"),
                    Value::Symbol("unstake"),
                    Value::Address(a)
                ) if *a == user
        )),
        _ => panic!("an event was due"),
    }
}

#[test]
fn existing_holder_all_unused_can_full_unstake() {
    let (mut client, _admin, _token) = setup();
    let user = addr(10);
    client.stake(&user, 500i128);
    assert_eq!(client.pool.used_stake(&user), 0i128);
    assert_eq!(client.pool.unused_stake(&user), 500i128);
    client.unstake(&user, 500i128);
    assert_eq!(client.pool.staked_balance(&user), 0i128);
    assert_eq!(client.pool.total_staked(), 0i128);
}

#[test]
fn partial_utilization_unstake_only_unused_then_remainder_locked() {
    let (mut client, admin, _token) = setup();
    let user = addr(10);
    client.stake(&user, 1_000i128);
    client.try_utilize_stake(&admin, &user, 400i128).unwrap();
    assert_eq!(client.pool.used_stake(&user), 400i128);
    assert_eq!(client.pool.unused_stake(&user), 600i128);
    client.unstake(&user, 600i128);
    assert_eq!(client.pool.staked_balance(&user), 400i128);
    assert_eq!(client.pool.used_stake(&user), 400i128);
    assert_eq!(client.pool.unused_stake(&user), 0i128);
    let e = client.try_unstake(&user, 1i128).unwrap_err();
    assert_eq!(e, ContractError::InsufficientUnusedStake);
}

#[test]
fn full_utilization_blocks_unstake() {
    let (mut client, admin, _token) = setup();
    let user = addr(10);
    client.stake(&user, 300i128);
    client.try_utilize_stake(&admin, &user, 300i128).unwrap();
    assert_eq!(client.pool.unused_stake(&user), 0i128);
    let e = client.try_unstake(&user, 1i128).unwrap_err();
    assert_eq!(e, ContractError::InsufficientUnusedStake);
}

#[test]
fn cannot_unstake_more_than_unused_even_when_total_exceeds_request() {
    let (mut client, admin, _token) = setup();
    let user = addr(10);
    client.stake(&user, 500i128);
    client.try_utilize_stake(&admin, &user, 450i128).unwrap();
    let e = client.try_unstake(&user, 100i128).unwrap_err();
    assert_eq!(e, ContractError::InsufficientUnusedStake);
}

#[test]
fn utilize_beyond_unused_returns_error() {
    let (mut client, admin, _token) = setup();
    let user = addr(10);
    client.stake(&user, 200i128);
    let e = client.try_utilize_stake(&admin, &user, 201i128).unwrap_err();
    assert_eq!(e, ContractError::UtilizationExceedsUnused);
}

#[test]
fn non_admin_cannot_utilize_stake() {
    let (mut client, _admin, _token) = setup();
    let user = addr(10);
    let not_admin = addr(12);
    client.stake(&user, 100i128);
    let e = client.try_utilize_stake(&not_admin, &user, 10i128).unwrap_err();
    assert_eq!(e, ContractError::NotAuthorized);
}

#[test]
fn rewards_still_accrue_on_total_including_used() {
    let (mut client, admin, _token) = setup();
    let user = addr(10);
    client.stake(&user, 500i128);
    client.try_utilize_stake(&admin, &user, 200i128).unwrap();
    client.fund_rewards(&admin, 500i128);
    assert_eq!(client.claimable(&user), 500i128);
}

#[test]
fn stake_after_full_utilization_adds_only_to_unused() {
    let (mut client, admin, _token) = setup();
    let user = addr(10);
    client.stake(&user, 500i128);
    client.try_utilize_stake(&admin, &user, 500i128).unwrap();
    client.stake(&user, 100i128);
    assert_eq!(client.pool.used_stake(&user), 500i128);
    assert_eq!(client.pool.staked_balance(&user), 600i128);
    assert_eq!(client.pool.unused_stake(&user), 100i128);
    client.unstake(&user, 100i128);
    assert_eq!(client.pool.used_stake(&user), 500i128);
    assert_eq!(client.pool.staked_balance(&user), 500i128);
}

#[test]
fn invariant_sole_staker_receives_all_rewards() {
    let (mut client, admin, _token) = setup();
    let user = addr(10);
    client.stake(&user, 500i128);
    client.fund_rewards(&admin, 500i128);
    assert_eq!(
        client.claimable(&user),
        500i128,
        "sole staker must receive 100% of funded rewards"
    );
}

#[test]
fn invariant_equal_stakers_receive_equal_rewards() {
    let (mut client, admin, _token) = setup();
    let user_a = addr(10);
    let user_b = addr(11);
    client.stake(&user_a, 500i128);
    client.stake(&user_b, 500i128);
    client.fund_rewards(&admin, 1_000i128);

    let reward_a = client.claimable(&user_a);
    let reward_b = client.claimable(&user_b);
    assert_eq!(reward_a, reward_b, "equal stakers must receive equal rewards");
    assert_eq!(reward_a, 500i128);
}

#[test]
fn invariant_reward_proportional_to_stake_ratio() {
    let (mut client, admin, _token) = setup();
    let user_a = addr(10);
    let user_b = addr(11);
    // user_a stakes 2x user_b
    client.stake(&user_a, 600i128);
    client.stake(&user_b, 300i128);
    client.fund_rewards(&admin, 900i128);

    let reward_a = client.claimable(&user_a);
    let reward_b = client.claimable(&user_b);
    assert_eq!(reward_a, 600i128, "2x staker must receive 2x reward");
    assert_eq!(reward_b, 300i128);
}

#[test]
fn invariant_late_staker_earns_no_pre_stake_rewards() {
    let (mut client, admin, _token) = setup();
    let early = addr(10);
    let late = addr(11);
    client.stake(&early, 1_000i128);
    client.fund_rewards(&admin, 1_000i128); // funded before late staker joins

    client.stake(&late, 1_000i128);
    client.fund_rewards(&admin, 1_000i128); // funded after both are staked

    let reward_early = client.claimable(&early);
    let reward_late = client.claimable(&late);

    // early: 1000 (sole) + 500 (split) = 1500
    // late:  0    (pre)  + 500 (split) = 500
    assert_eq!(reward_early, 1_500i128, "early staker must earn pre-join rewards");
    assert_eq!(reward_late, 500i128, "late staker must not earn pre-stake rewards");
}

#[test]
fn invariant_non_staker_claimable_is_always_zero() {
    let (mut client, admin, _token) = setup();
    let staker = addr(10);
    let bystander = addr(11);
    client.stake(&staker, 500i128);
    client.fund_rewards(&admin, 500i128);
    assert_eq!(
        client.claimable(&bystander),
        0i128,
        "non-staker must never have claimable rewards"
    );
}

#[test]
fn invariant_small_stake_accrues_nonzero_reward_when_sole_staker() {
    let (mut client, admin, _token) = setup();
    let user = addr(10);
    client.stake(&user, 1i128);
    client.fund_rewards(&admin, 1_000_000i128);
    assert_eq!(
        client.claimable(&user),
        1_000_000i128,
        "sole staker with 1-token stake must receive full reward"
    );
}

#[test]
fn invariant_large_amounts_do_not_overflow() {
    let (mut client, admin, _token) = setup();
    let user = addr(10);
    // Use 10^14: large but safely within i128 range after scaling
    let large: i128 = 100_000_000_000_000i128;
    client.stake(&user, large);
    client.fund_rewards(&admin, large);
    let reward = client.claimable(&user);
    assert_eq!(reward, large, "large-amount sole staker must receive full reward");
}

#[test]
fn invariant_claim_is_idempotent_after_first_claim() {
    let (mut client, admin, _token) = setup();
    let user = addr(10);
    client.stake(&user, 200i128);
    client.fund_rewards(&admin, 200i128);

    let first = client.claim(&user);
    assert_eq!(first, 200i128);

    let second = client.claim(&user);
    assert_eq!(second, 0i128, "second claim must return zero");
    assert_eq!(client.claimable(&user), 0i128);
}

#[test]
fn nested_calls_are_refused_while_the_lock_is_held() {
    let (mut client, admin, _token) = setup();
    let user = addr(10);
    client.stake(&user, 100);
    client.fund_rewards(&admin, 10);
    // The tokens are on their way: the first part of `unstake` is done.
    assert_eq!(client.pool.begin_unstake(&mut client.env, &user, 10), Ok(()));
    assert_eq!(client.pool.check_stake(&user, 1), Some("reentrancy detected"));
    assert_eq!(client.pool.check_claim(&user), Some("reentrancy detected"));
    assert_eq!(client.pool.check_fund_rewards(&admin, 1), Some("reentrancy detected"));
    assert_eq!(client.pool.check_unstake(&user, 1), None);
    let requests = client.env.log.len();
    assert_eq!(
        client.pool.unstake(&mut client.env, &user, 1),
        Err(ContractError::ReentrancyDetected)
    );
    assert_eq!(client.env.log.len(), requests);
    client.pool.finish_unstake(&mut client.env, &user, 10);
    assert_eq!(client.pool.staked_balance(&user), 90);
    assert_eq!(client.pool.check_stake(&user, 1), None);
}

#[test]
fn the_two_parts_make_up_the_whole() {
    let (mut client, admin, _token) = setup();
    let user = addr(10);
    client.pool.begin_stake(&mut client.env, &user, 40);
    assert_eq!(client.pool.reentrancy, Some(true));
    client.pool.finish_stake(&mut client.env, &user, 40);
    assert_eq!(client.pool.reentrancy, Some(false));
    assert_eq!(client.pool.check_fund_rewards(&admin, 20), None);
    client.pool.begin_fund_rewards(&mut client.env, &admin, 20);
    // Everything but the lock is written before the tokens move.
    assert_eq!(client.pool.global_reward_index, Some(REWARD_INDEX_SCALE / 2));
    assert_eq!(client.pool.reentrancy, Some(true));
    client.pool.finish_fund_rewards(&mut client.env, &admin, 20);
    assert_eq!(client.pool.global_reward_index, Some(REWARD_INDEX_SCALE / 2));
    assert_eq!(client.pool.reentrancy, Some(false));
    let amount = client.pool.begin_claim(&mut client.env, &user);
    assert_eq!(amount, 20);
    client.pool.finish_claim(&mut client.env, &user, amount);
    assert_eq!(client.claim(&user), 0);
}

#[test]
fn refused_unstake_credits_the_user_and_says_so() {
    let (mut client, admin, _token) = setup();
    let user = addr(10);
    client.stake(&user, 100);
    client.fund_rewards(&admin, 30);
    client.env.log.clear();
    assert_eq!(client.try_unstake(&user, 101), Err(ContractError::InsufficientUnusedStake));
    assert_eq!(client.pool.claimable_rewards.get(&user), Some(&30));
    assert_eq!(client.pool.reentrancy, Some(false));
    match &client.env.log[1] {
        Action::Publish(event) => assert!(matches!(
            &event.data,
            Data::Four(
                Value::Address(a),
                Value::I128(101),
                Value::I128(100),
                Value::Symbol("insufficient_unused")
            ) if *a == user
        )),
        _ => panic!("an event was due"),
    }
}

#[test]
fn each_abort_of_the_pool_has_its_message() {
    let client = fresh();
    let user = addr(10);
    assert_eq!(client.pool.check_admin(), Some("admin not set"));
    assert_eq!(client.pool.check_stake(&user, 1), Some("token not set"));
    assert_eq!(client.pool.check_fund_rewards(&user, 1), Some("admin not set"));
    let (mut client, admin, _token) = setup();
    assert_eq!(client.pool.check_fund_rewards(&user, 1), Some("from must be admin"));
    assert_eq!(client.pool.check_fund_rewards(&admin, 1), Some("no stakers"));
    client.stake(&user, i128::MAX);
    assert_eq!(client.pool.check_stake(&user, 1), Some("attempt to add with overflow"));
    assert_eq!(
        client.pool.check_fund_rewards(&admin, i128::MAX),
        Some("attempt to multiply with overflow")
    );
    client.fund_rewards(&admin, 170_141_183_460_469_231_731_687_303);
    assert_eq!(client.pool.check_claimable(&user), None);
    client.pool.global_reward_index = Some(2);
    assert_eq!(client.pool.check_claimable(&user), Some("attempt to multiply with overflow"));
    client.pool.user_reward_indexes.set(user, i128::MIN);
    assert_eq!(client.pool.check_claimable(&user), Some("attempt to subtract with overflow"));
    assert_eq!(require_positive_amount(0), Some("amount must be positive"));
    assert_eq!(require_positive_amount(1), None);
}

#[test]
fn upgrades_of_the_pool() {
    let (mut client, admin, _token) = setup();
    let other = addr(12);
    let env = &mut client.env;
    assert_eq!(client.pool.set_upgrade_delay(env, &other, 5), Err(ContractError::NotAuthorized));
    assert_eq!(client.pool.set_upgrade_delay(env, &admin, 5), Ok(()));
    assert_eq!(client.pool.set_guardian(env, &admin, &other), Ok(()));
    assert_eq!(client.pool.governance.guardian, Some(other));
    // Version zero never follows version two.
    assert_eq!(
        client.pool.propose_upgrade(env, &admin, &hash(1)),
        Err(ContractError::NotAuthorized)
    );
    assert_eq!(
        client.pool.emergency_upgrade(env, &admin, &hash(1)),
        Err(ContractError::NotAuthorized)
    );
    assert_eq!(
        client.pool.execute_upgrade(env, &admin, &hash(1)),
        Err(ContractError::NoUpgradePending)
    );
    assert_eq!(client.pool.cancel_upgrade(env, &admin), Err(ContractError::NoUpgradePending));
    // With a stored proposal the other answers come.
    client.pool.governance.pending_upgrade_hash = Some(hash(1));
    client.pool.governance.pending_upgrade_at = Some(1_000);
    client.pool.governance.pending_upgrade_version = Some(3);
    assert_eq!(
        client.pool.propose_upgrade(env, &admin, &hash(2)),
        Err(ContractError::UpgradeAlreadyPending)
    );
    assert_eq!(
        client.pool.execute_upgrade(env, &admin, &hash(1)),
        Err(ContractError::UpgradeDelayNotMet)
    );
    assert_eq!(client.pool.cancel_upgrade(env, &other), Err(ContractError::NotAuthorized));
    assert_eq!(client.pool.cancel_upgrade(env, &admin), Ok(()));
    assert_eq!(client.pool.governance.pending_upgrade_hash, None);
    assert_eq!(client.pool.governance.pending_upgrade_version, Some(3));
}

#[test]
fn error_codes_of_the_pool() {
    assert_eq!(ContractError::UpgradeAlreadyPending.code(), 1);
    assert_eq!(ContractError::NoUpgradePending.code(), 2);
    assert_eq!(ContractError::UpgradeDelayNotMet.code(), 3);
    assert_eq!(ContractError::NotAuthorized.code(), 4);
    assert_eq!(ContractError::InsufficientUnusedStake.code(), 5);
    assert_eq!(ContractError::UtilizationExceedsUnused.code(), 6);
    assert_eq!(ContractError::ReentrancyDetected.code(), 7);
}

#[test]
fn no_more_is_paid_than_was_funded() {
    let (mut client, admin, _token) = setup();
    let users = [addr(10), addr(11), addr(12)];
    client.stake(&users[0], 7);
    client.stake(&users[1], 11);
    client.stake(&users[2], 13);
    let mut funded = 0;
    let mut paid = 0;
    for round in 1..20i128 {
        client.fund_rewards(&admin, round * 17);
        funded += round * 17;
        let user = users[(round % 3) as usize];
        paid += client.claim(&user);
        client.stake(&user, round);
        assert!(paid <= funded);
    }
    for user in users.iter() {
        paid += client.claim(user);
    }
    assert!(paid <= funded);
    assert!(funded - paid < 60);
    let sum: i128 = users.iter().map(|u| client.pool.staked_balance(u)).sum();
    assert_eq!(sum, client.pool.total_staked());
}

#[test]
fn a_pause_stops_upgrades_of_the_pool() {
    let (mut client, admin, _token) = setup();
    client.pause(&admin).unwrap();
    let message = Some("contract is paused");
    assert_eq!(client.pool.check_setting(), message);
    assert_eq!(client.pool.check_propose_upgrade(&admin), message);
    assert_eq!(client.pool.check_execute_upgrade(&admin, &hash(1)), message);
    assert_eq!(client.pool.check_emergency_upgrade(&admin), message);
    assert_eq!(client.pool.check_cancel_upgrade(), message);
    client.unpause(&admin).unwrap();
    assert_eq!(client.pool.check_setting(), None);
    assert_eq!(client.pool.check_cancel_upgrade(), None);
    assert_eq!(fresh().pool.check_setting(), Some("Admin must be initialized"));
    assert_eq!(fresh().pool.check_cancel_upgrade(), Some("admin not set"));
}

#[test]
fn rewards_and_claims_are_published_under_the_contract() {
    let (mut client, admin, _token) = setup();
    let user = addr(10);
    client.stake(&user, 10);
    client.fund_rewards(&admin, 10);
    match client.env.log.last() {
        Some(Action::Publish(event)) => assert!(matches!(
            &event.topics,
            Topics::Three(
                Value::Symbol("mvp_staking_pool"),
                Value::Symbol("fund_rewards"),
                Value::Address(a)
            ) if *a == admin
        )),
        _ => panic!("an event was due"),
    }
    assert_eq!(client.claim(&user), 10);
    match client.env.log.last() {
        Some(Action::Publish(event)) => assert!(matches!(
            &event.topics,
            Topics::Three(
                Value::Symbol("mvp_staking_pool"),
                Value::Symbol("claim"),
                Value::Address(a)
            ) if *a == user
        )),
        _ => panic!("an event was due"),
    }
}
