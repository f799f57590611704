use shelterflex_contracts::pool_model::{ModelError, PoolModel, INDEX_SCALE};

#[test]
fn stakes_within_half_the_range_go_through() {
    let mut model = PoolModel::new();
    model.total_staked = i128::MAX / 2;
    assert_eq!(model.apply_stake(0, i128::MAX / 2), Ok(()));
    assert_eq!(model.total_staked, i128::MAX - 1);
    assert_eq!(model.apply_stake(1, 2), Err(ModelError::Overflow));
    assert_eq!(model.total_staked, i128::MAX - 1);
    assert_eq!(model.apply_stake(1, 0), Err(ModelError::InvalidAmount));
}

#[test]
fn unstaking_stops_at_the_balance() {
    let mut model = PoolModel::new();
    model.balances[0] = 10;
    model.total_staked = 10;
    assert_eq!(model.apply_unstake(0, 11), Err(ModelError::InsufficientBalance));
    assert_eq!(model.balances[0], 10);
    assert_eq!(model.apply_unstake(0, -1), Err(ModelError::InvalidAmount));
    assert_eq!(model.apply_unstake(0, 4), Ok(()));
    assert_eq!(model.balances[0], 6);
    assert_eq!(model.total_staked, 6);
}

#[test]
fn the_lock_holds_until_it_runs_out() {
    let mut model = PoolModel::new();
    model.lock_period = 10;
    model.current_time = 50;
    assert_eq!(model.apply_stake(0, 5), Ok(()));
    model.current_time = 59;
    assert_eq!(model.apply_unstake(0, 5), Err(ModelError::TokensLocked));
    assert_eq!(model.balances[0], 5);
    model.current_time = 60;
    assert_eq!(model.apply_unstake(0, 5), Ok(()));
    assert!(!model.has_stake_timestamp[0]);
    // A balance without a time of staking stays locked.
    model.balances[1] = 5;
    assert_eq!(model.apply_unstake(1, 5), Err(ModelError::TokensLocked));
}

#[test]
fn the_total_is_the_sum_of_the_balances() {
    let mut model = PoolModel::new();
    for (user, amount) in [(0usize, 7i128), (1, 11), (2, 13), (0, 5)] {
        assert_eq!(model.apply_stake(user, amount), Ok(()));
        assert_eq!(model.sum_balances(), model.total_staked);
    }
    assert_eq!(model.apply_unstake(1, 3), Ok(()));
    assert_eq!(model.sum_balances(), 33);
    assert_eq!(model.total_staked, 33);
}

#[test]
fn the_lock_is_not_taken_twice() {
    let mut model = PoolModel::new();
    assert_eq!(model.enter_nonreentrant(), Ok(()));
    assert_eq!(model.enter_nonreentrant(), Err(ModelError::ReentrancyDetected));
    assert!(model.reentrancy);
    model.exit_nonreentrant();
    assert_eq!(model.enter_nonreentrant(), Ok(()));
}

#[test]
fn an_upgrade_waits_for_its_delay() {
    let mut model = PoolModel::new();
    assert_eq!(model.can_execute_upgrade(), Err(ModelError::UpgradeDelayNotMet));
    model.pending_upgrade_at = Some(100);
    assert_eq!(model.can_execute_upgrade(), Ok(()));
    model.upgrade_delay = 20;
    model.current_time = 119;
    assert_eq!(model.can_execute_upgrade(), Err(ModelError::UpgradeDelayNotMet));
    model.current_time = 120;
    assert_eq!(model.can_execute_upgrade(), Ok(()));
}

#[test]
fn rewards_are_shared_by_stake() {
    let mut model = PoolModel::new();
    assert_eq!(model.apply_stake(0, 100), Ok(()));
    assert_eq!(model.apply_stake(1, 300), Ok(()));
    assert_eq!(model.apply_distribute(1_000), Ok(()));
    assert_eq!(model.per_share_index, INDEX_SCALE * 5 / 2);
    assert_eq!(model.apply_claim(0), Ok(250));
    assert_eq!(model.apply_claim(0), Ok(0));
    assert_eq!(model.apply_claim(1), Ok(750));
    assert_eq!(model.apply_claim(2), Ok(0));
    assert_eq!(model.pool_balance, 0);
    assert_eq!(model.total_claimed, 1_000);
    assert!(model.check_reward_conservation());
}

#[test]
fn rounding_favours_the_pool() {
    let mut model = PoolModel::new();
    for user in 0..3 {
        assert_eq!(model.apply_stake(user, 1), Ok(()));
    }
    assert_eq!(model.apply_distribute(10), Ok(()));
    for user in 0..3 {
        assert_eq!(model.apply_claim(user), Ok(3));
    }
    assert_eq!(model.pool_balance, 1);
    assert!(model.total_claimed <= model.total_distributed);
}

#[test]
fn a_reward_below_the_stake_is_still_shared() {
    let mut model = PoolModel::new();
    assert_eq!(model.apply_stake(0, 1_000), Ok(()));
    assert_eq!(model.apply_distribute(500), Ok(()));
    assert_eq!(model.apply_claim(0), Ok(500));
}

#[test]
fn who_stakes_late_gets_nothing_of_earlier_rewards() {
    let mut model = PoolModel::new();
    assert_eq!(model.apply_stake(0, 100), Ok(()));
    assert_eq!(model.apply_distribute(200), Ok(()));
    assert_eq!(model.apply_stake(1, 100), Ok(()));
    model.update_user_index_on_stake(1);
    assert_eq!(model.apply_claim(1), Ok(0));
    assert_eq!(model.apply_claim(0), Ok(200));
}

#[test]
fn distributions_and_claims_that_do_not_fit() {
    let mut model = PoolModel::new();
    assert_eq!(model.apply_distribute(-1), Err(ModelError::InvalidAmount));
    assert_eq!(model.apply_stake(0, 1), Ok(()));
    assert_eq!(model.apply_distribute(i128::MAX), Err(ModelError::Overflow));
    // The sums before the index stay written.
    assert_eq!(model.pool_balance, i128::MAX);
    assert_eq!(model.total_distributed, i128::MAX);
    assert_eq!(model.per_share_index, 0);
    assert_eq!(model.apply_distribute(1), Err(ModelError::Overflow));

    let mut model = PoolModel::new();
    assert_eq!(model.apply_stake(0, 1), Ok(()));
    model.unclaimed_rewards[0] = 5;
    model.pool_balance = i128::MIN;
    assert_eq!(model.apply_claim(0), Err(ModelError::InsufficientBalance));
    model.pool_balance = 5;
    model.total_claimed = i128::MAX;
    assert_eq!(model.apply_claim(0), Err(ModelError::Overflow));
    assert_eq!(model.pool_balance, 0);
}

#[test]
fn a_covered_pool_stays_solvent() {
    let mut model = PoolModel::new();
    model.pool_balance = 1_000;
    assert!(model.check_solvency());
    assert_eq!(model.apply_stake(0, 1_000), Ok(()));
    assert!(model.check_solvency());
    assert_eq!(model.apply_distribute(300), Ok(()));
    assert!(model.check_solvency());
    assert_eq!(model.apply_claim(0), Ok(300));
    assert!(model.check_solvency());
    assert_eq!(model.apply_stake(1, 1), Ok(()));
    assert!(!model.check_solvency());
    model.unclaimed_rewards[2] = 1;
    assert!(!model.check_reward_conservation());
}

#[test]
fn what_was_claimed_covers_nothing() {
    let mut model = PoolModel::new();
    model.total_staked = 10;
    model.total_distributed = 5;
    model.total_claimed = 5;
    model.pool_balance = 5;
    assert!(!model.check_solvency());
    model.pool_balance = 10;
    assert!(model.check_solvency());
}

#[test]
fn shares_are_exact_where_the_product_is_out_of_range() {
    let mut model = PoolModel::new();
    assert_eq!(model.apply_stake(0, 1_000), Ok(()));
    assert_eq!(model.apply_distribute(100_000_000_000_000_000_000), Ok(()));
    assert_eq!(model.apply_distribute(100_000_000_000_000_000_000), Ok(()));
    assert_eq!(model.apply_claim(0), Ok(200_000_000_000_000_000_000));
}
