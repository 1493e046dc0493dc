use nodara::reward_engine::{Config, Error, Event, Pallet};

fn test_config() -> Config {
    Config {
        initial_reward_pool: 10_000,
        base_reward: 10,
        reputation_multiplier: 1,
        min_reward: 5,
        max_reward: 1000,
    }
}

#[test]
fn test_reward_distribution() {
    let mut pallet = Pallet::new(test_config());
    assert!(pallet.initialize_rewards().is_ok());
    let initial_pool = pallet.reward_pool;
    let account = 1;
    // Distribute reward based on a reputation score.
    assert!(pallet.distribute_reward(account, 50, b"Reward Test".to_vec()).is_ok());
    let new_pool = pallet.reward_pool;
    assert!(new_pool < initial_pool);
}

#[test]
fn reward_follows_base_plus_multiplier_formula() {
    let mut pallet = Pallet::new(test_config());
    pallet.initialize_rewards().unwrap();
    assert!(pallet.distribute_reward(7, 50, b"exact".to_vec()).is_ok());
    // reward = 10 + 1 * 50; pool = 10_000 - 60
    assert_eq!(pallet.reward_pool, 9940);
    let entry = pallet.reward_history.last().unwrap();
    assert_eq!((entry.1, entry.2), (7, 60));
    match pallet.events.last().unwrap() {
        Event::RewardDistributed(account, amount, details) => {
            assert_eq!((*account, *amount), (7, 60));
            assert_eq!(details, &b"exact".to_vec());
        }
        Event::RewardPoolUpdated(..) => panic!("expected a distribution event"),
    }
}

#[test]
fn reward_is_clamped_to_the_configured_range() {
    let mut pallet = Pallet::new(test_config());
    pallet.initialize_rewards().unwrap();
    // 10 + 1 * 5000 = 5010, clamped to max_reward = 1000.
    assert!(pallet.distribute_reward(2, 5000, b"clamped".to_vec()).is_ok());
    assert_eq!(pallet.reward_pool, 9000);
    // 10 + 1 * 0 = 10 is above min_reward, so it stands.
    assert!(pallet.distribute_reward(2, 0, b"floor".to_vec()).is_ok());
    assert_eq!(pallet.reward_pool, 8990);
}

#[test]
fn distribution_fails_on_an_exhausted_pool() {
    let mut pallet = Pallet::new(Config { initial_reward_pool: 30, ..test_config() });
    pallet.initialize_rewards().unwrap();
    assert_eq!(
        pallet.distribute_reward(1, 100, b"broke".to_vec()),
        Err(Error::InsufficientRewardPool)
    );
    assert_eq!(pallet.reward_pool, 30);
    assert_eq!(pallet.reward_history.len(), 1);
}

#[test]
fn pool_update_checks_the_minimum_and_logs() {
    let mut pallet = Pallet::new(test_config());
    pallet.initialize_rewards().unwrap();
    assert_eq!(pallet.update_reward_pool(4, b"small".to_vec()), Err(Error::InvalidOperation));
    assert!(pallet.update_reward_pool(500, b"reset".to_vec()).is_ok());
    assert_eq!(pallet.reward_pool, 500);
    match pallet.events.last().unwrap() {
        Event::RewardPoolUpdated(previous, next, details) => {
            assert_eq!((*previous, *next), (10_000, 500));
            assert_eq!(details, &b"reset".to_vec());
        }
        _ => panic!("expected a pool update event"),
    }
}
