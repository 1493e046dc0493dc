use nodara::reserve_fund::{Config, Error, Event, Pallet};

fn test_config() -> Config {
    Config { baseline_reserve: 1000, max_reserve: 10_000, min_reserve: 100 }
}

#[test]
fn test_reserve_fund_operations() {
    let mut pallet = Pallet::new(test_config());
    // Initialize the reserve with the baseline value.
    assert!(pallet.initialize_reserve().is_ok());
    let baseline = pallet.reserve_balance;
    // Contribute funds.
    assert!(pallet.contribute(100, b"Test Contribution".to_vec()).is_ok());
    let increased = pallet.reserve_balance;
    assert!(increased > baseline);
    // Withdraw funds.
    assert!(pallet.withdraw(50, b"Test Withdrawal".to_vec()).is_ok());
    let decreased = pallet.reserve_balance;
    assert!(decreased < increased);
}

#[test]
fn initialize_reserve_logs_the_operation() {
    let mut pallet = Pallet::new(test_config());
    pallet.initialize_reserve().unwrap();
    assert_eq!(pallet.reserve_balance, 1000);
    assert_eq!(pallet.reserve_history.len(), 1);
    let entry = &pallet.reserve_history[0];
    assert_eq!((entry.0, entry.1, entry.2), (1_640_000_000, 0, 1000));
    assert_eq!(entry.3, b"Initialization".to_vec());
}

#[test]
fn contribute_over_maximum_fails_and_leaves_state() {
    let mut pallet = Pallet::new(test_config());
    pallet.initialize_reserve().unwrap();
    assert_eq!(pallet.contribute(9500, b"too much".to_vec()), Err(Error::ReserveOutOfBounds));
    assert_eq!(pallet.reserve_balance, 1000);
    assert_eq!(pallet.reserve_history.len(), 1);
}

#[test]
fn contribute_saturates_instead_of_wrapping() {
    let mut pallet = Pallet::new(Config {
        baseline_reserve: 1000,
        max_reserve: u32::MAX,
        min_reserve: 0,
    });
    pallet.initialize_reserve().unwrap();
    assert!(pallet.contribute(u32::MAX, b"cap".to_vec()).is_ok());
    assert_eq!(pallet.reserve_balance, u32::MAX);
}

#[test]
fn withdraw_more_than_balance_is_invalid() {
    let mut pallet = Pallet::new(test_config());
    pallet.initialize_reserve().unwrap();
    assert_eq!(pallet.withdraw(1001, b"drain".to_vec()), Err(Error::InvalidOperation));
    assert_eq!(pallet.reserve_balance, 1000);
}

#[test]
fn withdraw_below_minimum_fails() {
    let mut pallet = Pallet::new(test_config());
    pallet.initialize_reserve().unwrap();
    assert_eq!(pallet.withdraw(950, b"under".to_vec()), Err(Error::ReserveOutOfBounds));
    assert_eq!(pallet.reserve_balance, 1000);
}

#[test]
fn update_reserve_respects_bounds_and_logs_reason() {
    let mut pallet = Pallet::new(test_config());
    pallet.initialize_reserve().unwrap();
    assert_eq!(pallet.update_reserve(99, b"low".to_vec()), Err(Error::ReserveOutOfBounds));
    assert_eq!(pallet.update_reserve(10_001, b"high".to_vec()), Err(Error::ReserveOutOfBounds));
    assert!(pallet.update_reserve(2500, b"rebalance".to_vec()).is_ok());
    assert_eq!(pallet.reserve_balance, 2500);
    let entry = pallet.reserve_history.last().unwrap();
    assert_eq!((entry.1, entry.2), (1000, 2500));
    assert_eq!(entry.3, b"rebalance".to_vec());
    match pallet.events.last().unwrap() {
        Event::ReserveUpdated(previous, next, reason) => {
            assert_eq!((*previous, *next), (1000, 2500));
            assert_eq!(reason, &b"rebalance".to_vec());
        }
    }
}
