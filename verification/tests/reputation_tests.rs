use nodara::reputation::{Config, Error, Event, Pallet};

fn test_config() -> Config {
    Config { default_reputation: 100, max_reputation: 1000, min_reputation: 10 }
}

#[test]
fn calculation_adds_half_the_metric_and_clamps() {
    let pallet = Pallet::new(test_config());
    assert_eq!(pallet.calculate_reputation(100, 50), Ok(125));
    // 100 + 5000 / 2 = 2600, clamped to the maximum.
    assert_eq!(pallet.calculate_reputation(100, 5000), Ok(1000));
    // 0 + 0 / 2 = 0, raised to the minimum.
    assert_eq!(pallet.calculate_reputation(0, 0), Ok(10));
}

#[test]
fn first_update_starts_from_the_default_score() {
    let mut pallet = Pallet::new(test_config());
    assert!(pallet.update_reputation(1, 50, b"activity".to_vec()).is_ok());
    let record = pallet.reputation_scores.get(1).unwrap();
    // 100 + 50 / 2
    assert_eq!(record.score, 125);
    assert_eq!(record.details, b"activity".to_vec());
    let entry = pallet.reputation_history.last().unwrap();
    assert_eq!((entry.1, entry.2, entry.3), (1, 100, 125));
    match pallet.events.last().unwrap() {
        Event::ReputationUpdated(account, previous, next, details) => {
            assert_eq!((*account, *previous, *next), (1, 100, 125));
            assert_eq!(details, &b"activity".to_vec());
        }
    }
}

#[test]
fn later_updates_build_on_the_stored_score() {
    let mut pallet = Pallet::new(test_config());
    pallet.update_reputation(1, 50, b"first".to_vec()).unwrap();
    pallet.update_reputation(1, 10, b"second".to_vec()).unwrap();
    // 125 + 10 / 2
    assert_eq!(pallet.reputation_scores.get(1).unwrap().score, 130);
    assert_eq!(pallet.reputation_history.len(), 2);
}

#[test]
fn contradictory_bounds_give_an_out_of_bounds_error() {
    let mut pallet = Pallet::new(Config {
        default_reputation: 100,
        max_reputation: 10,
        min_reputation: 500,
    });
    assert_eq!(
        pallet.update_reputation(1, 50, b"odd".to_vec()),
        Err(Error::ReputationOutOfBounds)
    );
    assert!(pallet.reputation_scores.get(1).is_none());
    assert!(pallet.reputation_history.is_empty());
}
