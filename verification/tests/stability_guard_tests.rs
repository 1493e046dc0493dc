use nodara::stability_guard::{Config, Error, Event, Pallet};

fn test_config() -> Config {
    Config { baseline_stability: 20, max_stability: 100, min_stability: 10 }
}

#[test]
fn test_stability_update() {
    let mut pallet = Pallet::new(test_config());
    assert!(pallet.initialize_stability().is_ok());
    let initial = pallet.stability_parameter;
    assert!(pallet.update_stability(50).is_ok());
    let updated = pallet.stability_parameter;
    // Check that the new stability parameter is greater than or equal to the
    // initial value.
    assert!(updated >= initial);
}

#[test]
fn stability_update_has_exact_smoothed_value() {
    let mut pallet = Pallet::new(test_config());
    pallet.initialize_stability().unwrap();
    assert!(pallet.update_stability(50).is_ok());
    // 20 + 50 / 10
    assert_eq!(pallet.stability_parameter, 25);
    assert_eq!(pallet.stability_history, vec![
        (1_640_000_000, 0, 20, 0),
        (1_640_000_000, 20, 25, 50),
    ]);
    assert_eq!(pallet.events, vec![Event::StabilityUpdated(20, 25, 50)]);
}

#[test]
fn stability_update_rejects_zero_volatility() {
    let mut pallet = Pallet::new(test_config());
    pallet.initialize_stability().unwrap();
    assert_eq!(pallet.update_stability(0), Err(Error::InvalidVolatility));
    assert_eq!(pallet.stability_parameter, 20);
}

#[test]
fn stability_update_rejects_out_of_bounds_result() {
    let mut pallet = Pallet::new(test_config());
    pallet.initialize_stability().unwrap();
    assert_eq!(pallet.update_stability(10_000), Err(Error::StabilityOutOfBounds));
    assert_eq!(pallet.stability_parameter, 20);
    assert_eq!(pallet.stability_history.len(), 1);
}
