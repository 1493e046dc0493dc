use nodara::growth_model::{Config, Error, Event, Pallet};

fn test_config() -> Config {
    Config { baseline_multiplier: 200, max_multiplier: 500, min_multiplier: 50 }
}

#[test]
fn growth_initialization_sets_baseline() {
    let mut pallet = Pallet::new(test_config());
    assert!(pallet.initialize_growth().is_ok());
    assert_eq!(pallet.growth_multiplier, 200);
    assert_eq!(pallet.multiplier_history, vec![(1_640_000_000, 0, 200, 0)]);
}

#[test]
fn growth_update_follows_formula_and_emits_event() {
    let mut pallet = Pallet::new(test_config());
    pallet.initialize_growth().unwrap();
    assert!(pallet.update_multiplier(95).is_ok());
    // 200 + 95 / 10
    assert_eq!(pallet.growth_multiplier, 209);
    assert_eq!(pallet.events, vec![Event::GrowthMultiplierUpdated(200, 209, 95)]);
}

#[test]
fn growth_update_rejects_zero_signal() {
    let mut pallet = Pallet::new(test_config());
    pallet.initialize_growth().unwrap();
    assert_eq!(pallet.update_multiplier(0), Err(Error::InvalidNetworkSignal));
}

#[test]
fn growth_update_rejects_out_of_bounds_result() {
    let mut pallet = Pallet::new(test_config());
    pallet.initialize_growth().unwrap();
    assert_eq!(pallet.update_multiplier(50_000), Err(Error::MultiplierOutOfBounds));
    assert_eq!(pallet.growth_multiplier, 200);
    assert!(pallet.events.is_empty());
}

#[test]
fn growth_signal_under_smoothing_factor_keeps_value() {
    let mut pallet = Pallet::new(test_config());
    pallet.initialize_growth().unwrap();
    // 9 / 10 == 0, so the multiplier stays equal.
    assert!(pallet.update_multiplier(9).is_ok());
    assert_eq!(pallet.growth_multiplier, 200);
    assert_eq!(pallet.multiplier_history.len(), 2);
}
