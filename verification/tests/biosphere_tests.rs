use nodara::biosphere::{Config, Error, Event, Pallet};

fn test_config() -> Config {
    Config { baseline_multiplier: 100, max_multiplier: 1000, min_multiplier: 10 }
}

#[test]
fn test_initialize_state() {
    let mut pallet = Pallet::new(test_config());
    assert!(pallet.initialize_growth().is_ok());
    let multiplier = pallet.growth_multiplier;
    // Expect the multiplier to equal the baseline value.
    assert_eq!(multiplier, test_config().baseline_multiplier);
}

#[test]
fn initialize_logs_baseline_transition() {
    let mut pallet = Pallet::new(test_config());
    pallet.initialize_growth().unwrap();
    assert_eq!(pallet.multiplier_history.len(), 1);
    assert_eq!(pallet.multiplier_history[0], (1_640_000_000, 0, 100, 0));
    assert!(pallet.events.is_empty());
}

#[test]
fn update_with_zero_signal_fails() {
    let mut pallet = Pallet::new(test_config());
    pallet.initialize_growth().unwrap();
    assert_eq!(pallet.update_multiplier(0), Err(Error::InvalidNetworkSignal));
    assert_eq!(pallet.growth_multiplier, 100);
    assert_eq!(pallet.multiplier_history.len(), 1);
}

#[test]
fn update_applies_smoothing_formula() {
    let mut pallet = Pallet::new(test_config());
    pallet.initialize_growth().unwrap();
    assert!(pallet.update_multiplier(50).is_ok());
    // 100 + 50 / 10
    assert_eq!(pallet.growth_multiplier, 105);
    assert_eq!(pallet.multiplier_history.len(), 2);
    assert_eq!(pallet.multiplier_history[1], (1_640_000_000, 100, 105, 50));
    assert_eq!(pallet.events, vec![Event::GrowthMultiplierUpdated(100, 105, 50)]);
}

#[test]
fn update_out_of_bounds_fails_and_leaves_state() {
    let mut pallet = Pallet::new(test_config());
    pallet.initialize_growth().unwrap();
    // 100 + 100_000 / 10 = 10_100 > 1000
    assert_eq!(pallet.update_multiplier(100_000), Err(Error::MultiplierOutOfBounds));
    assert_eq!(pallet.growth_multiplier, 100);
    assert_eq!(pallet.multiplier_history.len(), 1);
    assert!(pallet.events.is_empty());
}

#[test]
fn update_below_minimum_fails_before_initialization() {
    let mut pallet = Pallet::new(test_config());
    // Without initialization the multiplier is 0, and 0 + 50 / 10 = 5 < 10.
    assert_eq!(pallet.update_multiplier(50), Err(Error::MultiplierOutOfBounds));
    assert_eq!(pallet.growth_multiplier, 0);
}

#[test]
fn update_saturates_at_the_top_of_u32() {
    let mut pallet = Pallet::new(Config {
        baseline_multiplier: u32::MAX - 1,
        max_multiplier: u32::MAX,
        min_multiplier: 0,
    });
    pallet.initialize_growth().unwrap();
    assert!(pallet.update_multiplier(u32::MAX).is_ok());
    assert_eq!(pallet.growth_multiplier, u32::MAX);
}

#[test]
fn successful_updates_never_decrease_the_multiplier() {
    let mut pallet = Pallet::new(test_config());
    pallet.initialize_growth().unwrap();
    let mut previous = pallet.growth_multiplier;
    for signal in [1, 9, 10, 55, 123, 7] {
        if pallet.update_multiplier(signal).is_ok() {
            assert!(pallet.growth_multiplier >= previous);
            previous = pallet.growth_multiplier;
        }
    }
}
