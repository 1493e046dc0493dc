//! Stability management: a stability parameter tracking measured network
//! volatility, updated through the bounded smoothed protocol.

use vstd::prelude::*;

use crate::arith;
use crate::FIXED_TIMESTAMP;

verus! {

/// Configuration constants fixed when the module is assembled into a runtime.
#[derive(PartialEq, Eq, Structural, Clone, Copy, Debug)]
pub struct Config {
    /// Baseline stability parameter.
    pub baseline_stability: u32,
    /// Maximum allowed stability parameter.
    pub max_stability: u32,
    /// Minimum allowed stability parameter.
    pub min_stability: u32,
}

/// Events recorded for the runtime's subscribers.
#[derive(PartialEq, Eq, Structural, Clone, Copy, Debug)]
pub enum Event {
    /// The stability parameter was updated: (previous, new, volatility).
    StabilityUpdated(u32, u32, u32),
}

#[derive(PartialEq, Eq, Structural, Clone, Copy, Debug)]
pub enum Error {
    /// The updated stability parameter is out of allowed bounds.
    StabilityOutOfBounds,
    /// The provided volatility input is invalid (must be greater than zero).
    InvalidVolatility,
}

/// The module's state: the current parameter, the append-only history of
/// adjustments (timestamp, previous, new, volatility), and the emitted events.
pub struct Pallet {
    pub config: Config,
    pub stability_parameter: u32,
    pub stability_history: Vec<(u64, u32, u32, u32)>,
    pub events: Vec<Event>,
}

impl Pallet {
    /// Whether `value` lies within the configured stability bounds.
    pub open spec fn in_bounds(self, value: u32) -> bool {
        self.config.min_stability <= value <= self.config.max_stability
    }

    /// A fresh module with everything at its storage default.
    pub fn new(config: Config) -> (p: Pallet)
        ensures
            p.config == config,
            p.stability_parameter == 0u32,
            p.stability_history@ == Seq::<(u64, u32, u32, u32)>::empty(),
            p.events@ == Seq::<Event>::empty(),
    {
        Pallet {
            config,
            stability_parameter: 0,
            stability_history: Vec::new(),
            events: Vec::new(),
        }
    }

    /// Initializes the stability parameter with the baseline value and
    /// records the transition in the history with a volatility input of 0.
    pub fn initialize_stability(&mut self) -> (r: Result<(), Error>)
        ensures
            r == Ok::<(), Error>(()),
            final(self).config == old(self).config,
            final(self).stability_parameter == old(self).config.baseline_stability,
            final(self).stability_history@ == old(self).stability_history@.push(
                (FIXED_TIMESTAMP, 0u32, old(self).config.baseline_stability, 0u32),
            ),
            final(self).events@ == old(self).events@,
    {
        let baseline = self.config.baseline_stability;
        self.stability_parameter = baseline;
        self.stability_history.push((FIXED_TIMESTAMP, 0, baseline, 0));
        Ok(())
    }

    /// Updates the stability parameter from a volatility measure: the new
    /// value is the current one plus the volatility divided by the smoothing
    /// factor.
    ///
    /// Fails on zero volatility, and fails leaving the state unchanged when
    /// the smoothed value falls outside the configured bounds; on success the
    /// parameter never decreases and exactly one history entry is appended.
    pub fn update_stability(&mut self, volatility: u32) -> (r: Result<(), Error>)
        ensures
            final(self).config == old(self).config,
            volatility == 0 ==> r == Err::<(), Error>(Error::InvalidVolatility),
            r matches Err(_) ==> *final(self) == *old(self),
            ({
                let target = arith::smoothed(old(self).stability_parameter, volatility);
                &&& volatility > 0 && !old(self).in_bounds(target)
                    ==> r == Err::<(), Error>(Error::StabilityOutOfBounds)
                &&& volatility > 0 && old(self).in_bounds(target) ==> {
                    &&& r == Ok::<(), Error>(())
                    &&& final(self).stability_parameter == target
                    &&& final(self).stability_history@ == old(self).stability_history@.push(
                        (FIXED_TIMESTAMP, old(self).stability_parameter, target, volatility),
                    )
                    &&& final(self).events@ == old(self).events@.push(
                        Event::StabilityUpdated(
                            old(self).stability_parameter,
                            target,
                            volatility,
                        ),
                    )
                }
            }),
            r matches Ok(_) ==> final(self).stability_parameter >= old(self).stability_parameter,
            r matches Ok(_) ==> final(self).in_bounds(final(self).stability_parameter),
    {
        if volatility == 0 {
            return Err(Error::InvalidVolatility);
        }
        let current = self.stability_parameter;
        let new_multiplier = arith::smoothed_value(current, volatility);
        if !(new_multiplier >= self.config.min_stability
            && new_multiplier <= self.config.max_stability) {
            return Err(Error::StabilityOutOfBounds);
        }
        self.stability_parameter = new_multiplier;
        self.stability_history.push((FIXED_TIMESTAMP, current, new_multiplier, volatility));
        self.events.push(Event::StabilityUpdated(current, new_multiplier, volatility));
        Ok(())
    }

}

} // verus!
