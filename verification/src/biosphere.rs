//! Adaptive state management: a growth multiplier steering the network's
//! phase transitions, updated through the bounded smoothed protocol.

use vstd::prelude::*;

use crate::arith;
use crate::FIXED_TIMESTAMP;

verus! {

/// Configuration constants fixed when the module is assembled into a runtime.
#[derive(PartialEq, Eq, Structural, Clone, Copy, Debug)]
pub struct Config {
    /// Baseline multiplier to initialize the growth state.
    pub baseline_multiplier: u32,
    /// Maximum allowed multiplier value.
    pub max_multiplier: u32,
    /// Minimum allowed multiplier value.
    pub min_multiplier: u32,
}

/// Events recorded for the runtime's subscribers.
#[derive(PartialEq, Eq, Structural, Clone, Copy, Debug)]
pub enum Event {
    /// The growth multiplier was updated: (previous, new, network signal).
    GrowthMultiplierUpdated(u32, u32, u32),
}

#[derive(PartialEq, Eq, Structural, Clone, Copy, Debug)]
pub enum Error {
    /// The updated multiplier is out of allowed bounds.
    MultiplierOutOfBounds,
    /// The provided network signal is invalid (must be greater than zero).
    InvalidNetworkSignal,
}

/// The module's state: the current multiplier, the append-only history of
/// transitions (timestamp, previous, new, signal), and the emitted events.
pub struct Pallet {
    pub config: Config,
    pub growth_multiplier: u32,
    pub multiplier_history: Vec<(u64, u32, u32, u32)>,
    pub events: Vec<Event>,
}

impl Pallet {
    /// Whether `value` lies within the configured multiplier bounds.
    pub open spec fn in_bounds(self, value: u32) -> bool {
        self.config.min_multiplier <= value <= self.config.max_multiplier
    }

    /// A fresh module with everything at its storage default.
    pub fn new(config: Config) -> (p: Pallet)
        ensures
            p.config == config,
            p.growth_multiplier == 0u32,
            p.multiplier_history@ == Seq::<(u64, u32, u32, u32)>::empty(),
            p.events@ == Seq::<Event>::empty(),
    {
        Pallet {
            config,
            growth_multiplier: 0,
            multiplier_history: Vec::new(),
            events: Vec::new(),
        }
    }

    /// Initializes the growth multiplier with the baseline value and records
    /// the transition in the history with an input signal of 0.
    pub fn initialize_growth(&mut self) -> (r: Result<(), Error>)
        ensures
            r == Ok::<(), Error>(()),
            final(self).config == old(self).config,
            final(self).growth_multiplier == old(self).config.baseline_multiplier,
            final(self).multiplier_history@ == old(self).multiplier_history@.push(
                (FIXED_TIMESTAMP, 0u32, old(self).config.baseline_multiplier, 0u32),
            ),
            final(self).events@ == old(self).events@,
    {
        let baseline = self.config.baseline_multiplier;
        self.growth_multiplier = baseline;
        self.multiplier_history.push((FIXED_TIMESTAMP, 0, baseline, 0));
        Ok(())
    }

    /// Updates the growth multiplier from a network signal: the new value is
    /// the current one plus the signal divided by the smoothing factor.
    ///
    /// Fails on a zero signal, and fails leaving the state unchanged when the
    /// smoothed value falls outside the configured bounds; on success the
    /// multiplier never decreases and exactly one history entry is appended.
    pub fn update_multiplier(&mut self, network_signal: u32) -> (r: Result<(), Error>)
        ensures
            final(self).config == old(self).config,
            network_signal == 0 ==> r == Err::<(), Error>(Error::InvalidNetworkSignal),
            r matches Err(_) ==> *final(self) == *old(self),
            ({
                let target = arith::smoothed(old(self).growth_multiplier, network_signal);
                &&& network_signal > 0 && !old(self).in_bounds(target)
                    ==> r == Err::<(), Error>(Error::MultiplierOutOfBounds)
                &&& network_signal > 0 && old(self).in_bounds(target) ==> {
                    &&& r == Ok::<(), Error>(())
                    &&& final(self).growth_multiplier == target
                    &&& final(self).multiplier_history@ == old(self).multiplier_history@.push(
                        (FIXED_TIMESTAMP, old(self).growth_multiplier, target, network_signal),
                    )
                    &&& final(self).events@ == old(self).events@.push(
                        Event::GrowthMultiplierUpdated(
                            old(self).growth_multiplier,
                            target,
                            network_signal,
                        ),
                    )
                }
            }),
            r matches Ok(_) ==> final(self).growth_multiplier >= old(self).growth_multiplier,
            r matches Ok(_) ==> final(self).in_bounds(final(self).growth_multiplier),
    {
        if network_signal == 0 {
            return Err(Error::InvalidNetworkSignal);
        }
        let current = self.growth_multiplier;
        let new_multiplier = arith::smoothed_value(current, network_signal);
        if !(new_multiplier >= self.config.min_multiplier
            && new_multiplier <= self.config.max_multiplier) {
            return Err(Error::MultiplierOutOfBounds);
        }
        self.growth_multiplier = new_multiplier;
        self.multiplier_history.push((FIXED_TIMESTAMP, current, new_multiplier, network_signal));
        self.events.push(Event::GrowthMultiplierUpdated(current, new_multiplier, network_signal));
        Ok(())
    }
}

} // verus!
