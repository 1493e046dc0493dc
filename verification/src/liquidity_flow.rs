//! Liquidity management: the network's liquidity level, updated through the
//! bounded smoothed protocol.

use vstd::prelude::*;

use crate::arith;
use crate::FIXED_TIMESTAMP;

verus! {

/// Configuration constants fixed when the module is assembled into a runtime.
#[derive(PartialEq, Eq, Structural, Clone, Copy, Debug)]
pub struct Config {
    /// Baseline liquidity level to initialize the module.
    pub baseline_liquidity: u32,
    /// Maximum allowed liquidity level.
    pub max_liquidity: u32,
    /// Minimum allowed liquidity level.
    pub min_liquidity: u32,
}

/// Events recorded for the runtime's subscribers.
#[derive(PartialEq, Eq, Structural, Clone, Copy, Debug)]
pub enum Event {
    /// The liquidity level was updated: (previous, new, adjustment metric).
    LiquidityUpdated(u32, u32, u32),
}

#[derive(PartialEq, Eq, Structural, Clone, Copy, Debug)]
pub enum Error {
    /// The updated liquidity level is out of allowed bounds.
    LiquidityOutOfBounds,
    /// The provided adjustment metric is invalid (must be greater than zero).
    InvalidAdjustmentMetric,
}

/// The module's state: the current level, the append-only history of
/// adjustments (timestamp, previous, new, metric), and the emitted events.
pub struct Pallet {
    pub config: Config,
    pub liquidity_level: u32,
    pub liquidity_history: Vec<(u64, u32, u32, u32)>,
    pub events: Vec<Event>,
}

impl Pallet {
    /// Whether `value` lies within the configured liquidity bounds.
    pub open spec fn in_bounds(self, value: u32) -> bool {
        self.config.min_liquidity <= value <= self.config.max_liquidity
    }

    /// A fresh module with everything at its storage default.
    pub fn new(config: Config) -> (p: Pallet)
        ensures
            p.config == config,
            p.liquidity_level == 0u32,
            p.liquidity_history@ == Seq::<(u64, u32, u32, u32)>::empty(),
            p.events@ == Seq::<Event>::empty(),
    {
        Pallet {
            config,
            liquidity_level: 0,
            liquidity_history: Vec::new(),
            events: Vec::new(),
        }
    }

    /// Initializes the liquidity level with the baseline value and records
    /// the transition in the history with an adjustment metric of 0.
    pub fn initialize_liquidity(&mut self) -> (r: Result<(), Error>)
        ensures
            r == Ok::<(), Error>(()),
            final(self).config == old(self).config,
            final(self).liquidity_level == old(self).config.baseline_liquidity,
            final(self).liquidity_history@ == old(self).liquidity_history@.push(
                (FIXED_TIMESTAMP, 0u32, old(self).config.baseline_liquidity, 0u32),
            ),
            final(self).events@ == old(self).events@,
    {
        let baseline = self.config.baseline_liquidity;
        self.liquidity_level = baseline;
        self.liquidity_history.push((FIXED_TIMESTAMP, 0, baseline, 0));
        Ok(())
    }

    /// Updates the liquidity level from an adjustment metric: the new value
    /// is the current one plus the metric divided by the smoothing factor.
    ///
    /// Fails on a zero metric, and fails leaving the state unchanged when the
    /// smoothed value falls outside the configured bounds; on success the
    /// level never decreases and exactly one history entry is appended.
    pub fn update_liquidity(&mut self, adjustment_metric: u32) -> (r: Result<(), Error>)
        ensures
            final(self).config == old(self).config,
            adjustment_metric == 0 ==> r == Err::<(), Error>(Error::InvalidAdjustmentMetric),
            r matches Err(_) ==> *final(self) == *old(self),
            ({
                let target = arith::smoothed(old(self).liquidity_level, adjustment_metric);
                &&& adjustment_metric > 0 && !old(self).in_bounds(target)
                    ==> r == Err::<(), Error>(Error::LiquidityOutOfBounds)
                &&& adjustment_metric > 0 && old(self).in_bounds(target) ==> {
                    &&& r == Ok::<(), Error>(())
                    &&& final(self).liquidity_level == target
                    &&& final(self).liquidity_history@ == old(self).liquidity_history@.push(
                        (FIXED_TIMESTAMP, old(self).liquidity_level, target, adjustment_metric),
                    )
                    &&& final(self).events@ == old(self).events@.push(
                        Event::LiquidityUpdated(
                            old(self).liquidity_level,
                            target,
                            adjustment_metric,
                        ),
                    )
                }
            }),
            r matches Ok(_) ==> final(self).liquidity_level >= old(self).liquidity_level,
            r matches Ok(_) ==> final(self).in_bounds(final(self).liquidity_level),
    {
        if adjustment_metric == 0 {
            return Err(Error::InvalidAdjustmentMetric);
        }
        let current = self.liquidity_level;
        let new_multiplier = arith::smoothed_value(current, adjustment_metric);
        if !(new_multiplier >= self.config.min_liquidity
            && new_multiplier <= self.config.max_liquidity) {
            return Err(Error::LiquidityOutOfBounds);
        }
        self.liquidity_level = new_multiplier;
        self.liquidity_history.push((FIXED_TIMESTAMP, current, new_multiplier, adjustment_metric));
        self.events.push(Event::LiquidityUpdated(current, new_multiplier, adjustment_metric));
        Ok(())
    }

}

} // verus!
