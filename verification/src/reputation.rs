//! Decentralized reputation management: per-account scores recomputed from
//! activity metrics and clamped to configured bounds.

use vstd::prelude::*;

use crate::arith;
use crate::bytes;
use crate::store::KeyedStore;
use crate::FIXED_TIMESTAMP;

verus! {

/// Configuration constants fixed when the module is assembled into a runtime.
#[derive(PartialEq, Eq, Structural, Clone, Copy, Debug)]
pub struct Config {
    /// Default reputation score for new accounts.
    pub default_reputation: u32,
    /// Maximum allowed reputation score.
    pub max_reputation: u32,
    /// Minimum allowed reputation score.
    pub min_reputation: u32,
}

/// A reputation record: the current score and the details of its last
/// calculation.
pub struct ReputationRecord {
    /// The current reputation score.
    pub score: u32,
    /// Additional details from the calculation.
    pub details: Vec<u8>,
}

/// Events recorded for the runtime's subscribers.
pub enum Event {
    /// A reputation score was updated: (account, previous score, new score,
    /// details).
    ReputationUpdated(u64, u32, u32, Vec<u8>),
}

#[derive(PartialEq, Eq, Structural, Clone, Copy, Debug)]
pub enum Error {
    /// The calculated reputation score is out of allowed bounds.
    ReputationOutOfBounds,
    /// Invalid data provided for reputation calculation.
    InvalidReputationData,
}

/// The score an update drives an account towards: the current score plus
/// half the input metric, saturating, then clamped into the allowed range.
pub open spec fn new_score(config: Config, current: u32, input_metric: u32) -> u32 {
    arith::clamped(
        current.saturating_add(input_metric / 2),
        config.min_reputation,
        config.max_reputation,
    )
}

/// One more log entry was appended: (timestamp, account, previous score, new
/// score, details), with everything earlier untouched.
pub open spec fn history_step(
    old_h: Seq<(u64, u64, u32, u32, Vec<u8>)>,
    new_h: Seq<(u64, u64, u32, u32, Vec<u8>)>,
    account: u64,
    previous: u32,
    next: u32,
    details: Seq<u8>,
) -> bool {
    &&& new_h.len() == old_h.len() + 1
    &&& (forall|i: int| 0 <= i < old_h.len() ==> #[trigger] new_h[i] == old_h[i])
    &&& new_h.last().0 == FIXED_TIMESTAMP
    &&& new_h.last().1 == account
    &&& new_h.last().2 == previous
    &&& new_h.last().3 == next
    &&& new_h.last().4@ == details
}

/// The module's state: per-account reputation records, the append-only
/// history of updates, and the emitted events.
pub struct Pallet {
    pub config: Config,
    pub reputation_scores: KeyedStore<ReputationRecord>,
    pub reputation_history: Vec<(u64, u64, u32, u32, Vec<u8>)>,
    pub events: Vec<Event>,
}

impl Pallet {
    /// The record store is well-formed.
    pub open spec fn wf(self) -> bool {
        self.reputation_scores.wf()
    }

    /// A fresh module with everything at its storage default.
    pub fn new(config: Config) -> (p: Pallet)
        ensures
            p.wf(),
            p.config == config,
            p.reputation_scores@ == Map::<u64, ReputationRecord>::empty(),
            p.reputation_history@ == Seq::<(u64, u64, u32, u32, Vec<u8>)>::empty(),
            p.events@ == Seq::<Event>::empty(),
    {
        Pallet {
            config,
            reputation_scores: KeyedStore::new(),
            reputation_history: Vec::new(),
            events: Vec::new(),
        }
    }

    /// Calculates the score an account would move to: the current score plus
    /// half the input metric, clamped into the allowed range. Always
    /// succeeds.
    pub fn calculate_reputation(&self, current_score: u32, input_metric: u32) -> (r: Result<
        u32,
        Error,
    >)
        ensures
            r == Ok::<u32, Error>(new_score(self.config, current_score, input_metric)),
    {
        let raw = current_score.saturating_add(input_metric / 2);
        Ok(arith::clamp_value(raw, self.config.min_reputation, self.config.max_reputation))
    }

    /// Recomputes and stores the reputation of `account` from an activity
    /// metric; an account without a record starts from the default score.
    ///
    /// Fails leaving the state unchanged when the clamped score still falls
    /// outside the configured bounds, which can only happen when the bounds
    /// themselves are contradictory; on success the new record, one history
    /// entry and one event carry the given details.
    pub fn update_reputation(&mut self, account: u64, input_metric: u32, details: Vec<u8>) -> (r:
        Result<(), Error>)
        requires
            old(self).wf(),
        ensures
            final(self).wf(),
            final(self).config == old(self).config,
            ({
                let previous = if old(self).reputation_scores@.contains_key(account) {
                    old(self).reputation_scores@[account].score
                } else {
                    old(self).config.default_reputation
                };
                let target = new_score(old(self).config, previous, input_metric);
                &&& !(old(self).config.min_reputation <= target
                    <= old(self).config.max_reputation) ==> {
                    &&& r == Err::<(), Error>(Error::ReputationOutOfBounds)
                    &&& *final(self) == *old(self)
                }
                &&& old(self).config.min_reputation <= target <= old(self).config.max_reputation
                    ==> {
                    &&& r == Ok::<(), Error>(())
                    &&& final(self).reputation_scores@ == old(self).reputation_scores@.insert(
                        account,
                        final(self).reputation_scores@[account],
                    )
                    &&& final(self).reputation_scores@[account].score == target
                    &&& final(self).reputation_scores@[account].details@ == details@
                    &&& history_step(
                        old(self).reputation_history@,
                        final(self).reputation_history@,
                        account,
                        previous,
                        target,
                        details@,
                    )
                    &&& final(self).events@.len() == old(self).events@.len() + 1
                    &&& (forall|i: int|
                        0 <= i < old(self).events@.len()
                            ==> #[trigger] final(self).events@[i] == old(self).events@[i])
                    &&& final(self).events@.last() matches Event::ReputationUpdated(a, p, n, d)
                        && a == account && p == previous && n == target && d@ == details@
                }
            }),
    {
        let previous_score = match self.reputation_scores.get(account) {
            Some(record) => record.score,
            None => self.config.default_reputation,
        };
        let target = match self.calculate_reputation(previous_score, input_metric) {
            Ok(v) => v,
            Err(_) => {
                return Err(Error::InvalidReputationData);
            },
        };
        if !(target >= self.config.min_reputation && target <= self.config.max_reputation) {
            return Err(Error::ReputationOutOfBounds);
        }
        let stored = bytes::clone_bytes(&details);
        self.reputation_scores.insert(account, ReputationRecord { score: target, details: stored });
        let logged = bytes::clone_bytes(&details);
        self.reputation_history.push((FIXED_TIMESTAMP, account, previous_score, target, logged));
        self.events.push(Event::ReputationUpdated(account, previous_score, target, details));
        Ok(())
    }
}

} // verus!
