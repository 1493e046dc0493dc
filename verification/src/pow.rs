//! Proof-of-work: miners' work submissions, their validation against the
//! baseline difficulty, and a bounds check for smoothed difficulty updates.

use vstd::prelude::*;

use crate::arith;
use crate::bytes;
use crate::store::KeyedStore;
use crate::FIXED_TIMESTAMP;

verus! {

/// Configuration constants fixed when the module is assembled into a runtime.
#[derive(PartialEq, Eq, Structural, Clone, Copy, Debug)]
pub struct Config {
    /// Baseline difficulty for proof-of-work.
    pub baseline_difficulty: u32,
    /// Maximum allowed difficulty.
    pub max_difficulty: u32,
    /// Minimum allowed difficulty.
    pub min_difficulty: u32,
}

/// A proof-of-work submission.
pub struct WorkSubmission {
    /// Unique identifier for the work submission.
    pub id: u64,
    /// Hash of the work.
    pub work_hash: Vec<u8>,
    /// Identifier of the miner submitting the work.
    pub miner: u64,
    /// Timestamp of the submission.
    pub timestamp: u64,
}

/// Events recorded for the runtime's subscribers.
pub enum Event {
    /// Work was successfully submitted: (submission ID, miner, work hash).
    WorkSubmitted(u64, u64, Vec<u8>),
    /// A work submission was validated: (submission ID, outcome).
    WorkValidated(u64, bool),
    /// The network difficulty was updated: (previous, new, network load).
    DifficultyUpdated(u32, u32, u32),
}

#[derive(PartialEq, Eq, Structural, Clone, Copy, Debug)]
pub enum Error {
    /// Work submission is invalid or does not meet the difficulty criteria.
    InvalidWorkSubmission,
    /// Difficulty update failed due to an invariant violation.
    DifficultyUpdateFailed,
    /// The provided network load is invalid (must be greater than zero).
    InvalidNetworkLoad,
}

/// One more log entry was appended: (timestamp, submission ID, miner,
/// difficulty, validation outcome), with everything earlier untouched.
pub open spec fn history_step(
    old_h: Seq<(u64, u64, u64, u32, bool)>,
    new_h: Seq<(u64, u64, u64, u32, bool)>,
    entry: (u64, u64, u64, u32, bool),
) -> bool {
    new_h == old_h.push(entry)
}

/// The module's state: the current difficulty, the per-identifier
/// submissions, the append-only histories of submissions and of difficulty
/// adjustments, and the emitted events.
pub struct Pallet {
    pub config: Config,
    pub difficulty: u32,
    pub work_submissions: KeyedStore<WorkSubmission>,
    pub pow_history: Vec<(u64, u64, u64, u32, bool)>,
    pub difficulty_history: Vec<(u64, u32, u32, u32)>,
    pub events: Vec<Event>,
}

impl Pallet {
    /// The submission store is well-formed.
    pub open spec fn wf(self) -> bool {
        self.work_submissions.wf()
    }

    /// Whether `value` lies within the configured difficulty bounds.
    pub open spec fn in_bounds(self, value: u32) -> bool {
        self.config.min_difficulty <= value <= self.config.max_difficulty
    }

    /// A fresh module, with the difficulty at its baseline and everything
    /// else at its storage default.
    pub fn new(config: Config) -> (p: Pallet)
        ensures
            p.wf(),
            p.config == config,
            p.difficulty == config.baseline_difficulty,
            p.work_submissions@ == Map::<u64, WorkSubmission>::empty(),
            p.pow_history@ == Seq::<(u64, u64, u64, u32, bool)>::empty(),
            p.difficulty_history@ == Seq::<(u64, u32, u32, u32)>::empty(),
            p.events@ == Seq::<Event>::empty(),
    {
        Pallet {
            config,
            difficulty: config.baseline_difficulty,
            work_submissions: KeyedStore::new(),
            pow_history: Vec::new(),
            difficulty_history: Vec::new(),
            events: Vec::new(),
        }
    }

    /// Stores a miner's work submission under its identifier, replacing any
    /// earlier submission with the same identifier, and logs it as not yet
    /// validated under the baseline difficulty.
    ///
    /// Fails leaving the state unchanged when the work hash is empty.
    pub fn submit_work(&mut self, miner: u64, id: u64, work_hash: Vec<u8>) -> (r: Result<
        (),
        Error,
    >)
        requires
            old(self).wf(),
        ensures
            final(self).wf(),
            final(self).config == old(self).config,
            work_hash@.len() == 0 ==> {
                &&& r == Err::<(), Error>(Error::InvalidWorkSubmission)
                &&& *final(self) == *old(self)
            },
            work_hash@.len() > 0 ==> {
                &&& r == Ok::<(), Error>(())
                &&& final(self).difficulty == old(self).difficulty
                &&& final(self).difficulty_history == old(self).difficulty_history
                &&& final(self).work_submissions@ == old(self).work_submissions@.insert(
                    id,
                    WorkSubmission { id, work_hash, miner, timestamp: FIXED_TIMESTAMP },
                )
                &&& history_step(
                    old(self).pow_history@,
                    final(self).pow_history@,
                    (FIXED_TIMESTAMP, id, miner, old(self).config.baseline_difficulty, false),
                )
                &&& final(self).events@.len() == old(self).events@.len() + 1
                &&& (forall|i: int|
                    0 <= i < old(self).events@.len()
                        ==> #[trigger] final(self).events@[i] == old(self).events@[i])
                &&& final(self).events@.last() matches Event::WorkSubmitted(i, m, h) && i == id
                    && m == miner && h@ == work_hash@
            },
    {
        if work_hash.is_empty() {
            return Err(Error::InvalidWorkSubmission);
        }
        let emitted = bytes::clone_bytes(&work_hash);
        let submission = WorkSubmission { id, work_hash, miner, timestamp: FIXED_TIMESTAMP };
        self.work_submissions.insert(id, submission);
        self.pow_history.push((
            FIXED_TIMESTAMP,
            id,
            miner,
            self.config.baseline_difficulty,
            false,
        ));
        self.events.push(Event::WorkSubmitted(id, miner, emitted));
        Ok(())
    }

    /// Validates the stored submission `id` against the baseline
    /// difficulty: the work passes when its hash is longer than the baseline
    /// difficulty divided by the smoothing factor. The outcome is logged and
    /// recorded as a `WorkValidated` event.
    ///
    /// Fails leaving the state unchanged when no submission is stored under
    /// `id`.
    pub fn validate_work(&mut self, id: u64) -> (r: Result<(), Error>)
        requires
            old(self).wf(),
        ensures
            final(self).wf(),
            final(self).config == old(self).config,
            final(self).work_submissions == old(self).work_submissions,
            !old(self).work_submissions@.contains_key(id) ==> {
                &&& r == Err::<(), Error>(Error::InvalidWorkSubmission)
                &&& *final(self) == *old(self)
            },
            old(self).work_submissions@.contains_key(id) ==> {
                let submission = old(self).work_submissions@[id];
                let valid = submission.work_hash@.len() > old(
                    self,
                ).config.baseline_difficulty / arith::SMOOTHING_FACTOR;
                &&& r == Ok::<(), Error>(())
                &&& final(self).difficulty == old(self).difficulty
                &&& final(self).difficulty_history == old(self).difficulty_history
                &&& history_step(
                    old(self).pow_history@,
                    final(self).pow_history@,
                    (
                        FIXED_TIMESTAMP,
                        id,
                        submission.miner,
                        old(self).config.baseline_difficulty,
                        valid,
                    ),
                )
                &&& final(self).events@ == old(self).events@.push(Event::WorkValidated(id, valid))
            },
    {
        let (miner, valid) = match self.work_submissions.get(id) {
            Some(submission) => (
                submission.miner,
                submission.work_hash.len()
                    > (self.config.baseline_difficulty / arith::SMOOTHING_FACTOR) as usize,
            ),
            None => {
                return Err(Error::InvalidWorkSubmission);
            },
        };
        self.pow_history.push((
            FIXED_TIMESTAMP,
            id,
            miner,
            self.config.baseline_difficulty,
            valid,
        ));
        self.events.push(Event::WorkValidated(id, valid));
        Ok(())
    }

    /// Updates the network difficulty from a load measure: the new value is
    /// the current one plus the load divided by the smoothing factor.
    ///
    /// Fails on a zero load, and fails leaving the state unchanged when the
    /// smoothed value falls outside the configured bounds; on success the
    /// difficulty never decreases, exactly one difficulty-history entry is
    /// appended and a `DifficultyUpdated` event recorded.
    pub fn update_difficulty(&mut self, network_load: u32) -> (r: Result<(), Error>)
        ensures
            final(self).config == old(self).config,
            final(self).work_submissions == old(self).work_submissions,
            final(self).pow_history == old(self).pow_history,
            network_load == 0 ==> r == Err::<(), Error>(Error::InvalidNetworkLoad),
            r matches Err(_) ==> *final(self) == *old(self),
            ({
                let target = arith::smoothed(old(self).difficulty, network_load);
                &&& network_load > 0 && !old(self).in_bounds(target) ==> r == Err::<(), Error>(
                    Error::DifficultyUpdateFailed,
                )
                &&& network_load > 0 && old(self).in_bounds(target) ==> {
                    &&& r == Ok::<(), Error>(())
                    &&& final(self).difficulty == target
                    &&& final(self).difficulty_history@ == old(self).difficulty_history@.push(
                        (FIXED_TIMESTAMP, old(self).difficulty, target, network_load),
                    )
                    &&& final(self).events@ == old(self).events@.push(
                        Event::DifficultyUpdated(old(self).difficulty, target, network_load),
                    )
                }
            }),
            r matches Ok(_) ==> final(self).difficulty >= old(self).difficulty,
            r matches Ok(_) ==> final(self).in_bounds(final(self).difficulty),
    {
        if network_load == 0 {
            return Err(Error::InvalidNetworkLoad);
        }
        let current = self.difficulty;
        let new_difficulty = arith::smoothed_value(current, network_load);
        if !(new_difficulty >= self.config.min_difficulty
            && new_difficulty <= self.config.max_difficulty) {
            return Err(Error::DifficultyUpdateFailed);
        }
        self.difficulty = new_difficulty;
        self.difficulty_history.push((FIXED_TIMESTAMP, current, new_difficulty, network_load));
        self.events.push(Event::DifficultyUpdated(current, new_difficulty, network_load));
        Ok(())
    }
}

} // verus!
