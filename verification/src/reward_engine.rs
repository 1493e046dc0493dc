//! Reward distribution: a reward pool paying out amounts derived from a
//! recipient's reputation, clamped to configured bounds.

use vstd::prelude::*;
use vstd::string::StrSliceExecFns;
use vstd::string::StringSliceAdditionalSpecFns;

use crate::arith;
use crate::bytes;
use crate::FIXED_TIMESTAMP;

verus! {

/// Configuration constants fixed when the module is assembled into a runtime.
#[derive(PartialEq, Eq, Structural, Clone, Copy, Debug)]
pub struct Config {
    /// Baseline reward pool to initialize the module.
    pub initial_reward_pool: u32,
    /// Base reward for each reward distribution.
    pub base_reward: u32,
    /// Reputation multiplier factor.
    pub reputation_multiplier: u32,
    /// Minimum reward that can be distributed.
    pub min_reward: u32,
    /// Maximum reward that can be distributed.
    pub max_reward: u32,
}

/// Events recorded for the runtime's subscribers.
pub enum Event {
    /// A reward was distributed: (recipient, reward amount, details).
    RewardDistributed(u64, u32, Vec<u8>),
    /// The reward pool was updated: (old pool, new pool, details).
    RewardPoolUpdated(u32, u32, Vec<u8>),
}

#[derive(PartialEq, Eq, Structural, Clone, Copy, Debug)]
pub enum Error {
    /// Insufficient funds in the reward pool.
    InsufficientRewardPool,
    /// The calculated reward is out of allowed bounds.
    RewardOutOfBounds,
    /// Invalid operation parameters.
    InvalidOperation,
}

/// The reward owed for a reputation score: the base reward plus the
/// multiplier times the score, clamped into `[min_reward, max_reward]`.
pub open spec fn reward_for(config: Config, reputation: u32) -> u32 {
    arith::clamped(
        config.base_reward.saturating_add(arith::sat_mul(config.reputation_multiplier, reputation)),
        config.min_reward,
        config.max_reward,
    )
}

/// One more log entry was appended: (timestamp, recipient, amount, details),
/// with everything earlier untouched.
pub open spec fn history_step(
    old_h: Seq<(u64, u64, u32, Vec<u8>)>,
    new_h: Seq<(u64, u64, u32, Vec<u8>)>,
    account: u64,
    amount: u32,
    details: Seq<u8>,
) -> bool {
    &&& new_h.len() == old_h.len() + 1
    &&& (forall|i: int| 0 <= i < old_h.len() ==> #[trigger] new_h[i] == old_h[i])
    &&& new_h.last().0 == FIXED_TIMESTAMP
    &&& new_h.last().1 == account
    &&& new_h.last().2 == amount
    &&& new_h.last().3@ == details
}

/// One more event was recorded, with everything earlier untouched.
pub open spec fn event_step(old_e: Seq<Event>, new_e: Seq<Event>) -> bool {
    &&& new_e.len() == old_e.len() + 1
    &&& (forall|i: int| 0 <= i < old_e.len() ==> #[trigger] new_e[i] == old_e[i])
}

/// The module's state: the current pool, the append-only history of payouts
/// and pool updates (timestamp, recipient, amount, details), and the events.
pub struct Pallet {
    pub config: Config,
    pub reward_pool: u32,
    pub reward_history: Vec<(u64, u64, u32, Vec<u8>)>,
    pub events: Vec<Event>,
}

impl Pallet {
    /// A fresh module with everything at its storage default.
    pub fn new(config: Config) -> (p: Pallet)
        ensures
            p.config == config,
            p.reward_pool == 0u32,
            p.reward_history@ == Seq::<(u64, u64, u32, Vec<u8>)>::empty(),
            p.events@ == Seq::<Event>::empty(),
    {
        Pallet { config, reward_pool: 0, reward_history: Vec::new(), events: Vec::new() }
    }

    /// Initializes the reward pool with the baseline amount and logs the
    /// operation, under the placeholder recipient 0, as "Initialization".
    pub fn initialize_rewards(&mut self) -> (r: Result<(), Error>)
        ensures
            r == Ok::<(), Error>(()),
            final(self).config == old(self).config,
            final(self).reward_pool == old(self).config.initial_reward_pool,
            history_step(
                old(self).reward_history@,
                final(self).reward_history@,
                0u64,
                0u32,
                "Initialization".spec_bytes(),
            ),
            final(self).events@ == old(self).events@,
    {
        self.reward_pool = self.config.initial_reward_pool;
        self.reward_history.push((FIXED_TIMESTAMP, 0, 0, "Initialization".as_bytes_vec()));
        Ok(())
    }

    /// Pays `reward_for(config, reputation)` out of the pool to `account`.
    ///
    /// Fails leaving the state unchanged when the pool holds less than the
    /// reward; on success the pool decreases by exactly the reward and the
    /// payout is logged with the given details.
    pub fn distribute_reward(&mut self, account: u64, reputation: u32, details: Vec<u8>) -> (r:
        Result<(), Error>)
        ensures
            final(self).config == old(self).config,
            ({
                let reward = reward_for(old(self).config, reputation);
                &&& old(self).reward_pool < reward ==> {
                    &&& r == Err::<(), Error>(Error::InsufficientRewardPool)
                    &&& *final(self) == *old(self)
                }
                &&& old(self).reward_pool >= reward ==> {
                    &&& r == Ok::<(), Error>(())
                    &&& final(self).reward_pool == old(self).reward_pool - reward
                    &&& history_step(
                        old(self).reward_history@,
                        final(self).reward_history@,
                        account,
                        reward,
                        details@,
                    )
                    &&& event_step(old(self).events@, final(self).events@)
                    &&& final(self).events@.last() matches Event::RewardDistributed(a, w, d)
                        && a == account && w == reward && d@ == details@
                }
            }),
            r matches Ok(_) ==> final(self).reward_pool <= old(self).reward_pool,
    {
        let reward = arith::clamp_value(
            self.config.base_reward.saturating_add(
                arith::sat_mul_value(self.config.reputation_multiplier, reputation),
            ),
            self.config.min_reward,
            self.config.max_reward,
        );
        let current_pool = self.reward_pool;
        if current_pool < reward {
            return Err(Error::InsufficientRewardPool);
        }
        self.reward_pool = current_pool - reward;
        let logged = bytes::clone_bytes(&details);
        self.reward_history.push((FIXED_TIMESTAMP, account, reward, logged));
        self.events.push(Event::RewardDistributed(account, reward, details));
        Ok(())
    }

    /// Sets the reward pool directly, as a governance decision.
    ///
    /// Fails leaving the state unchanged when the new pool is under the
    /// configured minimum reward; on success the update is logged, under the
    /// placeholder recipient 0, with the given details.
    pub fn update_reward_pool(&mut self, new_pool: u32, details: Vec<u8>) -> (r: Result<(), Error>)
        ensures
            final(self).config == old(self).config,
            new_pool < old(self).config.min_reward ==> {
                &&& r == Err::<(), Error>(Error::InvalidOperation)
                &&& *final(self) == *old(self)
            },
            new_pool >= old(self).config.min_reward ==> {
                &&& r == Ok::<(), Error>(())
                &&& final(self).reward_pool == new_pool
                &&& history_step(
                    old(self).reward_history@,
                    final(self).reward_history@,
                    0u64,
                    new_pool,
                    details@,
                )
                &&& event_step(old(self).events@, final(self).events@)
                &&& final(self).events@.last() matches Event::RewardPoolUpdated(p, n, d)
                    && p == old(self).reward_pool && n == new_pool && d@ == details@
            },
    {
        if new_pool < self.config.min_reward {
            return Err(Error::InvalidOperation);
        }
        let old_pool = self.reward_pool;
        self.reward_pool = new_pool;
        let logged = bytes::clone_bytes(&details);
        self.reward_history.push((FIXED_TIMESTAMP, 0, new_pool, logged));
        self.events.push(Event::RewardPoolUpdated(old_pool, new_pool, details));
        Ok(())
    }
}

} // verus!
