//! Reserve fund management: a bounded balance fed by contributions and
//! drained by withdrawals, every operation logged with its reason.

use vstd::prelude::*;
use vstd::string::StrSliceExecFns;
use vstd::string::StringSliceAdditionalSpecFns;

use crate::bytes;
use crate::FIXED_TIMESTAMP;

verus! {

/// Configuration constants fixed when the module is assembled into a runtime.
#[derive(PartialEq, Eq, Structural, Clone, Copy, Debug)]
pub struct Config {
    /// Baseline reserve balance to initialize the fund.
    pub baseline_reserve: u32,
    /// Maximum allowed reserve balance.
    pub max_reserve: u32,
    /// Minimum allowed reserve balance.
    pub min_reserve: u32,
}

/// Events recorded for the runtime's subscribers.
pub enum Event {
    /// The reserve balance was updated: (previous balance, new balance,
    /// operation reason).
    ReserveUpdated(u32, u32, Vec<u8>),
}

#[derive(PartialEq, Eq, Structural, Clone, Copy, Debug)]
pub enum Error {
    /// The operation would leave the reserve outside the allowed bounds.
    ReserveOutOfBounds,
    /// The operation parameters are invalid.
    InvalidOperation,
}

/// One more log entry was appended: (timestamp, previous balance, new
/// balance, reason), with everything earlier untouched.
pub open spec fn history_step(
    old_h: Seq<(u64, u32, u32, Vec<u8>)>,
    new_h: Seq<(u64, u32, u32, Vec<u8>)>,
    previous: u32,
    next: u32,
    reason: Seq<u8>,
) -> bool {
    &&& new_h.len() == old_h.len() + 1
    &&& (forall|i: int| 0 <= i < old_h.len() ==> #[trigger] new_h[i] == old_h[i])
    &&& new_h.last().0 == FIXED_TIMESTAMP
    &&& new_h.last().1 == previous
    &&& new_h.last().2 == next
    &&& new_h.last().3@ == reason
}

/// One more `ReserveUpdated` event was recorded, with everything earlier
/// untouched.
pub open spec fn event_step(
    old_e: Seq<Event>,
    new_e: Seq<Event>,
    previous: u32,
    next: u32,
    reason: Seq<u8>,
) -> bool {
    &&& new_e.len() == old_e.len() + 1
    &&& (forall|i: int| 0 <= i < old_e.len() ==> #[trigger] new_e[i] == old_e[i])
    &&& new_e.last() matches Event::ReserveUpdated(p, n, w) && p == previous && n == next
        && w@ == reason
}

/// The module's state: the current balance, the append-only history of
/// operations (timestamp, previous, new, reason), and the emitted events.
pub struct Pallet {
    pub config: Config,
    pub reserve_balance: u32,
    pub reserve_history: Vec<(u64, u32, u32, Vec<u8>)>,
    pub events: Vec<Event>,
}

impl Pallet {
    /// Whether `value` lies within the configured reserve bounds.
    pub open spec fn in_bounds(self, value: u32) -> bool {
        self.config.min_reserve <= value <= self.config.max_reserve
    }

    /// A fresh module with everything at its storage default.
    pub fn new(config: Config) -> (p: Pallet)
        ensures
            p.config == config,
            p.reserve_balance == 0u32,
            p.reserve_history@ == Seq::<(u64, u32, u32, Vec<u8>)>::empty(),
            p.events@ == Seq::<Event>::empty(),
    {
        Pallet { config, reserve_balance: 0, reserve_history: Vec::new(), events: Vec::new() }
    }

    /// Initializes the reserve with the baseline balance and logs the
    /// operation under the reason "Initialization".
    pub fn initialize_reserve(&mut self) -> (r: Result<(), Error>)
        ensures
            r == Ok::<(), Error>(()),
            final(self).config == old(self).config,
            final(self).reserve_balance == old(self).config.baseline_reserve,
            history_step(
                old(self).reserve_history@,
                final(self).reserve_history@,
                0u32,
                old(self).config.baseline_reserve,
                "Initialization".spec_bytes(),
            ),
            final(self).events@ == old(self).events@,
    {
        let baseline = self.config.baseline_reserve;
        self.reserve_balance = baseline;
        self.reserve_history.push((FIXED_TIMESTAMP, 0, baseline, "Initialization".as_bytes_vec()));
        Ok(())
    }

    /// Adds `amount` to the reserve, saturating at `u32::MAX`.
    ///
    /// Fails leaving the state unchanged when the result would exceed the
    /// configured maximum; on success the balance never decreases and the
    /// operation is logged with the given reason.
    pub fn contribute(&mut self, amount: u32, reason: Vec<u8>) -> (r: Result<(), Error>)
        ensures
            final(self).config == old(self).config,
            ({
                let target = old(self).reserve_balance.saturating_add(amount);
                &&& target > old(self).config.max_reserve ==> {
                    &&& r == Err::<(), Error>(Error::ReserveOutOfBounds)
                    &&& *final(self) == *old(self)
                }
                &&& target <= old(self).config.max_reserve ==> {
                    &&& r == Ok::<(), Error>(())
                    &&& final(self).reserve_balance == target
                    &&& history_step(
                        old(self).reserve_history@,
                        final(self).reserve_history@,
                        old(self).reserve_balance,
                        target,
                        reason@,
                    )
                    &&& event_step(
                        old(self).events@,
                        final(self).events@,
                        old(self).reserve_balance,
                        target,
                        reason@,
                    )
                }
            }),
            r matches Ok(_) ==> final(self).reserve_balance >= old(self).reserve_balance,
    {
        let current = self.reserve_balance;
        let new_balance = current.saturating_add(amount);
        if new_balance > self.config.max_reserve {
            return Err(Error::ReserveOutOfBounds);
        }
        self.reserve_balance = new_balance;
        let logged = bytes::clone_bytes(&reason);
        self.reserve_history.push((FIXED_TIMESTAMP, current, new_balance, logged));
        self.events.push(Event::ReserveUpdated(current, new_balance, reason));
        Ok(())
    }

    /// Removes `amount` from the reserve.
    ///
    /// Fails leaving the state unchanged when the reserve holds less than
    /// `amount`, or when the result would fall under the configured minimum;
    /// on success the balance never increases and the operation is logged
    /// with the given reason.
    pub fn withdraw(&mut self, amount: u32, reason: Vec<u8>) -> (r: Result<(), Error>)
        ensures
            final(self).config == old(self).config,
            old(self).reserve_balance < amount ==> {
                &&& r == Err::<(), Error>(Error::InvalidOperation)
                &&& *final(self) == *old(self)
            },
            old(self).reserve_balance >= amount
                && old(self).reserve_balance - amount < old(self).config.min_reserve ==> {
                &&& r == Err::<(), Error>(Error::ReserveOutOfBounds)
                &&& *final(self) == *old(self)
            },
            old(self).reserve_balance >= amount
                && old(self).reserve_balance - amount >= old(self).config.min_reserve ==> {
                &&& r == Ok::<(), Error>(())
                &&& final(self).reserve_balance == old(self).reserve_balance - amount
                &&& history_step(
                    old(self).reserve_history@,
                    final(self).reserve_history@,
                    old(self).reserve_balance,
                    (old(self).reserve_balance - amount) as u32,
                    reason@,
                )
                &&& event_step(
                    old(self).events@,
                    final(self).events@,
                    old(self).reserve_balance,
                    (old(self).reserve_balance - amount) as u32,
                    reason@,
                )
            },
            r matches Ok(_) ==> final(self).reserve_balance <= old(self).reserve_balance,
    {
        let current = self.reserve_balance;
        if current < amount {
            return Err(Error::InvalidOperation);
        }
        let new_balance = current - amount;
        if new_balance < self.config.min_reserve {
            return Err(Error::ReserveOutOfBounds);
        }
        self.reserve_balance = new_balance;
        let logged = bytes::clone_bytes(&reason);
        self.reserve_history.push((FIXED_TIMESTAMP, current, new_balance, logged));
        self.events.push(Event::ReserveUpdated(current, new_balance, reason));
        Ok(())
    }

    /// Sets the reserve balance directly, as a governance decision.
    ///
    /// Fails leaving the state unchanged when the new balance lies outside
    /// the configured bounds; on success the operation is logged with the
    /// given reason.
    pub fn update_reserve(&mut self, new_balance: u32, reason: Vec<u8>) -> (r: Result<(), Error>)
        ensures
            final(self).config == old(self).config,
            !old(self).in_bounds(new_balance) ==> {
                &&& r == Err::<(), Error>(Error::ReserveOutOfBounds)
                &&& *final(self) == *old(self)
            },
            old(self).in_bounds(new_balance) ==> {
                &&& r == Ok::<(), Error>(())
                &&& final(self).reserve_balance == new_balance
                &&& history_step(
                    old(self).reserve_history@,
                    final(self).reserve_history@,
                    old(self).reserve_balance,
                    new_balance,
                    reason@,
                )
                &&& event_step(
                    old(self).events@,
                    final(self).events@,
                    old(self).reserve_balance,
                    new_balance,
                    reason@,
                )
            },
    {
        if !(new_balance >= self.config.min_reserve && new_balance <= self.config.max_reserve) {
            return Err(Error::ReserveOutOfBounds);
        }
        let current = self.reserve_balance;
        self.reserve_balance = new_balance;
        let logged = bytes::clone_bytes(&reason);
        self.reserve_history.push((FIXED_TIMESTAMP, current, new_balance, logged));
        self.events.push(Event::ReserveUpdated(current, new_balance, reason));
        Ok(())
    }
}

} // verus!
