//! Decentralized identity management: per-account KYC records with a
//! verification status, every registration and update logged.

use vstd::prelude::*;

use crate::bytes;
use crate::store::KeyedStore;
use crate::FIXED_TIMESTAMP;

verus! {

/// Configuration constants fixed when the module is assembled into a runtime.
#[derive(PartialEq, Eq, Structural, Clone, Copy, Debug)]
pub struct Config {
    /// Default verification status for new identities.
    pub default_verification: bool,
    /// Maximum allowed length for KYC details.
    pub max_kyc_length: u32,
}

/// An identity record: encrypted KYC details and a verification status.
pub struct IdentityData {
    /// Encrypted KYC details.
    pub kyc_details: Vec<u8>,
    /// Verification status: true if verified, false otherwise.
    pub verified: bool,
}

/// Events recorded for the runtime's subscribers.
pub enum Event {
    /// An identity was registered: (account, KYC details, verification
    /// status).
    IdentityRegistered(u64, Vec<u8>, bool),
    /// An identity was updated: (account, new KYC details, previous status,
    /// new status).
    IdentityUpdated(u64, Vec<u8>, bool, bool),
}

#[derive(PartialEq, Eq, Structural, Clone, Copy, Debug)]
pub enum Error {
    /// KYC details exceed the maximum allowed length.
    KycTooLong,
    /// Identity already exists for the account.
    IdentityAlreadyExists,
    /// Identity not found for update.
    IdentityNotFound,
}

/// One more log entry was appended: (timestamp, account, previous status,
/// new status, details), with everything earlier untouched.
pub open spec fn history_step(
    old_h: Seq<(u64, u64, bool, bool, Vec<u8>)>,
    new_h: Seq<(u64, u64, bool, bool, Vec<u8>)>,
    account: u64,
    previous: bool,
    next: bool,
    details: Seq<u8>,
) -> bool {
    &&& new_h.len() == old_h.len() + 1
    &&& (forall|i: int| 0 <= i < old_h.len() ==> #[trigger] new_h[i] == old_h[i])
    &&& new_h.last().0 == FIXED_TIMESTAMP
    &&& new_h.last().1 == account
    &&& new_h.last().2 == previous
    &&& new_h.last().3 == next
    &&& new_h.last().4@ == details
}

/// The module's state: per-account identity records, the append-only
/// history of identity events, and the emitted events.
pub struct Pallet {
    pub config: Config,
    pub identities: KeyedStore<IdentityData>,
    pub identity_history: Vec<(u64, u64, bool, bool, Vec<u8>)>,
    pub events: Vec<Event>,
}

impl Pallet {
    /// The record store is well-formed.
    pub open spec fn wf(self) -> bool {
        self.identities.wf()
    }

    /// A fresh module with everything at its storage default.
    pub fn new(config: Config) -> (p: Pallet)
        ensures
            p.wf(),
            p.config == config,
            p.identities@ == Map::<u64, IdentityData>::empty(),
            p.identity_history@ == Seq::<(u64, u64, bool, bool, Vec<u8>)>::empty(),
            p.events@ == Seq::<Event>::empty(),
    {
        Pallet {
            config,
            identities: KeyedStore::new(),
            identity_history: Vec::new(),
            events: Vec::new(),
        }
    }

    /// Registers a new identity for `account` with the provided KYC details
    /// and the default verification status.
    ///
    /// Fails leaving the state unchanged when the details exceed the
    /// configured length bound or when the account already has an identity;
    /// on success the new record, one history entry and one event are
    /// recorded.
    pub fn register_identity(&mut self, account: u64, kyc_details: Vec<u8>) -> (r: Result<
        (),
        Error,
    >)
        requires
            old(self).wf(),
        ensures
            final(self).wf(),
            final(self).config == old(self).config,
            kyc_details@.len() > old(self).config.max_kyc_length ==> {
                &&& r == Err::<(), Error>(Error::KycTooLong)
                &&& *final(self) == *old(self)
            },
            kyc_details@.len() <= old(self).config.max_kyc_length
                && old(self).identities@.contains_key(account) ==> {
                &&& r == Err::<(), Error>(Error::IdentityAlreadyExists)
                &&& *final(self) == *old(self)
            },
            kyc_details@.len() <= old(self).config.max_kyc_length
                && !old(self).identities@.contains_key(account) ==> {
                &&& r == Ok::<(), Error>(())
                &&& final(self).identities@ == old(self).identities@.insert(
                    account,
                    IdentityData {
                        kyc_details,
                        verified: old(self).config.default_verification,
                    },
                )
                &&& history_step(
                    old(self).identity_history@,
                    final(self).identity_history@,
                    account,
                    false,
                    old(self).config.default_verification,
                    kyc_details@,
                )
                &&& final(self).events@.len() == old(self).events@.len() + 1
                &&& (forall|i: int|
                    0 <= i < old(self).events@.len()
                        ==> #[trigger] final(self).events@[i] == old(self).events@[i])
                &&& final(self).events@.last() matches Event::IdentityRegistered(a, d, v)
                    && a == account && d@ == kyc_details@
                    && v == old(self).config.default_verification
            },
    {
        if kyc_details.len() > self.config.max_kyc_length as usize {
            return Err(Error::KycTooLong);
        }
        if self.identities.contains_key(account) {
            return Err(Error::IdentityAlreadyExists);
        }
        let verified = self.config.default_verification;
        let logged = bytes::clone_bytes(&kyc_details);
        let emitted = bytes::clone_bytes(&kyc_details);
        self.identities.insert(account, IdentityData { kyc_details, verified });
        self.identity_history.push((FIXED_TIMESTAMP, account, false, verified, logged));
        self.events.push(Event::IdentityRegistered(account, emitted, verified));
        Ok(())
    }

    /// Replaces the KYC details and verification status of an existing
    /// identity.
    ///
    /// Fails leaving the state unchanged when the details exceed the
    /// configured length bound or when the account has no identity; on
    /// success the replaced record, one history entry carrying the previous
    /// and new status, and one event are recorded.
    pub fn update_identity(
        &mut self,
        account: u64,
        new_kyc_details: Vec<u8>,
        new_verified: bool,
    ) -> (r: Result<(), Error>)
        requires
            old(self).wf(),
        ensures
            final(self).wf(),
            final(self).config == old(self).config,
            new_kyc_details@.len() > old(self).config.max_kyc_length ==> {
                &&& r == Err::<(), Error>(Error::KycTooLong)
                &&& *final(self) == *old(self)
            },
            new_kyc_details@.len() <= old(self).config.max_kyc_length
                && !old(self).identities@.contains_key(account) ==> {
                &&& r == Err::<(), Error>(Error::IdentityNotFound)
                &&& *final(self) == *old(self)
            },
            new_kyc_details@.len() <= old(self).config.max_kyc_length
                && old(self).identities@.contains_key(account) ==> {
                &&& r == Ok::<(), Error>(())
                &&& final(self).identities@ == old(self).identities@.insert(
                    account,
                    IdentityData { kyc_details: new_kyc_details, verified: new_verified },
                )
                &&& history_step(
                    old(self).identity_history@,
                    final(self).identity_history@,
                    account,
                    old(self).identities@[account].verified,
                    new_verified,
                    new_kyc_details@,
                )
                &&& final(self).events@.len() == old(self).events@.len() + 1
                &&& (forall|i: int|
                    0 <= i < old(self).events@.len()
                        ==> #[trigger] final(self).events@[i] == old(self).events@[i])
                &&& final(self).events@.last() matches Event::IdentityUpdated(a, d, p, n)
                    && a == account && d@ == new_kyc_details@
                    && p == old(self).identities@[account].verified && n == new_verified
            },
    {
        if new_kyc_details.len() > self.config.max_kyc_length as usize {
            return Err(Error::KycTooLong);
        }
        let prev_verified = match self.identities.get(account) {
            Some(identity) => identity.verified,
            None => {
                return Err(Error::IdentityNotFound);
            },
        };
        let logged = bytes::clone_bytes(&new_kyc_details);
        let emitted = bytes::clone_bytes(&new_kyc_details);
        self.identities.insert(
            account,
            IdentityData { kyc_details: new_kyc_details, verified: new_verified },
        );
        self.identity_history.push((
            FIXED_TIMESTAMP,
            account,
            prev_verified,
            new_verified,
            logged,
        ));
        self.events.push(Event::IdentityUpdated(account, emitted, prev_verified, new_verified));
        Ok(())
    }
}

} // verus!
