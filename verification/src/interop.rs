//! Cross-chain communication: outgoing and incoming messages with a
//! length-checked payload and a stubbed signature verification, every
//! operation logged.

use vstd::prelude::*;
use vstd::string::StrSliceExecFns;
use vstd::string::StringSliceAdditionalSpecFns;

use crate::bytes;
use crate::store::KeyedStore;
use crate::FIXED_TIMESTAMP;

verus! {

/// Configuration constants fixed when the module is assembled into a runtime.
#[derive(PartialEq, Eq, Structural, Clone, Copy, Debug)]
pub struct Config {
    /// Base timeout for message validity (in seconds).
    pub base_timeout: u64,
    /// Maximum allowed payload length for interop messages.
    pub max_payload_length: u32,
}

/// A message exchanged with an external chain.
pub struct InteropMessage {
    /// Unique message identifier.
    pub id: u64,
    /// Payload of the message.
    pub payload: Vec<u8>,
    /// Timestamp when the message was sent.
    pub timestamp: u64,
    /// Cryptographic signature.
    pub signature: Vec<u8>,
}

/// Events recorded for the runtime's subscribers.
pub enum Event {
    /// A message was sent: (message ID, payload details).
    MessageSent(u64, Vec<u8>),
    /// A message was received: (message ID, payload details).
    MessageReceived(u64, Vec<u8>),
    /// The interop configuration was updated: (new configuration, details).
    ConfigUpdated(Vec<u8>, Vec<u8>),
}

#[derive(PartialEq, Eq, Structural, Clone, Copy, Debug)]
pub enum Error {
    /// Payload length exceeds the maximum allowed limit.
    PayloadTooLong,
    /// Message signature verification failed.
    VerificationFailed,
    /// Invalid configuration parameters.
    InvalidConfig,
}

/// One more log entry was appended: (timestamp, message ID, operation type,
/// details), with everything earlier untouched.
pub open spec fn history_step(
    old_h: Seq<(u64, u64, Vec<u8>, Vec<u8>)>,
    new_h: Seq<(u64, u64, Vec<u8>, Vec<u8>)>,
    id: u64,
    op: Seq<u8>,
    details: Seq<u8>,
) -> bool {
    &&& new_h.len() == old_h.len() + 1
    &&& (forall|i: int| 0 <= i < old_h.len() ==> #[trigger] new_h[i] == old_h[i])
    &&& new_h.last().0 == FIXED_TIMESTAMP
    &&& new_h.last().1 == id
    &&& new_h.last().2@ == op
    &&& new_h.last().3@ == details
}

/// One more event was recorded, with everything earlier untouched.
pub open spec fn event_step(old_e: Seq<Event>, new_e: Seq<Event>) -> bool {
    &&& new_e.len() == old_e.len() + 1
    &&& (forall|i: int| 0 <= i < old_e.len() ==> #[trigger] new_e[i] == old_e[i])
}

/// The module's state: outgoing and incoming message stores, the append-only
/// history of interop events, and the emitted events.
pub struct Pallet {
    pub config: Config,
    pub outgoing_messages: KeyedStore<InteropMessage>,
    pub incoming_messages: KeyedStore<InteropMessage>,
    pub interop_history: Vec<(u64, u64, Vec<u8>, Vec<u8>)>,
    pub events: Vec<Event>,
}

impl Pallet {
    /// The message stores are well-formed.
    pub open spec fn wf(self) -> bool {
        self.outgoing_messages.wf() && self.incoming_messages.wf()
    }

    /// A fresh module with everything at its storage default.
    pub fn new(config: Config) -> (p: Pallet)
        ensures
            p.wf(),
            p.config == config,
            p.outgoing_messages@ == Map::<u64, InteropMessage>::empty(),
            p.incoming_messages@ == Map::<u64, InteropMessage>::empty(),
            p.interop_history@ == Seq::<(u64, u64, Vec<u8>, Vec<u8>)>::empty(),
            p.events@ == Seq::<Event>::empty(),
    {
        Pallet {
            config,
            outgoing_messages: KeyedStore::new(),
            incoming_messages: KeyedStore::new(),
            interop_history: Vec::new(),
            events: Vec::new(),
        }
    }

    /// Sends a message to an external chain: the message is stored under its
    /// identifier, replacing any earlier message with the same identifier.
    ///
    /// Fails leaving the state unchanged when the payload exceeds the
    /// configured length bound; on success a "Send" history entry and a
    /// `MessageSent` event carry the payload.
    pub fn send_message(&mut self, id: u64, payload: Vec<u8>, signature: Vec<u8>) -> (r: Result<
        (),
        Error,
    >)
        requires
            old(self).wf(),
        ensures
            final(self).wf(),
            final(self).config == old(self).config,
            payload@.len() > old(self).config.max_payload_length ==> {
                &&& r == Err::<(), Error>(Error::PayloadTooLong)
                &&& *final(self) == *old(self)
            },
            payload@.len() <= old(self).config.max_payload_length ==> {
                &&& r == Ok::<(), Error>(())
                &&& final(self).outgoing_messages@ == old(self).outgoing_messages@.insert(
                    id,
                    InteropMessage { id, payload, timestamp: FIXED_TIMESTAMP, signature },
                )
                &&& final(self).incoming_messages == old(self).incoming_messages
                &&& history_step(
                    old(self).interop_history@,
                    final(self).interop_history@,
                    id,
                    "Send".spec_bytes(),
                    payload@,
                )
                &&& event_step(old(self).events@, final(self).events@)
                &&& final(self).events@.last() matches Event::MessageSent(i, p) && i == id
                    && p@ == payload@
            },
    {
        if payload.len() > self.config.max_payload_length as usize {
            return Err(Error::PayloadTooLong);
        }
        let logged = bytes::clone_bytes(&payload);
        let emitted = bytes::clone_bytes(&payload);
        let message = InteropMessage { id, payload, timestamp: FIXED_TIMESTAMP, signature };
        self.outgoing_messages.insert(id, message);
        self.interop_history.push((FIXED_TIMESTAMP, id, "Send".as_bytes_vec(), logged));
        self.events.push(Event::MessageSent(id, emitted));
        Ok(())
    }

    /// Receives a message from an external chain: after the signature check
    /// the message is stored under its identifier, replacing any earlier
    /// message with the same identifier.
    ///
    /// Fails leaving the state unchanged when the stubbed verification
    /// rejects the message, that is when the payload or the signature is
    /// empty; on success a "Receive" history entry and a `MessageReceived`
    /// event carry the payload.
    pub fn receive_message(&mut self, id: u64, payload: Vec<u8>, signature: Vec<u8>) -> (r: Result<
        (),
        Error,
    >)
        requires
            old(self).wf(),
        ensures
            final(self).wf(),
            final(self).config == old(self).config,
            !(payload@.len() > 0 && signature@.len() > 0) ==> {
                &&& r == Err::<(), Error>(Error::VerificationFailed)
                &&& *final(self) == *old(self)
            },
            payload@.len() > 0 && signature@.len() > 0 ==> {
                &&& r == Ok::<(), Error>(())
                &&& final(self).incoming_messages@ == old(self).incoming_messages@.insert(
                    id,
                    InteropMessage { id, payload, timestamp: FIXED_TIMESTAMP, signature },
                )
                &&& final(self).outgoing_messages == old(self).outgoing_messages
                &&& history_step(
                    old(self).interop_history@,
                    final(self).interop_history@,
                    id,
                    "Receive".spec_bytes(),
                    payload@,
                )
                &&& event_step(old(self).events@, final(self).events@)
                &&& final(self).events@.last() matches Event::MessageReceived(i, p) && i == id
                    && p@ == payload@
            },
    {
        if !Self::verify_signature(&payload, &signature) {
            return Err(Error::VerificationFailed);
        }
        let logged = bytes::clone_bytes(&payload);
        let emitted = bytes::clone_bytes(&payload);
        let message = InteropMessage { id, payload, timestamp: FIXED_TIMESTAMP, signature };
        self.incoming_messages.insert(id, message);
        self.interop_history.push((FIXED_TIMESTAMP, id, "Receive".as_bytes_vec(), logged));
        self.events.push(Event::MessageReceived(id, emitted));
        Ok(())
    }

    /// Records a configuration update decided by governance.
    ///
    /// Fails leaving the state unchanged when the new configuration is
    /// empty; on success a "ConfigUpdate" history entry under message ID 0
    /// carries the details, and a `ConfigUpdated` event carries both.
    pub fn update_config(&mut self, new_config: Vec<u8>, details: Vec<u8>) -> (r: Result<
        (),
        Error,
    >)
        ensures
            final(self).config == old(self).config,
            new_config@.len() == 0 ==> {
                &&& r == Err::<(), Error>(Error::InvalidConfig)
                &&& *final(self) == *old(self)
            },
            new_config@.len() > 0 ==> {
                &&& r == Ok::<(), Error>(())
                &&& final(self).outgoing_messages == old(self).outgoing_messages
                &&& final(self).incoming_messages == old(self).incoming_messages
                &&& history_step(
                    old(self).interop_history@,
                    final(self).interop_history@,
                    0u64,
                    "ConfigUpdate".spec_bytes(),
                    details@,
                )
                &&& event_step(old(self).events@, final(self).events@)
                &&& final(self).events@.last() matches Event::ConfigUpdated(c, d)
                    && c@ == new_config@ && d@ == details@
            },
    {
        if new_config.is_empty() {
            return Err(Error::InvalidConfig);
        }
        let logged = bytes::clone_bytes(&details);
        self.interop_history.push((FIXED_TIMESTAMP, 0, "ConfigUpdate".as_bytes_vec(), logged));
        self.events.push(Event::ConfigUpdated(new_config, details));
        Ok(())
    }

    /// Stubbed signature verification: a message passes when both the
    /// payload and the signature are non-empty.
    fn verify_signature(payload: &Vec<u8>, signature: &Vec<u8>) -> (r: bool)
        ensures
            r == (payload@.len() > 0 && signature@.len() > 0),
    {
        !payload.is_empty() && !signature.is_empty()
    }
}

} // verus!
