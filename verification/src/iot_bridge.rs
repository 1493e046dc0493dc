//! IoT bridge: device data records with a length-checked payload and a
//! stubbed integrity verification, every submission logged.

use vstd::prelude::*;
use vstd::string::StrSliceExecFns;
use vstd::string::StringSliceAdditionalSpecFns;

use crate::bytes;
use crate::store::KeyedStore;
use crate::FIXED_TIMESTAMP;

verus! {

/// Configuration constants fixed when the module is assembled into a runtime.
#[derive(PartialEq, Eq, Structural, Clone, Copy, Debug)]
pub struct Config {
    /// Maximum allowed payload length for IoT data.
    pub max_payload_length: u32,
    /// Base timeout (in seconds) for data validity.
    pub base_timeout: u64,
}

/// A data record submitted by an IoT device.
pub struct IotRecord {
    /// Unique identifier for the IoT message.
    pub id: u64,
    /// Data payload from the IoT device.
    pub payload: Vec<u8>,
    /// Device identifier (e.g., a serial number).
    pub device_id: Vec<u8>,
    /// Timestamp of data submission.
    pub timestamp: u64,
    /// Cryptographic signature verifying the data.
    pub signature: Vec<u8>,
}

/// Events recorded for the runtime's subscribers.
pub enum Event {
    /// IoT data was successfully submitted: (message ID, payload).
    IotDataSubmitted(u64, Vec<u8>),
    /// The bridge configuration was updated: (new configuration, details).
    ConfigUpdated(Vec<u8>, Vec<u8>),
}

#[derive(PartialEq, Eq, Structural, Clone, Copy, Debug)]
pub enum Error {
    /// The payload exceeds the maximum allowed length.
    PayloadTooLong,
    /// IoT data verification failed.
    DataVerificationFailed,
    /// Invalid device identifier.
    InvalidDeviceId,
    /// Data processing error.
    DataProcessingError,
}

/// One more log entry was appended: (timestamp, message ID, device ID,
/// payload, signature), with everything earlier untouched.
pub open spec fn history_step(
    old_h: Seq<(u64, u64, Vec<u8>, Vec<u8>, Vec<u8>)>,
    new_h: Seq<(u64, u64, Vec<u8>, Vec<u8>, Vec<u8>)>,
    id: u64,
    device: Seq<u8>,
    payload: Seq<u8>,
    signature: Seq<u8>,
) -> bool {
    &&& new_h.len() == old_h.len() + 1
    &&& (forall|i: int| 0 <= i < old_h.len() ==> #[trigger] new_h[i] == old_h[i])
    &&& new_h.last().0 == FIXED_TIMESTAMP
    &&& new_h.last().1 == id
    &&& new_h.last().2@ == device
    &&& new_h.last().3@ == payload
    &&& new_h.last().4@ == signature
}

/// One more event was recorded, with everything earlier untouched.
pub open spec fn event_step(old_e: Seq<Event>, new_e: Seq<Event>) -> bool {
    &&& new_e.len() == old_e.len() + 1
    &&& (forall|i: int| 0 <= i < old_e.len() ==> #[trigger] new_e[i] == old_e[i])
}

/// The module's state: the per-identifier data records, the append-only
/// history of submissions, and the emitted events.
pub struct Pallet {
    pub config: Config,
    pub iot_data: KeyedStore<IotRecord>,
    pub iot_history: Vec<(u64, u64, Vec<u8>, Vec<u8>, Vec<u8>)>,
    pub events: Vec<Event>,
}

impl Pallet {
    /// The record store is well-formed.
    pub open spec fn wf(self) -> bool {
        self.iot_data.wf()
    }

    /// A fresh module with everything at its storage default.
    pub fn new(config: Config) -> (p: Pallet)
        ensures
            p.wf(),
            p.config == config,
            p.iot_data@ == Map::<u64, IotRecord>::empty(),
            p.iot_history@ == Seq::<(u64, u64, Vec<u8>, Vec<u8>, Vec<u8>)>::empty(),
            p.events@ == Seq::<Event>::empty(),
    {
        Pallet { config, iot_data: KeyedStore::new(), iot_history: Vec::new(), events: Vec::new() }
    }

    /// Stores a device's data record after checking its integrity: the
    /// record is stored under its identifier, replacing any earlier record
    /// with the same identifier.
    ///
    /// Fails leaving the state unchanged when the payload exceeds the
    /// configured length bound, when the device identifier is empty, or when
    /// the stubbed verification rejects the data, that is when the payload
    /// or the signature is empty; on success one history entry and one
    /// `IotDataSubmitted` event are recorded.
    pub fn submit_iot_data(
        &mut self,
        id: u64,
        payload: Vec<u8>,
        device_id: Vec<u8>,
        signature: Vec<u8>,
    ) -> (r: Result<(), Error>)
        requires
            old(self).wf(),
        ensures
            final(self).wf(),
            final(self).config == old(self).config,
            payload@.len() > old(self).config.max_payload_length ==> {
                &&& r == Err::<(), Error>(Error::PayloadTooLong)
                &&& *final(self) == *old(self)
            },
            payload@.len() <= old(self).config.max_payload_length && device_id@.len() == 0 ==> {
                &&& r == Err::<(), Error>(Error::InvalidDeviceId)
                &&& *final(self) == *old(self)
            },
            payload@.len() <= old(self).config.max_payload_length && device_id@.len() > 0
                && !(payload@.len() > 0 && signature@.len() > 0) ==> {
                &&& r == Err::<(), Error>(Error::DataVerificationFailed)
                &&& *final(self) == *old(self)
            },
            payload@.len() <= old(self).config.max_payload_length && device_id@.len() > 0
                && payload@.len() > 0 && signature@.len() > 0 ==> {
                &&& r == Ok::<(), Error>(())
                &&& final(self).iot_data@ == old(self).iot_data@.insert(
                    id,
                    IotRecord { id, payload, device_id, timestamp: FIXED_TIMESTAMP, signature },
                )
                &&& history_step(
                    old(self).iot_history@,
                    final(self).iot_history@,
                    id,
                    device_id@,
                    payload@,
                    signature@,
                )
                &&& event_step(old(self).events@, final(self).events@)
                &&& final(self).events@.last() matches Event::IotDataSubmitted(i, p) && i == id
                    && p@ == payload@
            },
    {
        if payload.len() > self.config.max_payload_length as usize {
            return Err(Error::PayloadTooLong);
        }
        if device_id.is_empty() {
            return Err(Error::InvalidDeviceId);
        }
        if !Self::verify_data(&payload, &signature) {
            return Err(Error::DataVerificationFailed);
        }
        let logged_device = bytes::clone_bytes(&device_id);
        let logged_payload = bytes::clone_bytes(&payload);
        let logged_signature = bytes::clone_bytes(&signature);
        let emitted = bytes::clone_bytes(&payload);
        let record = IotRecord { id, payload, device_id, timestamp: FIXED_TIMESTAMP, signature };
        self.iot_data.insert(id, record);
        self.iot_history.push((
            FIXED_TIMESTAMP,
            id,
            logged_device,
            logged_payload,
            logged_signature,
        ));
        self.events.push(Event::IotDataSubmitted(id, emitted));
        Ok(())
    }

    /// Records a configuration update decided by governance.
    ///
    /// Fails leaving the state unchanged when the new configuration is
    /// empty; on success one history entry under message ID 0 carries the
    /// details and the new configuration, and a `ConfigUpdated` event
    /// carries both.
    pub fn update_config(&mut self, new_config: Vec<u8>, details: Vec<u8>) -> (r: Result<
        (),
        Error,
    >)
        ensures
            final(self).config == old(self).config,
            new_config@.len() == 0 ==> {
                &&& r == Err::<(), Error>(Error::DataProcessingError)
                &&& *final(self) == *old(self)
            },
            new_config@.len() > 0 ==> {
                &&& r == Ok::<(), Error>(())
                &&& final(self).iot_data == old(self).iot_data
                &&& history_step(
                    old(self).iot_history@,
                    final(self).iot_history@,
                    0u64,
                    "ConfigUpdate".spec_bytes(),
                    details@,
                    new_config@,
                )
                &&& event_step(old(self).events@, final(self).events@)
                &&& final(self).events@.last() matches Event::ConfigUpdated(c, d)
                    && c@ == new_config@ && d@ == details@
            },
    {
        if new_config.is_empty() {
            return Err(Error::DataProcessingError);
        }
        let logged_details = bytes::clone_bytes(&details);
        let logged_config = bytes::clone_bytes(&new_config);
        self.iot_history.push((
            FIXED_TIMESTAMP,
            0,
            "ConfigUpdate".as_bytes_vec(),
            logged_details,
            logged_config,
        ));
        self.events.push(Event::ConfigUpdated(new_config, details));
        Ok(())
    }

    /// Stubbed integrity verification: data passes when both the payload and
    /// the signature are non-empty.
    fn verify_data(payload: &Vec<u8>, signature: &Vec<u8>) -> (r: bool)
        ensures
            r == (payload@.len() > 0 && signature@.len() > 0),
    {
        !payload.is_empty() && !signature.is_empty()
    }
}

} // verus!
