use nodara::iot_bridge::{Config, Error, Event, Pallet};

fn test_config() -> Config {
    Config { max_payload_length: 64, base_timeout: 30 }
}

#[test]
fn test_iot_data_submission() {
    let mut pallet = Pallet::new(test_config());
    let id = 1;
    let payload = b"IoT Payload".to_vec();
    let device_id = b"Device01".to_vec();
    let signature = b"ValidSignature".to_vec();
    assert!(pallet.submit_iot_data(id, payload, device_id, signature).is_ok());
}

#[test]
fn submission_stores_the_record_and_logs() {
    let mut pallet = Pallet::new(test_config());
    pallet
        .submit_iot_data(7, b"reading".to_vec(), b"sensor-a".to_vec(), b"sig".to_vec())
        .unwrap();
    let record = pallet.iot_data.get(7).unwrap();
    assert_eq!(record.payload, b"reading".to_vec());
    assert_eq!(record.device_id, b"sensor-a".to_vec());
    let entry = pallet.iot_history.last().unwrap();
    assert_eq!(entry.1, 7);
    assert_eq!(entry.2, b"sensor-a".to_vec());
    assert_eq!(entry.3, b"reading".to_vec());
    match pallet.events.last().unwrap() {
        Event::IotDataSubmitted(id, payload) => {
            assert_eq!(*id, 7);
            assert_eq!(payload, &b"reading".to_vec());
        }
        _ => panic!("expected a submission event"),
    }
}

#[test]
fn submission_rejects_long_payload() {
    let mut pallet = Pallet::new(test_config());
    let long = vec![0u8; 65];
    assert_eq!(
        pallet.submit_iot_data(1, long, b"dev".to_vec(), b"sig".to_vec()),
        Err(Error::PayloadTooLong)
    );
}

#[test]
fn submission_rejects_empty_device_id() {
    let mut pallet = Pallet::new(test_config());
    assert_eq!(
        pallet.submit_iot_data(1, b"data".to_vec(), Vec::new(), b"sig".to_vec()),
        Err(Error::InvalidDeviceId)
    );
}

#[test]
fn submission_rejects_failed_verification() {
    let mut pallet = Pallet::new(test_config());
    assert_eq!(
        pallet.submit_iot_data(1, b"data".to_vec(), b"dev".to_vec(), Vec::new()),
        Err(Error::DataVerificationFailed)
    );
    assert!(pallet.iot_data.get(1).is_none());
}

#[test]
fn bridge_config_update_requires_nonempty_configuration() {
    let mut pallet = Pallet::new(test_config());
    assert_eq!(
        pallet.update_config(Vec::new(), b"note".to_vec()),
        Err(Error::DataProcessingError)
    );
    assert!(pallet.update_config(b"cfg".to_vec(), b"note".to_vec()).is_ok());
    let entry = pallet.iot_history.last().unwrap();
    assert_eq!(entry.1, 0);
    assert_eq!(entry.2, b"ConfigUpdate".to_vec());
    assert_eq!(entry.3, b"note".to_vec());
    assert_eq!(entry.4, b"cfg".to_vec());
}
