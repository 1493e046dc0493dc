use nodara::interop::{Config, Error, Event, Pallet};

fn test_config() -> Config {
    Config { base_timeout: 30, max_payload_length: 32 }
}

#[test]
fn send_message_stores_and_logs() {
    let mut pallet = Pallet::new(test_config());
    assert!(pallet.send_message(1, b"hello".to_vec(), b"sig".to_vec()).is_ok());
    let message = pallet.outgoing_messages.get(1).unwrap();
    assert_eq!(message.payload, b"hello".to_vec());
    assert_eq!(message.signature, b"sig".to_vec());
    let entry = pallet.interop_history.last().unwrap();
    assert_eq!(entry.1, 1);
    assert_eq!(entry.2, b"Send".to_vec());
    assert_eq!(entry.3, b"hello".to_vec());
    match pallet.events.last().unwrap() {
        Event::MessageSent(id, payload) => {
            assert_eq!(*id, 1);
            assert_eq!(payload, &b"hello".to_vec());
        }
        _ => panic!("expected a sent event"),
    }
}

#[test]
fn send_message_rejects_long_payload() {
    let mut pallet = Pallet::new(test_config());
    let long = vec![0u8; 33];
    assert_eq!(pallet.send_message(1, long, b"sig".to_vec()), Err(Error::PayloadTooLong));
    assert!(pallet.outgoing_messages.get(1).is_none());
}

#[test]
fn send_message_replaces_an_earlier_message() {
    let mut pallet = Pallet::new(test_config());
    pallet.send_message(1, b"first".to_vec(), b"s1".to_vec()).unwrap();
    pallet.send_message(1, b"second".to_vec(), b"s2".to_vec()).unwrap();
    assert_eq!(pallet.outgoing_messages.get(1).unwrap().payload, b"second".to_vec());
    assert_eq!(pallet.interop_history.len(), 2);
}

#[test]
fn receive_message_verifies_the_signature_stub() {
    let mut pallet = Pallet::new(test_config());
    assert_eq!(
        pallet.receive_message(2, b"data".to_vec(), Vec::new()),
        Err(Error::VerificationFailed)
    );
    assert_eq!(
        pallet.receive_message(2, Vec::new(), b"sig".to_vec()),
        Err(Error::VerificationFailed)
    );
    assert!(pallet.incoming_messages.get(2).is_none());
    assert!(pallet.receive_message(2, b"data".to_vec(), b"sig".to_vec()).is_ok());
    assert_eq!(pallet.incoming_messages.get(2).unwrap().payload, b"data".to_vec());
    let entry = pallet.interop_history.last().unwrap();
    assert_eq!(entry.2, b"Receive".to_vec());
}

#[test]
fn config_update_requires_a_nonempty_configuration() {
    let mut pallet = Pallet::new(test_config());
    assert_eq!(
        pallet.update_config(Vec::new(), b"why".to_vec()),
        Err(Error::InvalidConfig)
    );
    assert!(pallet.update_config(b"cfg".to_vec(), b"why".to_vec()).is_ok());
    let entry = pallet.interop_history.last().unwrap();
    assert_eq!(entry.1, 0);
    assert_eq!(entry.2, b"ConfigUpdate".to_vec());
    assert_eq!(entry.3, b"why".to_vec());
    match pallet.events.last().unwrap() {
        Event::ConfigUpdated(config, details) => {
            assert_eq!(config, &b"cfg".to_vec());
            assert_eq!(details, &b"why".to_vec());
        }
        _ => panic!("expected a config update event"),
    }
}
