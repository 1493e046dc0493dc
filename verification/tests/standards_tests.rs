use nodara::standards::{Config, Error, Event, Pallet};

fn test_config() -> Config {
    Config { max_standard_length: 100 }
}

#[test]
fn test_standard_definition_and_verification() {
    let mut pallet = Pallet::new(test_config());
    let id = b"Standard1".to_vec();
    let description = b"Initial Description".to_vec();
    let parameters = b"Params".to_vec();
    // Define a new standard.
    assert!(pallet.define_standard(id.clone(), description, parameters).is_ok());
    // Verify compliance: simulate an operation that contains the parameter.
    let operation_data = b"Operation containing Params".to_vec();
    let result = pallet.verify_compliance(id.clone(), operation_data);
    assert!(result.is_ok());
    assert!(result.unwrap());
}

#[test]
fn definition_rejects_oversized_standards() {
    let mut pallet = Pallet::new(test_config());
    let description = vec![b'd'; 60];
    let parameters = vec![b'p'; 41];
    assert_eq!(
        pallet.define_standard(b"big".to_vec(), description, parameters),
        Err(Error::StandardTooLong)
    );
    assert!(!pallet.contains_standard(&b"big".to_vec()));
}

#[test]
fn definition_rejects_duplicate_identifiers() {
    let mut pallet = Pallet::new(test_config());
    pallet
        .define_standard(b"s".to_vec(), b"one".to_vec(), b"p1".to_vec())
        .unwrap();
    assert_eq!(
        pallet.define_standard(b"s".to_vec(), b"two".to_vec(), b"p2".to_vec()),
        Err(Error::StandardAlreadyExists)
    );
    let standard = pallet.get_standard(&b"s".to_vec()).unwrap();
    assert_eq!(standard.description, b"one".to_vec());
}

#[test]
fn update_replaces_description_and_parameters() {
    let mut pallet = Pallet::new(test_config());
    pallet
        .define_standard(b"s".to_vec(), b"one".to_vec(), b"p1".to_vec())
        .unwrap();
    assert_eq!(
        pallet.update_standard(b"missing".to_vec(), b"x".to_vec(), b"y".to_vec()),
        Err(Error::StandardNotFound)
    );
    assert!(pallet
        .update_standard(b"s".to_vec(), b"two".to_vec(), b"p2".to_vec())
        .is_ok());
    let standard = pallet.get_standard(&b"s".to_vec()).unwrap();
    assert_eq!(standard.id, b"s".to_vec());
    assert_eq!(standard.description, b"two".to_vec());
    assert_eq!(standard.parameters, b"p2".to_vec());
    match pallet.events.last().unwrap() {
        Event::StandardUpdated(id) => assert_eq!(id, &b"s".to_vec()),
        _ => panic!("expected an update event"),
    }
}

#[test]
fn compliance_fails_when_parameters_are_absent() {
    let mut pallet = Pallet::new(test_config());
    pallet
        .define_standard(b"s".to_vec(), b"desc".to_vec(), b"Params".to_vec())
        .unwrap();
    assert_eq!(
        pallet.verify_compliance(b"s".to_vec(), b"nothing to see".to_vec()),
        Ok(false)
    );
    let entry = pallet.compliance_history.last().unwrap();
    assert_eq!(entry.1, b"s".to_vec());
    assert_eq!(entry.2, b"nothing to see".to_vec());
    assert!(!entry.3);
}

#[test]
fn compliance_requires_a_known_standard() {
    let mut pallet = Pallet::new(test_config());
    assert_eq!(
        pallet.verify_compliance(b"none".to_vec(), b"data".to_vec()),
        Err(Error::StandardNotFound)
    );
    assert!(pallet.compliance_history.is_empty());
}

#[test]
fn compliance_with_empty_parameters_always_holds() {
    let mut pallet = Pallet::new(test_config());
    pallet
        .define_standard(b"open".to_vec(), b"desc".to_vec(), Vec::new())
        .unwrap();
    assert_eq!(pallet.verify_compliance(b"open".to_vec(), Vec::new()), Ok(true));
    assert_eq!(
        pallet.verify_compliance(b"open".to_vec(), b"anything".to_vec()),
        Ok(true)
    );
}
