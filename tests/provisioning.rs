use signal_link::error::SignalError;
use signal_link::provisioning::{
    captured_from, classify_request, full_provision_message, get_ephemeral_backup_key,
    has_backup_key, provisioning_url, provisioning_url_for_key, store_captured_data,
    take_captured_data, CapturedProvisioningData, CapturedSecrets, ProvisionMessageFields,
    ProvisioningRequestKind,
};

fn complete_fields() -> ProvisionMessageFields {
    ProvisionMessageFields {
        number: Some("+15550001".to_string()),
        aci: Some("aci".to_string()),
        pni: None,
        provisioning_code: Some("code".to_string()),
        aci_identity_key_public: Some(vec![1]),
        aci_identity_key_private: Some(vec![2]),
        pni_identity_key_public: Some(vec![3]),
        pni_identity_key_private: Some(vec![4]),
        profile_key: Some(vec![5; 32]),
        ephemeral_backup_key: Some(vec![6; 32]),
        master_key: None,
        media_root_backup_key: None,
    }
}

#[test]
fn test_captured_data_storage() {
    let mut cell = CapturedSecrets::new();
    let _ = take_captured_data(&mut cell);

    let data = CapturedProvisioningData {
        ephemeral_backup_key: Some(vec![1, 2, 3, 4]),
        master_key: Some(vec![5, 6, 7, 8]),
        media_root_backup_key: None,
    };

    store_captured_data(&mut cell, data.clone());
    assert!(has_backup_key(&cell));

    let retrieved = take_captured_data(&mut cell);
    assert!(retrieved.is_some());
    assert_eq!(retrieved.unwrap().ephemeral_backup_key, Some(vec![1, 2, 3, 4]));

    assert!(!has_backup_key(&cell));
}

#[test]
fn test_no_backup_key() {
    let mut cell = CapturedSecrets::new();
    let _ = take_captured_data(&mut cell);
    assert!(!has_backup_key(&cell));
    assert!(get_ephemeral_backup_key(&cell).is_none());
}

#[test]
fn test_provisioning_url_format() {
    let test_uuid = "test-uuid-1234";
    let test_pubkey = "dGVzdC1wdWJrZXk=";

    let url_str = provisioning_url(test_uuid, test_pubkey);
    assert!(url_str.contains("uuid=test-uuid-1234"));
    assert!(url_str.contains("pub_key="));
    assert!(url_str.contains("capabilities=backup4%2Cbackup5"));
}

#[test]
fn provisioning_url_is_exact() {
    assert_eq!(
        provisioning_url("a b", "dGVzdC1wdWJrZXk="),
        "sgnl://linkdevice?uuid=a+b&pub_key=dGVzdC1wdWJrZXk%3D&capabilities=backup4%2Cbackup5"
    );
    assert_eq!(
        provisioning_url_for_key("u", b"test-pubkey"),
        "sgnl://linkdevice?uuid=u&pub_key=dGVzdC1wdWJrZXk%3D&capabilities=backup4%2Cbackup5"
    );
}

#[test]
fn get_key_leaves_the_cell_full() {
    let mut cell = CapturedSecrets::new();
    let mut data = CapturedProvisioningData::new();
    data.ephemeral_backup_key = Some(vec![9; 32]);
    store_captured_data(&mut cell, data);
    assert_eq!(get_ephemeral_backup_key(&cell), Some(vec![9; 32]));
    assert!(has_backup_key(&cell));
    assert!(take_captured_data(&mut cell).is_some());
    assert!(take_captured_data(&mut cell).is_none());
}

#[test]
fn requests_are_classified() {
    assert_eq!(classify_request("PUT", "/v1/address").unwrap(), ProvisioningRequestKind::Address);
    assert_eq!(classify_request("PUT", "/v1/message").unwrap(), ProvisioningRequestKind::Message);
    match classify_request("GET", "/v1/address") {
        Err(SignalError::ProtocolError(m)) => assert_eq!(m, "Unknown request: GET /v1/address"),
        other => panic!("{:?}", other),
    }
}

#[test]
fn provision_message_needs_its_fields() {
    let msg = full_provision_message(complete_fields()).unwrap();
    assert_eq!(msg.phone_number, "+15550001");
    assert_eq!(msg.profile_key, vec![5; 32]);
    let captured = captured_from(&msg);
    assert_eq!(captured.ephemeral_backup_key, Some(vec![6; 32]));
    assert_eq!(captured.master_key, None);

    let mut f = complete_fields();
    f.number = None;
    f.profile_key = None;
    match full_provision_message(f) {
        Err(SignalError::ProtocolError(m)) => assert_eq!(m, "Missing phone number"),
        other => panic!("{:?}", other),
    }
    let mut f = complete_fields();
    f.pni_identity_key_private = None;
    match full_provision_message(f) {
        Err(SignalError::ProtocolError(m)) => assert_eq!(m, "Missing PNI private key"),
        other => panic!("{:?}", other),
    }
}
