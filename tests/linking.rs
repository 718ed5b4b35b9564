use signal_link::error::SignalError;
use signal_link::linking::{
    history_available_event, history_sync_credentials, history_sync_finished_event,
    history_sync_progress, linking_finished_event, message_count, IdentityKeyPair,
    RegistrationResult,
};
use signal_link::provisioning::{full_provision_message, ProvisionMessageFields};
use signal_link::transport::SignalEvent;

fn keys() -> IdentityKeyPair {
    IdentityKeyPair { public_key: vec![5; 33], private_key: vec![1; 32] }
}

#[test]
fn sync_credentials_are_aci_dot_device() {
    let reg = RegistrationResult {
        phone_number: "+1".to_string(),
        device_id: 3,
        registration_id: 10,
        pni_registration_id: 11,
        aci: [0xab; 16],
        pni: [0; 16],
        aci_identity_key_pair: keys(),
        pni_identity_key_pair: keys(),
        profile_key: vec![0; 32],
        password: "pw".to_string(),
    };
    let (user, pass) = history_sync_credentials(&reg);
    assert_eq!(user, "abababab-abab-abab-abab-abababababab.3");
    assert_eq!(pass, "pw");
}

#[test]
fn linking_events() {
    let fields = ProvisionMessageFields {
        number: Some("+1".to_string()),
        aci: None,
        pni: None,
        provisioning_code: Some("c".to_string()),
        aci_identity_key_public: Some(vec![]),
        aci_identity_key_private: Some(vec![]),
        pni_identity_key_public: Some(vec![]),
        pni_identity_key_private: Some(vec![]),
        profile_key: Some(vec![]),
        ephemeral_backup_key: Some(vec![1]),
        master_key: None,
        media_root_backup_key: None,
    };
    let msg = full_provision_message(fields.clone()).unwrap();
    assert!(matches!(history_available_event(&msg), Some(SignalEvent::MessageHistoryAvailable)));
    let no_key = full_provision_message(ProvisionMessageFields { ephemeral_backup_key: None, ..fields }).unwrap();
    assert!(history_available_event(&no_key).is_none());
    assert!(matches!(linking_finished_event(&Ok(())), SignalEvent::LinkingCompleted));
    match linking_finished_event(&Err(SignalError::LinkingFailed("boom".to_string()))) {
        SignalEvent::LinkingFailed(m) => assert_eq!(m, "Linking failed: boom"),
        other => panic!("{:?}", other),
    }
}

#[test]
fn history_sync_events() {
    match history_sync_progress(9) {
        (
            SignalEvent::MessageHistorySyncProgress { current: 0, total: 0 },
            SignalEvent::MessageHistorySyncProgress { current: 4, total: 9 },
            SignalEvent::MessageHistorySyncProgress { current: 9, total: 9 },
        ) => {}
        other => panic!("{:?}", other),
    }
    assert!(matches!(
        history_sync_finished_event(&Ok(12)),
        SignalEvent::MessageHistorySyncCompleted { message_count: 12 }
    ));
    match history_sync_finished_event(&Err(SignalError::NetworkError("down".to_string()))) {
        SignalEvent::MessageHistorySyncFailed(m) => assert_eq!(m, "Network error: down"),
        other => panic!("{:?}", other),
    }
    assert_eq!(message_count(7), 7);
    assert_eq!(message_count((1usize << 32) + 5), 5);
}
