use signal_link::archive::{
    archive_auth_username, archive_info_from_response, backup_download_url, cdn_base,
    check_archive_status, is_not_ready, transfer_archive_url, TransferArchiveInfo,
    TransferArchiveResponse,
};
use signal_link::error::SignalError;
use signal_link::frames::{BackupConversation, BackupData, BackupMessage};
use signal_link::import::{
    convert_backup_conversation, convert_backup_message, import_backup_data, ConversationType,
    MessageDirection, MessageStatus,
};
use signal_link::text::decimal_string;

fn message(conv: &str, body: Option<&str>, outgoing: bool) -> BackupMessage {
    BackupMessage {
        id: "10".to_string(),
        conversation_id: conv.to_string(),
        sender_uuid: "3".to_string(),
        body: body.map(|b| b.to_string()),
        timestamp: 10,
        is_outgoing: outgoing,
    }
}

#[test]
fn archive_request_url_and_user() {
    assert_eq!(transfer_archive_url(), "https://chat.signal.org/v1/devices/transfer_archive?timeout=300");
    assert_eq!(archive_auth_username(&[0x11; 16], 2), "11111111-1111-1111-1111-111111111111.2");
}

#[test]
fn archive_status_meanings() {
    assert!(is_not_ready(204));
    match check_archive_status(204, "") {
        Err(SignalError::NetworkError(m)) => assert!(m.contains("not ready yet (204)")),
        other => panic!("{:?}", other),
    }
    match check_archive_status(404, "nope") {
        Err(SignalError::NetworkError(m)) => assert_eq!(m, "Transfer archive request failed with status 404: nope"),
        other => panic!("{:?}", other),
    }
    assert!(check_archive_status(200, "").is_ok());
}

#[test]
fn archive_response_and_cdn() {
    let info = archive_info_from_response(Some(TransferArchiveResponse::Success(TransferArchiveInfo {
        cdn: 3,
        key: "a/b c".to_string(),
    })))
    .unwrap();
    assert_eq!(backup_download_url(&info).unwrap(), "https://cdn3.signal.org/attachments/a%2Fb%20c");
    match archive_info_from_response(Some(TransferArchiveResponse::Error { error: "gone".to_string() })) {
        Err(SignalError::ProtocolError(m)) => assert_eq!(m, "Transfer archive error: gone"),
        other => panic!("{:?}", other),
    }
    assert!(archive_info_from_response(None).is_err());
    assert_eq!(cdn_base(2).unwrap(), "https://cdn2.signal.org");
    match cdn_base(7) {
        Err(SignalError::ProtocolError(m)) => assert_eq!(m, "Unknown CDN number: 7"),
        other => panic!("{:?}", other),
    }
}

#[test]
fn decimal_text() {
    assert_eq!(decimal_string(0), "0");
    assert_eq!(decimal_string(1234567890), "1234567890");
    assert_eq!(decimal_string(u64::MAX), "18446744073709551615");
}

#[test]
fn conversation_kinds() {
    assert_eq!(ConversationType::Group.as_str(), "group");
    assert_eq!(ConversationType::from_str("note_to_self"), ConversationType::NoteToSelf);
    assert_eq!(ConversationType::from_str("whatever"), ConversationType::Private);
}

#[test]
fn conversations_key_on_group_then_aci_then_id() {
    let group = BackupConversation { id: "1".to_string(), recipient_uuid: None, group_id: Some(vec![0xff]), name: None };
    let c = convert_backup_conversation(&group);
    assert_eq!((c.id.as_str(), c.conversation_type, c.name.as_str()), ("/w==", ConversationType::Group, "Group"));
    let contact = BackupConversation { id: "2".to_string(), recipient_uuid: Some("u".to_string()), group_id: None, name: None };
    let c = convert_backup_conversation(&contact);
    assert_eq!((c.id.as_str(), c.conversation_type, c.name.as_str()), ("u", ConversationType::Private, "u"));
    let bare = BackupConversation { id: "3".to_string(), recipient_uuid: None, group_id: None, name: Some("N".to_string()) };
    let c = convert_backup_conversation(&bare);
    assert_eq!((c.id.as_str(), c.name.as_str()), ("3", "N"));
}

#[test]
fn messages_take_their_conversation_key() {
    let contact = BackupConversation { id: "2".to_string(), recipient_uuid: Some("u".to_string()), group_id: None, name: None };
    let m = convert_backup_message(&message("2", Some("hi"), true), Some(&contact));
    assert_eq!(m.conversation_id, "u");
    assert_eq!(m.sender, "self");
    assert_eq!(m.direction, MessageDirection::Outgoing);
    assert_eq!(m.status, MessageStatus::Read);
    let m = convert_backup_message(&message("5", None, false), None);
    assert_eq!((m.conversation_id.as_str(), m.sender.as_str(), m.body.as_str()), ("5", "3", ""));
}

#[test]
fn import_skips_bodiless_messages_and_repeats_exactly() {
    let data = BackupData {
        messages: vec![message("2", Some("a"), false), message("2", None, false), message("9", Some("b"), false)],
        conversations: vec![BackupConversation { id: "2".to_string(), recipient_uuid: Some("u".to_string()), group_id: None, name: None }],
        frame_count: 4,
    };
    let first = import_backup_data(&data);
    assert_eq!(first.conversations.len(), 1);
    assert_eq!(first.messages.len(), 2);
    assert_eq!(first.messages[0].conversation_id, "u");
    assert_eq!(first.messages[1].conversation_id, "9");
    let second = import_backup_data(&data);
    assert_eq!(
        first.messages.iter().map(|m| (m.id.clone(), m.conversation_id.clone())).collect::<Vec<_>>(),
        second.messages.iter().map(|m| (m.id.clone(), m.conversation_id.clone())).collect::<Vec<_>>()
    );
}

#[test]
fn error_messages() {
    assert_eq!(SignalError::NotRegistered.message(), "Not registered");
    assert_eq!(SignalError::CryptoError("x".to_string()).message(), "Crypto error: x");
}
