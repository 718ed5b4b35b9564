use signal_link::error::SignalError;
use signal_link::import::{MessageDirection, MessageStatus};
use signal_link::messages::{incoming_to_message, stored_content, Content};
use signal_link::transport::{
    contacts_merged_event, direct_message_command, group_message_command, on_inbound, process_data_message, process_sync_message,
    ConnectionState, DataMessageFields, Inbound, InboundAction, MessageContent, SendCommand,
    IncomingMessage, SentFields, SignalEvent, TransportSession,
};

fn dm(n: u32) -> SendCommand<u32> {
    SendCommand::DirectMessage { recipient: [1; 16], text: format!("m{}", n), reply: n }
}

fn reply_of(c: &SendCommand<u32>) -> u32 {
    match c {
        SendCommand::DirectMessage { reply, .. } => *reply,
        SendCommand::GroupMessage { reply, .. } => *reply,
    }
}

#[test]
fn send_without_loop_fails_at_once() {
    let mut session: TransportSession<u32> = TransportSession::new();
    match session.send_via_channel(dm(1)) {
        Err(SignalError::SendFailed(m)) => assert_eq!(m, "Not connected - receive loop not running"),
        other => panic!("{:?}", other),
    }
    assert!(!session.is_running());
    assert_eq!(session.connection_state(), ConnectionState::Disconnected);
}

#[test]
fn loop_lifecycle_and_queue_order() {
    let mut session: TransportSession<u32> = TransportSession::new();
    assert!(matches!(
        session.start_receiving(),
        SignalEvent::ConnectionStateChanged(ConnectionState::Connecting)
    ));
    assert!(matches!(
        session.on_stream_open(),
        SignalEvent::ConnectionStateChanged(ConnectionState::Connected)
    ));
    assert!(session.is_connected());
    session.send_via_channel(dm(1)).unwrap();
    session.send_via_channel(dm(2)).unwrap();
    session.send_via_channel(dm(3)).unwrap();
    assert_eq!(reply_of(&session.next_command().unwrap()), 1);
    let (event, pending) = session.on_stream_end();
    assert!(matches!(event, SignalEvent::ConnectionStateChanged(ConnectionState::Disconnected)));
    assert_eq!(pending.iter().map(reply_of).collect::<Vec<_>>(), vec![2, 3]);
    assert!(session.send_via_channel(dm(4)).is_err());
    assert!(session.next_command().is_none());
}

#[test]
fn loop_error_reports_and_disconnects() {
    let mut session: TransportSession<u32> = TransportSession::new();
    session.start_receiving();
    session.send_via_channel(dm(7)).unwrap();
    let (err, state, pending) = session.on_loop_error(&SignalError::ConnectionFailed("gone".to_string()));
    match err {
        SignalEvent::Error(m) => assert_eq!(m, "Connection failed: gone"),
        other => panic!("{:?}", other),
    }
    assert!(matches!(state, SignalEvent::ConnectionStateChanged(ConnectionState::Disconnected)));
    assert_eq!(pending.len(), 1);
    assert!(!session.is_running());
    session.set_reconnecting();
    assert_eq!(session.connection_state(), ConnectionState::Reconnecting);
}

#[test]
fn inbound_items_are_classified() {
    assert!(matches!(on_inbound(Inbound::QueueEmpty), InboundAction::Emit(SignalEvent::SyncCompleted)));
    assert!(matches!(on_inbound(Inbound::Contacts), InboundAction::FetchContacts));
    assert!(matches!(on_inbound(Inbound::Content(None)), InboundAction::Nothing));
    match contacts_merged_event() {
        SignalEvent::ContactUpdated { contact_id } => assert_eq!(contact_id, "all"),
        other => panic!("{:?}", other),
    }
}

#[test]
fn data_messages_are_normalised() {
    let blank = DataMessageFields { body: Some(String::new()), attachment_count: 0, group_master_key: None };
    assert!(process_data_message(&blank, "alice", 5, "id".to_string()).is_none());

    let direct = DataMessageFields { body: Some("hey".to_string()), attachment_count: 0, group_master_key: None };
    let m = process_data_message(&direct, "alice", 5, "id1".to_string()).unwrap();
    assert_eq!(m.conversation_id, "alice");
    assert_eq!(m.sender, "alice");
    assert!(matches!(m.content, MessageContent::Text(ref t) if t == "hey"));

    let group = DataMessageFields { body: None, attachment_count: 1, group_master_key: Some(vec![0xff, 0x00]) };
    let g = process_data_message(&group, "bob", 6, "id2".to_string()).unwrap();
    assert_eq!(g.conversation_id, "/wA=");
    assert!(matches!(g.content, MessageContent::Text(ref t) if t.is_empty()));
}

#[test]
fn sync_echoes_are_normalised() {
    let sent = SentFields {
        destination_service_id: Some("carol".to_string()),
        timestamp: Some(42),
        message: Some(DataMessageFields { body: Some("yo".to_string()), attachment_count: 0, group_master_key: None }),
    };
    let m = process_sync_message(&Some(sent.clone()), 99, "id".to_string()).unwrap();
    assert_eq!(m.sender, "self");
    assert_eq!(m.conversation_id, "carol");
    assert_eq!(m.timestamp, 42);
    assert_eq!(m.server_timestamp, 99);

    let mut no_dest = sent.clone();
    no_dest.destination_service_id = None;
    assert!(process_sync_message(&Some(no_dest), 99, "id".to_string()).is_none());
    assert!(process_sync_message(&None, 99, "id".to_string()).is_none());
    let mut no_time = sent;
    no_time.timestamp = None;
    assert_eq!(process_sync_message(&Some(no_time), 99, "id".to_string()).unwrap().timestamp, 99);
}

#[test]
fn disconnect_reports_without_stopping_the_loop() {
    let mut session: TransportSession<u32> = TransportSession::new();
    session.start_receiving();
    session.on_stream_open();
    assert!(matches!(
        session.disconnect(),
        SignalEvent::ConnectionStateChanged(ConnectionState::Disconnected)
    ));
    assert!(!session.is_connected());
    assert!(session.is_running());
}

#[test]
fn send_commands_from_text_ids() {
    match direct_message_command("11111111-1111-1111-1111-111111111111", "t".to_string(), 1u32).unwrap() {
        SendCommand::DirectMessage { recipient, .. } => assert_eq!(recipient, [0x11; 16]),
        _ => panic!("wrong kind"),
    }
    match direct_message_command("nope", "t".to_string(), 1u32) {
        Err(SignalError::SendFailed(m)) => assert_eq!(m, "Invalid recipient UUID"),
        _ => panic!("accepted"),
    }
    match group_message_command("AQID", "t".to_string(), 1u32).unwrap() {
        SendCommand::GroupMessage { group_key, .. } => assert_eq!(group_key, vec![1, 2, 3]),
        _ => panic!("wrong kind"),
    }
    assert!(group_message_command("!!", "t".to_string(), 1u32).is_err());
}

#[test]
fn incoming_messages_are_stored_by_kind() {
    use_stored_content();
}

fn attachment(content_type: &str, filename: Option<&str>) -> MessageContent {
    MessageContent::Attachment {
        content_type: content_type.to_string(),
        filename: filename.map(|f| f.to_string()),
        size: 10,
        attachment_id: "a1".to_string(),
    }
}

fn use_stored_content() {
    assert!(matches!(stored_content(&attachment("image/png", None)), Content::Image { size: 10, width: 0, .. }));
    assert!(matches!(stored_content(&attachment("video/mp4", None)), Content::Video { .. }));
    assert!(matches!(stored_content(&attachment("audio/ogg", None)), Content::Audio { .. }));
    match stored_content(&attachment("application/pdf", None)) {
        Content::File { filename, .. } => assert_eq!(filename, "attachment"),
        other => panic!("{:?}", other),
    }
    match stored_content(&attachment("imag", Some("x.bin"))) {
        Content::File { filename, .. } => assert_eq!(filename, "x.bin"),
        other => panic!("{:?}", other),
    }
    let reaction = MessageContent::Reaction { emoji: "👍".to_string(), target_message_id: "m".to_string(), remove: false };
    match stored_content(&reaction) {
        Content::Text { body, .. } => assert_eq!(body, "Reacted with 👍 to message"),
        other => panic!("{:?}", other),
    }
    let incoming = IncomingMessage {
        id: "i".to_string(),
        sender: "s".to_string(),
        conversation_id: "c".to_string(),
        content: MessageContent::Text("t".to_string()),
        timestamp: -1500,
        server_timestamp: 2_999,
    };
    let stored = incoming_to_message(&incoming);
    assert_eq!(stored.sent_at_secs, -1);
    assert_eq!(stored.server_timestamp_secs, 2);
    assert_eq!(stored.direction, MessageDirection::Incoming);
    assert_eq!(stored.status, MessageStatus::Delivered);
}
