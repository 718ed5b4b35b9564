use signal_link::error::SignalError;
use signal_link::provisioning::{
    process_provisioning_request, ProvisioningResult, ProvisioningSession, SessionStep, SocketEvent,
};
use signal_link::websocket::{encode_ack, parse_ws_request, WsRequest};

fn len_field(tag: u8, body: &[u8]) -> Vec<u8> {
    assert!(body.len() < 128);
    let mut out = vec![tag, body.len() as u8];
    out.extend_from_slice(body);
    out
}

fn request_frame(verb: &str, path: &str, body: Option<&[u8]>, id: u8) -> Vec<u8> {
    let mut inner = len_field(0x0a, verb.as_bytes());
    inner.extend(len_field(0x12, path.as_bytes()));
    if let Some(b) = body {
        inner.extend(len_field(0x1a, b));
    }
    inner.extend([0x20, id]);
    let mut out = vec![0x08, 0x01];
    out.extend(len_field(0x12, &inner));
    out
}

#[test]
fn ack_carries_the_request_id() {
    assert_eq!(encode_ack(Some(7)), vec![0x08, 0x02, 0x1a, 9, 0x08, 7, 0x10, 0xc8, 0x01, 0x1a, 0x02, b'O', b'K']);
    assert_eq!(encode_ack(None), vec![0x08, 0x02, 0x1a, 7, 0x10, 0xc8, 0x01, 0x1a, 0x02, b'O', b'K']);
}

#[test]
fn request_is_read_from_its_envelope() {
    let frame = request_frame("PUT", "/v1/message", Some(&[1, 2, 3]), 42);
    let req = parse_ws_request(&frame).unwrap();
    assert_eq!(req.verb.as_deref(), Some("PUT"));
    assert_eq!(req.path.as_deref(), Some("/v1/message"));
    assert_eq!(req.body, Some(vec![1, 2, 3]));
    assert_eq!(req.id, Some(42));
    assert!(parse_ws_request(&[0x08, 0x02]).is_none());
}

#[test]
fn address_request_gives_the_link_uri() {
    let req = WsRequest {
        verb: Some("PUT".to_string()),
        path: Some("/v1/address".to_string()),
        body: Some(len_field(0x0a, b"uuid-1")),
        id: Some(1),
    };
    match process_provisioning_request(&req, b"test-pubkey").unwrap() {
        ProvisioningResult::Url(u) => assert_eq!(
            u,
            "sgnl://linkdevice?uuid=uuid-1&pub_key=dGVzdC1wdWJrZXk%3D&capabilities=backup4%2Cbackup5"
        ),
        other => panic!("{:?}", other),
    }
    let no_body = WsRequest { body: None, ..req.clone() };
    match process_provisioning_request(&no_body, b"k") {
        Err(SignalError::ProtocolError(m)) => assert_eq!(m, "Missing body in address message"),
        other => panic!("{:?}", other),
    }
    let no_uuid = WsRequest { body: Some(vec![]), ..req };
    match process_provisioning_request(&no_uuid, b"k") {
        Err(SignalError::ProtocolError(m)) => assert_eq!(m, "Missing UUID in address"),
        other => panic!("{:?}", other),
    }
}

#[test]
fn session_shows_the_uri_once_and_ends_on_the_envelope() {
    let mut session = ProvisioningSession::new();
    let addr = request_frame("PUT", "/v1/address", Some(&len_field(0x0a, b"u")), 1);
    match session.on_socket_event(SocketEvent::Binary(addr.clone()), b"k").unwrap() {
        SessionStep::Acknowledge { ack, url, envelope } => {
            assert_eq!(ack, encode_ack(Some(1)));
            assert!(url.unwrap().starts_with("sgnl://linkdevice?uuid=u&"));
            assert!(envelope.is_none());
        }
        other => panic!("{:?}", other),
    }
    match session.on_socket_event(SocketEvent::Binary(addr), b"k").unwrap() {
        SessionStep::Acknowledge { url, .. } => assert!(url.is_none()),
        other => panic!("{:?}", other),
    }
    assert!(matches!(session.on_socket_event(SocketEvent::Other, b"k"), Ok(SessionStep::Continue)));
    let msg = request_frame("PUT", "/v1/message", Some(&[9, 9]), 2);
    match session.on_socket_event(SocketEvent::Binary(msg), b"k").unwrap() {
        SessionStep::Acknowledge { ack, envelope, .. } => {
            assert_eq!(ack, encode_ack(Some(2)));
            assert_eq!(envelope, Some(vec![9, 9]));
        }
        other => panic!("{:?}", other),
    }
    assert!(session.finished);
}

#[test]
fn close_before_the_envelope_fails() {
    let mut session = ProvisioningSession::new();
    match session.on_socket_event(SocketEvent::Close, b"k") {
        Err(SignalError::ProtocolError(m)) => assert_eq!(m, "Provisioning incomplete - no message received"),
        other => panic!("{:?}", other),
    }
    let mut session = ProvisioningSession::new();
    let bad = request_frame("GET", "/v1/x", None, 3);
    match session.on_socket_event(SocketEvent::Binary(bad), b"k") {
        Err(SignalError::ProtocolError(m)) => assert_eq!(m, "Unknown request: GET /v1/x"),
        other => panic!("{:?}", other),
    }
}
