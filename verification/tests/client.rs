use nultr_ws::client::{
    handshake_headers, FrameEvent, Instance, RequestSendError, ResponseReceiveError, State,
};
use nultr_ws::wire::{MarkMessagesReadRequest, MessageRequest, WireRequest};

fn chars(s: &str) -> Vec<char> {
    s.chars().collect()
}

#[test]
fn a_fresh_connection_is_disconnected() {
    assert!(matches!(Instance::new().state, State::Disconnected));
    assert!(matches!(Instance::default().state, State::Disconnected));
}

#[test]
fn handshake_headers_carry_the_credential() {
    let headers = handshake_headers(
        &chars("example.test"),
        &chars("a-bearer-token"),
        &chars("a-socket-key"),
    );
    let expected: Vec<(&str, &str)> = vec![
        ("Authorization", "Bearer a-bearer-token"),
        ("Upgrade", "websocket"),
        ("Connection", "upgrade"),
        ("Host", "example.test"),
        ("Sec-WebSocket-Key", "a-socket-key"),
        ("Sec-WebSocket-Version", "13"),
    ];
    assert_eq!(headers.len(), expected.len());
    for ((name, value), (expected_name, expected_value)) in headers.iter().zip(expected) {
        assert_eq!(name, &chars(expected_name));
        assert_eq!(value, &chars(expected_value));
    }
}

#[test]
fn prepare_request_needs_a_channel() {
    let mut conn = Instance::new();
    let request = WireRequest::MessagesRead(MarkMessagesReadRequest { room: 1 });
    assert!(matches!(
        conn.prepare_request(&request),
        Err(RequestSendError::Disconnected)
    ));
    conn.connect(true);
    match conn.prepare_request(&request) {
        Ok(frame) => assert_eq!(frame, chars("{\"MessagesRead\":{\"room\":1}}")),
        Err(_) => panic!("expected a frame while connected"),
    }
}

#[test]
fn a_failed_write_tears_down() {
    let mut conn = Instance::new();
    conn.connect(true);
    assert!(matches!(conn.complete_send(true), Ok(())));
    assert!(matches!(conn.state, State::Connected));
    assert!(matches!(conn.complete_send(false), Err(RequestSendError::Send)));
    assert!(matches!(conn.state, State::Disconnected));
}

#[test]
fn a_failed_handshake_keeps_the_state() {
    let mut conn = Instance::new();
    conn.connect(false);
    assert!(matches!(conn.state, State::Disconnected));
}

#[test]
fn receive_decodes_and_tears_down_on_failure() {
    let mut conn = Instance::new();
    conn.connect(true);
    // A decodable frame keeps the connection.
    assert!(conn
        .next(FrameEvent::Frame(chars("{\"Ok\":{\"MessageReceived\":1}}")))
        .is_ok());
    assert!(matches!(conn.state, State::Connected));
    // An undecodable frame is a receive failure: teardown.
    assert!(matches!(
        conn.next(FrameEvent::Frame(chars("{broken"))),
        Err(ResponseReceiveError::Deserialization)
    ));
    assert!(matches!(conn.state, State::Disconnected));
    // Receiving with no channel reports disconnected.
    assert!(matches!(
        conn.next(FrameEvent::Frame(chars("{\"Ok\":{\"MessageReceived\":1}}"))),
        Err(ResponseReceiveError::Disconnected)
    ));
}

#[test]
fn stream_closure_and_faults_tear_down() {
    let mut conn = Instance::new();
    conn.connect(true);
    assert!(matches!(
        conn.next(FrameEvent::Closed),
        Err(ResponseReceiveError::Disconnected)
    ));
    assert!(matches!(conn.state, State::Disconnected));

    let mut conn = Instance::new();
    conn.connect(true);
    assert!(matches!(
        conn.next(FrameEvent::TransportError),
        Err(ResponseReceiveError::Error)
    ));
    assert!(matches!(conn.state, State::Disconnected));
}

#[test]
fn disconnect_is_idempotent_on_the_connection() {
    let mut conn = Instance::new();
    conn.disconnect();
    assert!(matches!(conn.state, State::Disconnected));
    conn.connect(true);
    conn.disconnect();
    conn.disconnect();
    assert!(matches!(conn.state, State::Disconnected));
}

#[test]
fn message_frames_come_from_the_connection() {
    let mut conn = Instance::new();
    conn.connect(true);
    let request = WireRequest::Message(MessageRequest {
        uuid: 42,
        text: chars("hi"),
    });
    match conn.prepare_request(&request) {
        Ok(frame) => assert_eq!(frame, chars("{\"Message\":{\"uuid\":42,\"text\":\"hi\"}}")),
        Err(_) => panic!("expected a frame while connected"),
    }
}
