use nultr_ws::client::FrameEvent;
use nultr_ws::controller::{Action, Error, Event, EventHandler, SendEvent};
use nultr_ws::wire::{MarkMessagesReadRequest, MessageRequest};

fn chars(s: &str) -> Vec<char> {
    s.chars().collect()
}

fn connect_cmd() -> SendEvent {
    SendEvent::Connect {
        url: chars("wss://example.test/ws"),
        token: chars("a-bearer-token"),
    }
}

fn connected_handler() -> EventHandler {
    let mut handler = EventHandler::new();
    let outcome = handler.handle_send(connect_cmd(), true);
    assert!(matches!(outcome, Ok(Some(Event::Connected))));
    handler
}

#[test]
fn scenario_connect_emits_ready_then_connected() {
    // The host adapter emits `Ready` once at loop start, then the loop
    // handles the submitted `Connect` against a responding server.
    let mut events: Vec<Result<Event, Error>> = vec![Ok(Event::Ready)];
    let mut handler = EventHandler::new();
    assert!(!handler.polls_receive());
    assert!(matches!(handler.action_for(&connect_cmd()), Action::Open));
    match handler.handle_send(connect_cmd(), true) {
        Ok(Some(event)) => events.push(Ok(event)),
        _ => panic!("expected the connected event"),
    }
    assert!(matches!(events[0], Ok(Event::Ready)));
    assert!(matches!(events[1], Ok(Event::Connected)));
    assert_eq!(events.len(), 2);
    assert!(handler.polls_receive());
}

#[test]
fn scenario_send_chat_message() {
    let mut handler = connected_handler();
    let cmd = SendEvent::Message(MessageRequest {
        uuid: 42,
        text: chars("hi"),
    });
    match handler.action_for(&cmd) {
        Action::Write(frame) => {
            assert_eq!(frame, chars("{\"Message\":{\"uuid\":42,\"text\":\"hi\"}}"))
        }
        _ => panic!("expected a frame to write"),
    }
    match handler.handle_send(cmd, true) {
        Ok(Some(Event::MessageSent(uuid))) => assert_eq!(uuid, 42),
        _ => panic!("expected the sent acknowledgement"),
    }
    assert!(handler.polls_receive());
}

#[test]
fn scenario_message_not_found_keeps_connection() {
    let mut handler = connected_handler();
    let outcome = handler.receive_frame(FrameEvent::Frame(chars(
        "{\"Err\":{\"MessageNotFound\":7}}",
    )));
    assert!(matches!(outcome, Err(Error::MessageNotFound(7))));
    assert!(handler.polls_receive());
}

#[test]
fn scenario_stream_closure_disconnects() {
    let mut handler = connected_handler();
    let outcome = handler.receive_frame(FrameEvent::Closed);
    assert!(matches!(outcome, Err(Error::Disconnected)));
    assert!(!handler.polls_receive());
}

#[test]
fn commands_while_disconnected_touch_nothing() {
    let mut handler = EventHandler::new();
    let message = SendEvent::Message(MessageRequest {
        uuid: 1,
        text: chars("x"),
    });
    let receipt = SendEvent::MessagesRead(MarkMessagesReadRequest { room: 2 });
    assert!(matches!(handler.action_for(&message), Action::Nothing));
    assert!(matches!(handler.action_for(&receipt), Action::Nothing));
    assert!(matches!(handler.action_for(&SendEvent::Disconnect), Action::Nothing));
    assert!(matches!(
        handler.handle_send(message, true),
        Err(Error::Disconnected)
    ));
    assert!(matches!(
        handler.handle_send(receipt, true),
        Err(Error::Disconnected)
    ));
    assert!(!handler.polls_receive());
}

#[test]
fn failed_connect_stays_disconnected() {
    let mut handler = EventHandler::new();
    assert!(matches!(
        handler.handle_send(connect_cmd(), false),
        Err(Error::Connection)
    ));
    assert!(!handler.polls_receive());
}

#[test]
fn send_failure_tears_down_before_next_command() {
    let mut handler = connected_handler();
    let cmd = SendEvent::Message(MessageRequest {
        uuid: 8,
        text: chars("lost"),
    });
    assert!(matches!(handler.handle_send(cmd, false), Err(Error::Send)));
    assert!(!handler.polls_receive());
    let again = SendEvent::Message(MessageRequest {
        uuid: 9,
        text: chars("after"),
    });
    assert!(matches!(
        handler.handle_send(again, true),
        Err(Error::Disconnected)
    ));
}

#[test]
fn read_receipt_is_fire_and_forget() {
    let mut handler = connected_handler();
    let receipt = SendEvent::MessagesRead(MarkMessagesReadRequest { room: 4 });
    match handler.action_for(&receipt) {
        Action::Write(frame) => assert_eq!(frame, chars("{\"MessagesRead\":{\"room\":4}}")),
        _ => panic!("expected a frame to write"),
    }
    assert!(matches!(handler.handle_send(receipt, true), Ok(None)));
}

#[test]
fn disconnect_is_idempotent() {
    let mut handler = connected_handler();
    assert!(matches!(
        handler.handle_send(SendEvent::Disconnect, true),
        Ok(Some(Event::Disconnected))
    ));
    assert!(!handler.polls_receive());
    // A second disconnect: no error, only the one requested event, and no
    // transport action.
    assert!(matches!(handler.action_for(&SendEvent::Disconnect), Action::Nothing));
    assert!(matches!(
        handler.handle_send(SendEvent::Disconnect, true),
        Ok(Some(Event::Disconnected))
    ));
    assert!(!handler.polls_receive());
}

#[test]
fn incoming_message_becomes_event() {
    let mut handler = connected_handler();
    match handler.receive_frame(FrameEvent::Frame(chars(
        "{\"Ok\":{\"Message\":{\"uuid\":5,\"text\":\"yo\"}}}",
    ))) {
        Ok(Some(Event::Message(m))) => {
            assert_eq!(m.uuid, 5);
            assert_eq!(m.text, chars("yo"));
        }
        _ => panic!("expected the incoming message event"),
    }
    assert!(handler.polls_receive());
}

#[test]
fn delivery_notification_becomes_event() {
    let mut handler = connected_handler();
    match handler.receive_frame(FrameEvent::Frame(chars("{\"Ok\":{\"MessageReceived\":42}}"))) {
        Ok(Some(Event::MessageReceived(u))) => assert_eq!(u, 42),
        _ => panic!("expected the delivery notification event"),
    }
}

#[test]
fn undecodable_frame_disconnects() {
    let mut handler = connected_handler();
    let outcome = handler.receive_frame(FrameEvent::Frame(chars("not json")));
    assert!(matches!(outcome, Err(Error::Deserialization)));
    assert!(!handler.polls_receive());
}

#[test]
fn transport_fault_disconnects() {
    let mut handler = connected_handler();
    let outcome = handler.receive_frame(FrameEvent::TransportError);
    assert!(matches!(outcome, Err(Error::Unknown)));
    assert!(!handler.polls_receive());
}
