use nultr_ws::codec::{decode_request, decode_response, encode_request, round_trip_message};
use nultr_ws::wire::{
    ErrorResponse, MarkMessagesReadRequest, MessageRequest, OkResponse, WireRequest,
};

fn chars(s: &str) -> Vec<char> {
    s.chars().collect()
}

#[test]
fn encode_message_frame() {
    let frame = encode_request(&WireRequest::Message(MessageRequest {
        uuid: 42,
        text: chars("hi"),
    }));
    assert_eq!(frame, chars("{\"Message\":{\"uuid\":42,\"text\":\"hi\"}}"));
}

#[test]
fn encode_messages_read_frame() {
    let frame = encode_request(&WireRequest::MessagesRead(MarkMessagesReadRequest { room: 7 }));
    assert_eq!(frame, chars("{\"MessagesRead\":{\"room\":7}}"));
}

#[test]
fn encode_escapes_quotes_and_backslashes() {
    let frame = encode_request(&WireRequest::Message(MessageRequest {
        uuid: 1,
        text: chars("say \"hi\" \\ now"),
    }));
    assert_eq!(
        frame,
        chars("{\"Message\":{\"uuid\":1,\"text\":\"say \\\"hi\\\" \\\\ now\"}}")
    );
}

#[test]
fn round_trip_plain_message() {
    let original = MessageRequest {
        uuid: 42,
        text: chars("hi"),
    };
    match round_trip_message(&original) {
        Some(WireRequest::Message(m)) => {
            assert_eq!(m.uuid, 42);
            assert_eq!(m.text, chars("hi"));
        }
        _ => panic!("round trip lost the message"),
    }
}

#[test]
fn round_trip_awkward_text() {
    let original = MessageRequest {
        uuid: u64::MAX,
        text: chars("a \"quoted\" \\ backslash, a comma}} and {\"uuid\":0"),
    };
    match round_trip_message(&original) {
        Some(WireRequest::Message(m)) => {
            assert_eq!(m.uuid, u64::MAX);
            assert_eq!(m.text, original.text);
        }
        _ => panic!("round trip lost the message"),
    }
}

#[test]
fn decode_request_reads_messages_read() {
    match decode_request(&chars("{\"MessagesRead\":{\"room\":9}}")) {
        Some(WireRequest::MessagesRead(r)) => assert_eq!(r.room, 9),
        _ => panic!("expected a read receipt"),
    }
}

#[test]
fn decode_request_rejects_garbage() {
    assert!(decode_request(&chars("{}")).is_none());
    assert!(decode_request(&chars("")).is_none());
    assert!(decode_request(&chars("{\"Message\":{\"uuid\":,\"text\":\"x\"}}")).is_none());
    assert!(decode_request(&chars("{\"Message\":{\"uuid\":1,\"text\":\"x\"}} ")).is_none());
}

#[test]
fn decode_request_rejects_oversized_id() {
    // One more than u64::MAX.
    assert!(decode_request(&chars(
        "{\"Message\":{\"uuid\":18446744073709551616,\"text\":\"x\"}}"
    ))
    .is_none());
    // Exactly u64::MAX still fits.
    match decode_request(&chars(
        "{\"Message\":{\"uuid\":18446744073709551615,\"text\":\"x\"}}"
    )) {
        Some(WireRequest::Message(m)) => assert_eq!(m.uuid, u64::MAX),
        _ => panic!("expected the largest id to fit"),
    }
}

#[test]
fn decode_response_message() {
    match decode_response(&chars("{\"Ok\":{\"Message\":{\"uuid\":5,\"text\":\"yo\"}}}")) {
        Some(Ok(OkResponse::Message(m))) => {
            assert_eq!(m.uuid, 5);
            assert_eq!(m.text, chars("yo"));
        }
        _ => panic!("expected a delivered message"),
    }
}

#[test]
fn decode_response_messages_read() {
    match decode_response(&chars("{\"Ok\":{\"MessagesRead\":{\"room\":3}}}")) {
        Some(Ok(OkResponse::MessagesRead(r))) => assert_eq!(r.room, 3),
        _ => panic!("expected a read acknowledgement"),
    }
}

#[test]
fn decode_response_message_received() {
    match decode_response(&chars("{\"Ok\":{\"MessageReceived\":11}}")) {
        Some(Ok(OkResponse::MessageReceived(u))) => assert_eq!(u, 11),
        _ => panic!("expected a delivery notification"),
    }
}

#[test]
fn decode_response_protocol_errors() {
    let cases: Vec<(&str, ErrorResponse)> = vec![
        ("{\"Err\":\"WrongFormat\"}", ErrorResponse::WrongFormat),
        ("{\"Err\":\"WrongJsonFormat\"}", ErrorResponse::WrongJsonFormat),
        ("{\"Err\":\"UserNotFound\"}", ErrorResponse::UserNotFound),
        ("{\"Err\":\"Fatal\"}", ErrorResponse::Fatal),
        ("{\"Err\":\"NotMemberOfRoom\"}", ErrorResponse::NotMemberOfRoom),
        ("{\"Err\":{\"MessageNotFound\":9}}", ErrorResponse::MessageNotFound(9)),
    ];
    for (frame, expected) in cases {
        match decode_response(&chars(frame)) {
            Some(Err(e)) => assert_eq!(e, expected),
            _ => panic!("expected a protocol error for {frame}"),
        }
    }
}

#[test]
fn decode_response_rejects_garbage() {
    assert!(decode_response(&chars("")).is_none());
    assert!(decode_response(&chars("{\"Err\":\"SomethingElse\"}")).is_none());
    assert!(decode_response(&chars("{\"Ok\":{\"MessageReceived\":11}} ")).is_none());
    assert!(decode_response(&chars("{\"Ok\":{\"MessageReceived\":18446744073709551616}}")).is_none());
    assert!(decode_response(&chars("{\"Ok\":{\"Message\":{\"uuid\":5,\"text\":\"yo}}}")).is_none());
}
