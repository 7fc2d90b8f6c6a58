use nultr_ws::controller::Error;
use nultr_ws::errors::{
    AuthenticatedUnexpectedErrorResponse, GetMessagesErrorResponse, GetRoomsErrorResponse,
    IntoErrorMessage, LoginErrorResponse, RequestError, UnexpectedErrorResponse,
};

#[test]
fn controller_error_messages() {
    let cases: Vec<(Error, &str)> = vec![
        (Error::Send, "Send error"),
        (Error::Connection, "Connection error"),
        (Error::Disconnected, "Disconnected"),
        (Error::Deserialization, "Deserialization error"),
        (Error::Serialization, "Serialization error"),
        (Error::Unknown, "Unknown error"),
        (Error::WrongRequestFormat, "Wrong request format"),
        (Error::UserNotFound, "User not found"),
        (Error::MessageNotFound(3), "Message not found"),
        (Error::NotMemberOfRoom, "User is a member of this chat"),
    ];
    for (error, expected) in cases {
        let message = error.into_error_message();
        assert_eq!(message, expected);
        assert!(!message.is_empty());
    }
}

#[test]
fn request_error_messages() {
    let cases: Vec<(RequestError, &str)> = vec![
        (RequestError::Deserialize, "Deserialization error"),
        (RequestError::Builder, "Request builder error"),
        (RequestError::Timeout, "Request timeout"),
        (RequestError::Connect, "Connection error"),
        (RequestError::Redirect, "Redirect error"),
        (RequestError::Unknown, "Unknown error"),
        (RequestError::Decode, "Deserialization error"),
    ];
    for (error, expected) in cases {
        assert_eq!(error.into_error_message(), expected);
    }
}

#[test]
fn http_error_message_carries_the_status() {
    assert_eq!(RequestError::Http(404).into_error_message(), "Http error: 404");
    assert_eq!(RequestError::Http(0).into_error_message(), "Http error: 0");
    assert_eq!(
        RequestError::Http(u16::MAX).into_error_message(),
        "Http error: 65535"
    );
}

#[test]
fn api_error_messages() {
    assert_eq!(
        AuthenticatedUnexpectedErrorResponse::InternalServerError.into_error_message(),
        "Server error"
    );
    assert_eq!(
        AuthenticatedUnexpectedErrorResponse::InvalidToken.into_error_message(),
        "Invalid token"
    );
    assert_eq!(
        UnexpectedErrorResponse::InternalServerError.into_error_message(),
        "Server error"
    );
    assert_eq!(
        LoginErrorResponse::AccessDenied.into_error_message(),
        "User not found"
    );
    assert_eq!(
        GetMessagesErrorResponse::RoomNotFound.into_error_message(),
        "User not found"
    );
    assert_eq!(
        GetMessagesErrorResponse::AccessDenied.into_error_message(),
        "Access denied"
    );
    assert_eq!(
        GetMessagesErrorResponse::NotMemberOfRoom.into_error_message(),
        "User is not member of chat"
    );
    assert_eq!(
        GetRoomsErrorResponse::UserNotFound.into_error_message(),
        "User not found"
    );
}
