use yoga::error::YogaError;
use yoga::x11::error::{
    ConnectError, ConnectionError, ParseError, ProtocolError, ReplyError, ReplyOrIdError, X11Error,
};
use yoga::x11::request::{check, Reply};

fn packet(error_code: u8) -> ProtocolError {
    ProtocolError { error_code, sequence: 1, bad_value: 0x40_0001, minor_opcode: 0, major_opcode: 8 }
}

#[test]
fn every_layer_error_becomes_its_own_kind() {
    assert_eq!(
        X11Error::from(ConnectError::SetupFailed),
        X11Error::ConnectError(ConnectError::SetupFailed)
    );
    assert_eq!(
        X11Error::from(ConnectionError::IoError),
        X11Error::ConnectionError(ConnectionError::IoError)
    );
    assert_eq!(
        X11Error::from(ParseError::InsufficientData),
        X11Error::ParseError(ParseError::InsufficientData)
    );
    assert_eq!(
        X11Error::from(ReplyError::X11Error(packet(3))),
        X11Error::ReplyError(ReplyError::X11Error(packet(3)))
    );
    assert_eq!(
        X11Error::from(ReplyOrIdError::IdsExhausted),
        X11Error::ReplyOrIdError(ReplyOrIdError::IdsExhausted)
    );
}

#[test]
fn yoga_error_wraps_x11_error() {
    let inner = X11Error::ParseError(ParseError::InvalidValue);
    assert_eq!(YogaError::from(inner), YogaError::X11Error(inner));
}

#[test]
fn protocol_error_is_found_in_both_reply_kinds() {
    assert_eq!(X11Error::ReplyError(ReplyError::X11Error(packet(3))).protocol_error(), Some(packet(3)));
    assert_eq!(
        X11Error::ReplyOrIdError(ReplyOrIdError::X11Error(packet(9))).protocol_error(),
        Some(packet(9))
    );
    assert_eq!(X11Error::ReplyOrIdError(ReplyOrIdError::IdsExhausted).protocol_error(), None);
    assert_eq!(X11Error::ConnectionError(ConnectionError::IoError).protocol_error(), None);
    assert_eq!(
        X11Error::ReplyError(ReplyError::ConnectionError(ConnectionError::IoError)).protocol_error(),
        None
    );
    assert_eq!(X11Error::ParseError(ParseError::InvalidValue).protocol_error(), None);
    assert_eq!(X11Error::ConnectError(ConnectError::IoError).protocol_error(), None);
}

#[test]
fn connection_error_is_found_in_every_kind_that_has_one() {
    let io = ConnectionError::IoError;
    assert_eq!(X11Error::ConnectionError(io).connection_error(), Some(io));
    assert_eq!(X11Error::ReplyError(ReplyError::ConnectionError(io)).connection_error(), Some(io));
    assert_eq!(
        X11Error::ReplyOrIdError(ReplyOrIdError::ConnectionError(io)).connection_error(),
        Some(io)
    );
    assert_eq!(X11Error::ReplyError(ReplyError::X11Error(packet(3))).connection_error(), None);
    assert_eq!(X11Error::ConnectError(ConnectError::IoError).connection_error(), None);
    assert_eq!(X11Error::ParseError(ParseError::InvalidValue).connection_error(), None);
}

#[test]
fn fatal_is_a_lost_session() {
    assert!(X11Error::ConnectError(ConnectError::InvalidScreen).is_fatal());
    assert!(X11Error::ConnectError(ConnectError::ParseError(ParseError::InvalidValue)).is_fatal());
    assert!(X11Error::ConnectionError(ConnectionError::IoError).is_fatal());
    assert!(X11Error::ConnectionError(ConnectionError::UnknownError).is_fatal());
    assert!(X11Error::ReplyError(ReplyError::ConnectionError(ConnectionError::InsufficientMemory))
        .is_fatal());
    assert!(X11Error::ReplyOrIdError(ReplyOrIdError::ConnectionError(
        ConnectionError::FdPassingFailed
    ))
    .is_fatal());
}

#[test]
fn malformed_data_packets_and_exhaustion_are_not_fatal() {
    let malformed = ConnectionError::ParseError(ParseError::InvalidValue);
    assert!(!X11Error::ConnectionError(malformed).is_fatal());
    assert!(!X11Error::ReplyError(ReplyError::ConnectionError(malformed)).is_fatal());
    assert!(!X11Error::ReplyOrIdError(ReplyOrIdError::ConnectionError(malformed)).is_fatal());
    assert!(!X11Error::ParseError(ParseError::InsufficientData).is_fatal());
    assert!(!X11Error::ReplyError(ReplyError::X11Error(packet(3))).is_fatal());
    assert!(!X11Error::ReplyOrIdError(ReplyOrIdError::X11Error(packet(10))).is_fatal());
    assert!(!X11Error::ReplyOrIdError(ReplyOrIdError::IdsExhausted).is_fatal());
}

#[test]
fn access_denied_is_error_code_ten() {
    assert!(packet(10).is_access_denied());
    for code in [0u8, 1, 3, 9, 11, 128, 255] {
        assert!(!packet(code).is_access_denied());
    }
}

#[test]
fn check_passes_success_and_errors_on() {
    assert_eq!(check(&Ok(Reply::Done)), Ok(()));
    let no_such_window = X11Error::ReplyError(ReplyError::X11Error(packet(3)));
    assert_eq!(check(&Err(no_such_window)), Err(no_such_window));
    let broken = X11Error::ConnectionError(ConnectionError::IoError);
    assert_eq!(check(&Err(broken)), Err(broken));
}

#[test]
fn check_rejects_an_answer_of_another_kind() {
    assert_eq!(
        check(&Ok(Reply::WmClass(None))),
        Err(X11Error::ParseError(ParseError::InvalidValue))
    );
}
