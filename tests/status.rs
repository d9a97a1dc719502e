use std::io::{Error, ErrorKind};
use webmommi::{conclude, interpret, MoMMIError};

#[test]
fn zero_is_success() {
    assert!(matches!(interpret(0), Ok(())));
}

#[test]
fn one_is_invalid_identity() {
    assert!(matches!(interpret(1), Err(MoMMIError::IdBytes)));
}

#[test]
fn two_is_malformed_payload() {
    assert!(matches!(interpret(2), Err(MoMMIError::Json)));
}

#[test]
fn three_is_authentication_failed() {
    assert!(matches!(interpret(3), Err(MoMMIError::Auth)));
}

#[test]
fn other_codes_are_unknown() {
    assert!(matches!(interpret(200), Err(MoMMIError::Unknown)));
    assert!(matches!(interpret(4), Err(MoMMIError::Unknown)));
    assert!(matches!(interpret(255), Err(MoMMIError::Unknown)));
}

#[test]
fn from_code_matches_interpret() {
    assert!(matches!(MoMMIError::from(1u8), MoMMIError::IdBytes));
    assert!(matches!(MoMMIError::from(3u8), MoMMIError::Auth));
    assert!(matches!(MoMMIError::from(9u8), MoMMIError::Unknown));
}

#[test]
fn backend_answering_three_fails_authentication() {
    assert!(matches!(conclude(Ok(3)), Err(MoMMIError::Auth)));
    assert!(matches!(conclude(Ok(0)), Ok(())));
}

#[test]
fn closed_connection_is_transport_failure() {
    let cause = Error::new(ErrorKind::UnexpectedEof, "connection closed before status");
    match conclude(Err(cause)) {
        Err(MoMMIError::Io(e)) => {
            assert_eq!(e.kind(), ErrorKind::UnexpectedEof);
            assert_eq!(e.to_string(), "connection closed before status");
        }
        other => panic!("unexpected outcome: {:?}", other),
    }
}

#[test]
fn io_error_converts_to_transport_failure() {
    let e = MoMMIError::from(Error::new(ErrorKind::ConnectionRefused, "refused"));
    assert!(matches!(e, MoMMIError::Io(ref x) if x.kind() == ErrorKind::ConnectionRefused));
}
