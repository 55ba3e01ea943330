use std::fmt;
use std::io;
use std::sync::Arc;

use bytes::Bytes;
use h2_error::codec::{SendError, UserError};
use h2_error::error::{io_from_parts, Error};
use h2_error::frame::{Reason, StreamId};
use h2_error::proto::{self, Initiator};

fn reset(reason: Reason, initiator: Initiator) -> Error {
    Error::from(proto::Error::Reset(StreamId(3), reason, initiator))
}

fn go_away(data: Vec<u8>, reason: Reason, initiator: Initiator) -> Error {
    Error::from(proto::Error::GoAway(Bytes::from(data), reason, initiator))
}

fn io_error(kind: io::ErrorKind, msg: &str) -> io::Error {
    io::Error::new(kind, msg.to_string())
}

#[test]
fn remote_reset_displays_and_gives_reason() {
    let e = reset(Reason::ProtocolError, Initiator::Remote);
    assert_eq!(e.to_string(), "stream reset by remote: protocol error");
    assert_eq!(e.reason(), Some(Reason::ProtocolError));
    assert!(!e.is_io());
    assert!(e.get_io().is_none());
    assert!(e.into_io().is_none());
}

#[test]
fn local_reset_displays_initiator() {
    let e = reset(Reason::Cancel, Initiator::Local);
    assert_eq!(e.to_string(), "stream reset by local: cancel");
    assert_eq!(e.reason(), Some(Reason::Cancel));
}

#[test]
fn go_away_with_debug_data() {
    let e = go_away(vec![1, 2, 3], Reason::NoError, Initiator::Local);
    assert_eq!(e.to_string(), "go away from local: no error ([1, 2, 3])");
    assert_eq!(e.reason(), Some(Reason::NoError));
    assert!(!e.is_io());
}

#[test]
fn go_away_without_debug_data() {
    let e = go_away(Vec::new(), Reason::EnhanceYourCalm, Initiator::Remote);
    assert_eq!(e.to_string(), "go away from remote: enhance your calm");
    assert_eq!(e.reason(), Some(Reason::EnhanceYourCalm));
}

#[test]
fn go_away_debug_data_edge_bytes() {
    let e = go_away(vec![0, 9, 10, 99, 100, 255], Reason::InternalError, Initiator::Remote);
    assert_eq!(
        e.to_string(),
        "go away from remote: internal error ([0, 9, 10, 99, 100, 255])"
    );
}

#[test]
fn go_away_single_byte() {
    let e = go_away(vec![42], Reason::FrameSizeError, Initiator::Local);
    assert_eq!(e.to_string(), "go away from local: frame size error ([42])");
}

#[test]
fn user_error_displays_and_has_no_reason() {
    let e = Error::from(UserError::PayloadTooBig);
    assert_eq!(e.to_string(), "user error: payload too big");
    assert_eq!(e.reason(), None);
    assert!(!e.is_io());
    assert!(e.get_io().is_none());
    assert!(e.into_io().is_none());
}

#[test]
fn bare_reason_displays_as_protocol_error() {
    let e = Error::from(Reason::RefusedStream);
    assert_eq!(e.to_string(), "protocol error: refused stream");
    assert_eq!(e.reason(), None);
    assert!(!e.is_io());
    assert!(e.into_io().is_none());
}

#[test]
fn unknown_reason_code() {
    let r = Reason::from_code(0x1234);
    assert_eq!(r, Reason::Unknown(0x1234));
    assert_eq!(r.code(), 0x1234);
    let e = Error::from(r);
    assert_eq!(e.to_string(), "protocol error: unknown reason code");
}

#[test]
fn reason_codes_round_trip() {
    for code in 0u32..20 {
        assert_eq!(Reason::from_code(code).code(), code);
    }
    assert_eq!(Reason::from_code(1), Reason::ProtocolError);
    assert_eq!(Reason::from_code(13), Reason::Http11Required);
    assert_eq!(Reason::Http11Required.description(), "http/1.1 required");
}

#[test]
fn io_error_is_io() {
    let e = Error::from_io(io_error(io::ErrorKind::BrokenPipe, "pipe closed"));
    assert!(e.is_io());
    assert_eq!(e.reason(), None);
    let inner = e.get_io().expect("transport failure");
    assert_eq!(inner.kind(), io::ErrorKind::BrokenPipe);
    assert_eq!(e.to_string(), "pipe closed");
}

#[test]
fn into_io_keeps_kind_and_text() {
    let e = Error::from_io(io_error(io::ErrorKind::ConnectionReset, "peer went away"));
    let rebuilt = e.into_io().expect("transport failure");
    assert_eq!(rebuilt.kind(), io::ErrorKind::ConnectionReset);
    assert_eq!(rebuilt.to_string(), "peer went away");
}

#[test]
fn proto_io_converts_to_io() {
    let shared = Arc::new(io_error(io::ErrorKind::TimedOut, "timed out"));
    let e = Error::from(proto::Error::Io(shared));
    assert!(e.is_io());
    assert_eq!(e.get_io().map(|x| x.kind()), Some(io::ErrorKind::TimedOut));
    assert_eq!(e.to_string(), "timed out");
    assert_eq!(e.reason(), None);
}

#[test]
fn send_user_error_is_user_error() {
    let e = Error::from(SendError::User(UserError::Rejected));
    assert_eq!(e.to_string(), "user error: rejected");
    assert_eq!(e.reason(), None);
}

#[test]
fn send_connection_error_matches_direct() {
    let via_send = Error::from(SendError::Connection(proto::Error::GoAway(
        Bytes::from(vec![7u8]),
        Reason::FlowControlError,
        Initiator::Remote,
    )));
    let direct = go_away(vec![7], Reason::FlowControlError, Initiator::Remote);
    assert_eq!(via_send.to_string(), direct.to_string());
    assert_eq!(via_send.reason(), direct.reason());
    assert_eq!(via_send.is_io(), direct.is_io());
    assert_eq!(via_send.to_string(), "go away from remote: flow control error ([7])");
}

#[test]
fn send_connection_io_matches_direct() {
    let via_send = Error::from(SendError::Connection(proto::Error::Io(Arc::new(io_error(
        io::ErrorKind::UnexpectedEof,
        "eof",
    )))));
    assert!(via_send.is_io());
    let rebuilt = via_send.into_io().expect("transport failure");
    assert_eq!(rebuilt.kind(), io::ErrorKind::UnexpectedEof);
    assert_eq!(rebuilt.to_string(), "eof");
}

#[derive(Debug)]
struct FailingDisplay;

impl fmt::Display for FailingDisplay {
    fn fmt(&self, _: &mut fmt::Formatter) -> fmt::Result {
        Err(fmt::Error)
    }
}

impl std::error::Error for FailingDisplay {}

#[test]
fn failing_transport_display_does_not_panic() {
    let e = Error::from_io(io::Error::new(io::ErrorKind::InvalidData, FailingDisplay));
    assert_eq!(e.to_string(), "");
    let rebuilt = e.into_io().expect("transport failure");
    assert_eq!(rebuilt.kind(), io::ErrorKind::InvalidData);
    assert_eq!(rebuilt.to_string(), "");
}

#[test]
fn io_from_parts_keeps_kind_and_message() {
    let e = io_from_parts(io::ErrorKind::AddrInUse, "address taken".to_string());
    assert_eq!(e.kind(), io::ErrorKind::AddrInUse);
    assert_eq!(e.to_string(), "address taken");
}
