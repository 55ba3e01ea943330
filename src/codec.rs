use vstd::prelude::*;

use crate::proto;

verus! {

/// An invalid action taken by the user of the library.
#[derive(Clone, Copy, Debug, PartialEq, Eq, Structural, Hash)]
pub enum UserError {
    /// The stream ID is no longer accepting frames.
    InactiveStreamId,
    /// The stream is not currently expecting a frame of this type.
    UnexpectedFrameType,
    /// The payload size is too big.
    PayloadTooBig,
    /// The request was rejected.
    Rejected,
    /// More capacity was released than the stream had.
    ReleaseCapacityTooBig,
    /// The stream ID space is exhausted.
    OverflowedStreamId,
    /// Illegal headers, such as connection-specific headers.
    MalformedHeaders,
    /// A request lacked a scheme and an authority.
    MissingUriSchemeAndAuthority,
    /// A reset was polled for after the response was sent.
    PollResetAfterSendResponse,
    /// A ping was sent before the previous pong arrived.
    SendPingWhilePending,
    /// Settings were sent before the previous ones were acknowledged.
    SendSettingsWhilePending,
    /// A push promise was sent to a peer that disabled server push.
    PeerDisabledServerPush,
    /// An informational status code outside the 1xx range was given.
    InvalidInformationalStatusCode,
}

/// The text a user error displays as.
pub open spec fn user_error_text(e: UserError) -> Seq<char> {
    match e {
        UserError::InactiveStreamId => "inactive stream"@,
        UserError::UnexpectedFrameType => "unexpected frame type"@,
        UserError::PayloadTooBig => "payload too big"@,
        UserError::Rejected => "rejected"@,
        UserError::ReleaseCapacityTooBig => "release capacity too big"@,
        UserError::OverflowedStreamId => "stream ID overflowed"@,
        UserError::MalformedHeaders => "malformed headers"@,
        UserError::MissingUriSchemeAndAuthority => "request URI missing scheme and authority"@,
        UserError::PollResetAfterSendResponse => "poll_reset after send_response is illegal"@,
        UserError::SendPingWhilePending => "send_ping before received previous pong"@,
        UserError::SendSettingsWhilePending => "sending SETTINGS before received previous ACK"@,
        UserError::PeerDisabledServerPush => "sending PUSH_PROMISE to peer who disabled server push"@,
        UserError::InvalidInformationalStatusCode => "invalid informational status code"@,
    }
}

impl UserError {
    /// The text this user error displays as.
    pub fn description(&self) -> (r: &'static str)
        ensures
            r@ == user_error_text(*self),
    {
        match *self {
            UserError::InactiveStreamId => "inactive stream",
            UserError::UnexpectedFrameType => "unexpected frame type",
            UserError::PayloadTooBig => "payload too big",
            UserError::Rejected => "rejected",
            UserError::ReleaseCapacityTooBig => "release capacity too big",
            UserError::OverflowedStreamId => "stream ID overflowed",
            UserError::MalformedHeaders => "malformed headers",
            UserError::MissingUriSchemeAndAuthority => "request URI missing scheme and authority",
            UserError::PollResetAfterSendResponse => "poll_reset after send_response is illegal",
            UserError::SendPingWhilePending => "send_ping before received previous pong",
            UserError::SendSettingsWhilePending => "sending SETTINGS before received previous ACK",
            UserError::PeerDisabledServerPush => "sending PUSH_PROMISE to peer who disabled server push",
            UserError::InvalidInformationalStatusCode => "invalid informational status code",
        }
    }
}

/// An error on the send path: either a misuse by the caller or a failure of
/// the connection underneath.
#[derive(Debug)]
pub enum SendError {
    User(UserError),
    Connection(proto::Error),
}

} // verus!
