use vstd::prelude::*;

verus! {

/// An HTTP/2 error code, as carried by RST_STREAM and GOAWAY frames.
///
/// The fourteen codes that the protocol defines have a variant each; any
/// other code is kept as it came in `Unknown`.
#[derive(Clone, Copy, Debug, PartialEq, Eq, Structural, Hash)]
pub enum Reason {
    NoError,
    ProtocolError,
    InternalError,
    FlowControlError,
    SettingsTimeout,
    StreamClosed,
    FrameSizeError,
    RefusedStream,
    Cancel,
    CompressionError,
    ConnectError,
    EnhanceYourCalm,
    InadequateSecurity,
    Http11Required,
    Unknown(u32),
}

/// The code's number on the wire.
pub open spec fn reason_code(r: Reason) -> u32 {
    match r {
        Reason::NoError => 0,
        Reason::ProtocolError => 1,
        Reason::InternalError => 2,
        Reason::FlowControlError => 3,
        Reason::SettingsTimeout => 4,
        Reason::StreamClosed => 5,
        Reason::FrameSizeError => 6,
        Reason::RefusedStream => 7,
        Reason::Cancel => 8,
        Reason::CompressionError => 9,
        Reason::ConnectError => 10,
        Reason::EnhanceYourCalm => 11,
        Reason::InadequateSecurity => 12,
        Reason::Http11Required => 13,
        Reason::Unknown(c) => c,
    }
}

/// A reason is well formed when `Unknown` holds no code that has a name.
pub open spec fn reason_wf(r: Reason) -> bool {
    match r {
        Reason::Unknown(c) => c > 13,
        _ => true,
    }
}

/// The text a reason displays as.
pub open spec fn reason_text(r: Reason) -> Seq<char> {
    match r {
        Reason::NoError => "no error"@,
        Reason::ProtocolError => "protocol error"@,
        Reason::InternalError => "internal error"@,
        Reason::FlowControlError => "flow control error"@,
        Reason::SettingsTimeout => "settings timeout"@,
        Reason::StreamClosed => "stream closed"@,
        Reason::FrameSizeError => "frame size error"@,
        Reason::RefusedStream => "refused stream"@,
        Reason::Cancel => "cancel"@,
        Reason::CompressionError => "compression error"@,
        Reason::ConnectError => "connect error"@,
        Reason::EnhanceYourCalm => "enhance your calm"@,
        Reason::InadequateSecurity => "inadequate security"@,
        Reason::Http11Required => "http/1.1 required"@,
        Reason::Unknown(_) => "unknown reason code"@,
    }
}

impl Reason {
    /// The reason for a code on the wire.
    pub fn from_code(code: u32) -> (r: Reason)
        ensures
            reason_code(r) == code,
            reason_wf(r),
    {
        match code {
            0 => Reason::NoError,
            1 => Reason::ProtocolError,
            2 => Reason::InternalError,
            3 => Reason::FlowControlError,
            4 => Reason::SettingsTimeout,
            5 => Reason::StreamClosed,
            6 => Reason::FrameSizeError,
            7 => Reason::RefusedStream,
            8 => Reason::Cancel,
            9 => Reason::CompressionError,
            10 => Reason::ConnectError,
            11 => Reason::EnhanceYourCalm,
            12 => Reason::InadequateSecurity,
            13 => Reason::Http11Required,
            _ => Reason::Unknown(code),
        }
    }

    /// The code's number on the wire.
    pub fn code(&self) -> (r: u32)
        ensures
            r == reason_code(*self),
    {
        match *self {
            Reason::NoError => 0,
            Reason::ProtocolError => 1,
            Reason::InternalError => 2,
            Reason::FlowControlError => 3,
            Reason::SettingsTimeout => 4,
            Reason::StreamClosed => 5,
            Reason::FrameSizeError => 6,
            Reason::RefusedStream => 7,
            Reason::Cancel => 8,
            Reason::CompressionError => 9,
            Reason::ConnectError => 10,
            Reason::EnhanceYourCalm => 11,
            Reason::InadequateSecurity => 12,
            Reason::Http11Required => 13,
            Reason::Unknown(c) => c,
        }
    }

    /// The text this reason displays as.
    pub fn description(&self) -> (r: &'static str)
        ensures
            r@ == reason_text(*self),
    {
        match *self {
            Reason::NoError => "no error",
            Reason::ProtocolError => "protocol error",
            Reason::InternalError => "internal error",
            Reason::FlowControlError => "flow control error",
            Reason::SettingsTimeout => "settings timeout",
            Reason::StreamClosed => "stream closed",
            Reason::FrameSizeError => "frame size error",
            Reason::RefusedStream => "refused stream",
            Reason::Cancel => "cancel",
            Reason::CompressionError => "compression error",
            Reason::ConnectError => "connect error",
            Reason::EnhanceYourCalm => "enhance your calm",
            Reason::InadequateSecurity => "inadequate security",
            Reason::Http11Required => "http/1.1 required",
            Reason::Unknown(_) => "unknown reason code",
        }
    }
}

/// The identifier of one stream of a connection.
#[derive(Clone, Copy, Debug, PartialEq, Eq, Structural, Hash)]
pub struct StreamId(pub u32);

} // verus!
