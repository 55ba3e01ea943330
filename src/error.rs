use vstd::prelude::*;

use crate::codec::{user_error_text, SendError, UserError};
use crate::frame::{reason_text, Reason, StreamId};
use crate::outside::{bytes_as_slice, bytes_content, io_error_new, io_kind_of, io_message_of, io_text};
use crate::proto::{self, initiator_text, Initiator};
use crate::render::{debug_bytes_text, push_debug_bytes};
use std::sync::Arc;
use vstd::std_specs::convert::FromSpec;

verus! {

/// Represents HTTP/2 operation errors.
///
/// `Error` covers errors raised by the peer (a stream reset or a connection
/// termination, with a [`Reason`]), transport failures, and errors caused by
/// the user of the library.
#[derive(Debug)]
pub struct Error {
    kind: Kind,
}

#[derive(Debug)]
enum Kind {
    /// A RST_STREAM frame was received or sent.
    Reset(StreamId, Reason, Initiator),
    /// A GOAWAY frame was received or sent.
    GoAway(bytes::Bytes, Reason, Initiator),
    /// The user created an error from a bare reason.
    Reason(Reason),
    /// An invalid action taken by the user of this library.
    User(UserError),
    /// The transport failed while reading or writing.
    Io(Arc<std::io::Error>),
}

/// What an error holds, as a mathematical value.
pub ghost enum ErrorView {
    Reset(StreamId, Reason, Initiator),
    GoAway(Seq<u8>, Reason, Initiator),
    Reason(Reason),
    User(UserError),
    Io(std::io::Error),
}

/// The error that the protocol engine's error converts to.
pub open spec fn proto_view(e: proto::Error) -> ErrorView {
    match e {
        proto::Error::Reset(id, r, i) => ErrorView::Reset(id, r, i),
        proto::Error::GoAway(d, r, i) => ErrorView::GoAway(bytes_content(d), r, i),
        proto::Error::Io(io) => ErrorView::Io(*io),
    }
}

/// The error that a send-path error converts to.
pub open spec fn send_view(e: SendError) -> ErrorView {
    match e {
        SendError::User(u) => ErrorView::User(u),
        SendError::Connection(c) => proto_view(c),
    }
}

/// The reason of an error, where a stream reset or a connection termination
/// gave one.
pub open spec fn view_reason(v: ErrorView) -> Option<Reason> {
    match v {
        ErrorView::Reset(_, r, _) => Some(r),
        ErrorView::GoAway(_, r, _) => Some(r),
        _ => None,
    }
}

/// The text an error displays as, where what it holds fixes that text. A
/// transport failure displays its own text, which is no fixed value.
pub open spec fn error_text(v: ErrorView) -> Option<Seq<char>> {
    match v {
        ErrorView::Reset(_, r, i) => Some("stream reset by "@ + initiator_text(i) + ": "@ + reason_text(r)),
        ErrorView::GoAway(d, r, i) => Some("go away from "@ + initiator_text(i) + ": "@ + reason_text(r) + (
        if d.len() == 0 {
            Seq::<char>::empty()
        } else {
            " ("@ + debug_bytes_text(d) + ")"@
        })),
        ErrorView::Reason(r) => Some("protocol error: "@ + reason_text(r)),
        ErrorView::User(u) => Some("user error: "@ + user_error_text(u)),
        ErrorView::Io(_) => None,
    }
}

impl View for Error {
    type V = ErrorView;

    closed spec fn view(&self) -> ErrorView {
        match self.kind {
            Kind::Reset(id, r, i) => ErrorView::Reset(id, r, i),
            Kind::GoAway(d, r, i) => ErrorView::GoAway(bytes_content(d), r, i),
            Kind::Reason(r) => ErrorView::Reason(r),
            Kind::User(u) => ErrorView::User(u),
            Kind::Io(e) => ErrorView::Io(*e),
        }
    }
}

impl Error {
    /// If the error was caused by the remote peer, the error reason.
    ///
    /// This is either an error received by the peer or caused by an invalid
    /// action taken by the peer (i.e. a protocol error).
    pub fn reason(&self) -> (r: Option<Reason>)
        ensures
            r == view_reason(self@),
    {
        match self.kind {
            Kind::Reset(_, reason, _) => Some(reason),
            Kind::GoAway(_, reason, _) => Some(reason),
            _ => None,
        }
    }

    /// Returns true if the error is a transport failure.
    pub fn is_io(&self) -> (r: bool)
        ensures
            r == (self@ is Io),
    {
        match self.kind {
            Kind::Io(_) => true,
            _ => false,
        }
    }

    /// Returns the transport failure, if the error is one.
    pub fn get_io(&self) -> (r: Option<&std::io::Error>)
        ensures
            match self@ {
                ErrorView::Io(e) => r == Some(&e),
                _ => r is None,
            },
    {
        match self.kind {
            Kind::Io(ref e) => Some(&**e),
            _ => None,
        }
    }

    /// Returns a new transport failure, if the error is one: it has the same
    /// classification, and as its message the text that the original displays
    /// (empty where that display fails). Any structure beyond those two is not
    /// carried over.
    pub fn into_io(self) -> (r: Option<std::io::Error>)
        ensures
            match self@ {
                ErrorView::Io(e) => r matches Some(n) && io_kind_of(n) == io_kind_of(e),
                _ => r is None,
            },
    {
        match self.kind {
            Kind::Io(e) => {
                let kind = e.kind();
                let msg = match io_text(&*e) {
                    Some(text) => text,
                    None => String::new(),
                };
                Some(io_from_parts(kind, msg))
            },
            _ => None,
        }
    }

    /// The text this error displays as. A transport failure displays its own
    /// text (empty where that display fails).
    pub fn to_string(&self) -> (r: String)
        ensures
            match error_text(self@) {
                Some(t) => r@ == t,
                None => self@ is Io,
            },
    {
        match self.kind {
            Kind::Reset(_, reason, initiator) => {
                let mut out = String::from_str("stream reset by ");
                out.append(initiator.as_str());
                out.append(": ");
                out.append(reason.description());
                assert(out@ =~= error_text(self@).unwrap());
                out
            },
            Kind::GoAway(ref debug_data, reason, initiator) => {
                let mut out = String::from_str("go away from ");
                out.append(initiator.as_str());
                out.append(": ");
                out.append(reason.description());
                let data = bytes_as_slice(debug_data);
                if data.len() > 0 {
                    out.append(" (");
                    push_debug_bytes(&mut out, data);
                    out.append(")");
                }
                assert(out@ =~= error_text(self@).unwrap());
                out
            },
            Kind::Reason(reason) => {
                let mut out = String::from_str("protocol error: ");
                out.append(reason.description());
                out
            },
            Kind::User(ref e) => {
                let mut out = String::from_str("user error: ");
                out.append(e.description());
                out
            },
            Kind::Io(ref e) => match io_text(&**e) {
                Some(text) => text,
                None => String::new(),
            },
        }
    }

    /// Wraps a transport failure in shared ownership.
    pub fn from_io(err: std::io::Error) -> (r: Error)
        ensures
            r@ == ErrorView::Io(err),
    {
        Error { kind: Kind::Io(Arc::new(err)) }
    }
}

/// The error that a protocol engine's error converts to.
pub closed spec fn error_of_proto(src: proto::Error) -> Error {
    match src {
        proto::Error::Reset(id, r, i) => Error { kind: Kind::Reset(id, r, i) },
        proto::Error::GoAway(d, r, i) => Error { kind: Kind::GoAway(d, r, i) },
        proto::Error::Io(e) => Error { kind: Kind::Io(e) },
    }
}

impl From<proto::Error> for Error {
    fn from(src: proto::Error) -> (r: Error) {
        let kind = match src {
            proto::Error::Reset(stream_id, reason, initiator) => Kind::Reset(stream_id, reason, initiator),
            proto::Error::GoAway(debug_data, reason, initiator) => Kind::GoAway(debug_data, reason, initiator),
            proto::Error::Io(e) => Kind::Io(e),
        };
        Error { kind }
    }
}

impl vstd::std_specs::convert::FromSpecImpl<proto::Error> for Error {
    open spec fn obeys_from_spec() -> bool {
        true
    }

    open spec fn from_spec(src: proto::Error) -> Error {
        error_of_proto(src)
    }
}

impl From<Reason> for Error {
    fn from(src: Reason) -> (r: Error) {
        Error { kind: Kind::Reason(src) }
    }
}

impl vstd::std_specs::convert::FromSpecImpl<Reason> for Error {
    open spec fn obeys_from_spec() -> bool {
        true
    }

    closed spec fn from_spec(src: Reason) -> Error {
        Error { kind: Kind::Reason(src) }
    }
}

impl From<UserError> for Error {
    fn from(src: UserError) -> (r: Error) {
        Error { kind: Kind::User(src) }
    }
}

impl vstd::std_specs::convert::FromSpecImpl<UserError> for Error {
    open spec fn obeys_from_spec() -> bool {
        true
    }

    closed spec fn from_spec(src: UserError) -> Error {
        Error { kind: Kind::User(src) }
    }
}

impl From<SendError> for Error {
    fn from(src: SendError) -> (r: Error) {
        match src {
            SendError::User(e) => Error::from(e),
            SendError::Connection(e) => Error::from(e),
        }
    }
}

impl vstd::std_specs::convert::FromSpecImpl<SendError> for Error {
    open spec fn obeys_from_spec() -> bool {
        true
    }

    open spec fn from_spec(src: SendError) -> Error {
        match src {
            SendError::User(e) => <Error as vstd::std_specs::convert::FromSpec<UserError>>::from_spec(e),
            SendError::Connection(e) => error_of_proto(e),
        }
    }
}

} // verus!

verus! {

/// A transport failure of the given classification whose message is the given
/// text.
pub fn io_from_parts(kind: std::io::ErrorKind, msg: String) -> (r: std::io::Error)
    ensures
        io_kind_of(r) == kind,
        io_message_of(r) == msg@,
{
    io_error_new(kind, msg)
}

/// An error converted from the protocol engine's error holds what that error
/// held.
pub proof fn lemma_from_proto(e: proto::Error)
    ensures
        <Error as FromSpec<proto::Error>>::from_spec(e)@ == proto_view(e),
{
}

/// An error converted from a bare reason holds that reason and nothing else.
pub proof fn lemma_from_reason(r: Reason)
    ensures
        <Error as FromSpec<Reason>>::from_spec(r)@ == ErrorView::Reason(r),
{
}

/// An error converted from a user error holds that user error.
pub proof fn lemma_from_user(u: UserError)
    ensures
        <Error as FromSpec<UserError>>::from_spec(u)@ == ErrorView::User(u),
{
}

/// An error converted from a send-path error is classified as a user error or
/// as the connection's error.
pub proof fn lemma_from_send(e: SendError)
    ensures
        <Error as FromSpec<SendError>>::from_spec(e)@ == send_view(e),
{
}

/// Converting a connection error by way of the send path gives the same error
/// as converting it directly: nothing is lost through the indirection.
pub proof fn lemma_send_connection_is_direct(e: proto::Error)
    ensures
        <Error as FromSpec<SendError>>::from_spec(SendError::Connection(e)) == <Error as FromSpec<
            proto::Error,
        >>::from_spec(e),
        <Error as FromSpec<SendError>>::from_spec(SendError::Connection(e))@ == proto_view(e),
{
}

/// An error has a reason exactly when it came from a stream reset or a
/// connection termination, and then it is the reason that came with it; bare
/// reasons, user errors and transport failures have none.
pub proof fn lemma_reason_of_origin(e: proto::Error, r: Reason, u: UserError)
    ensures
        view_reason(<Error as FromSpec<proto::Error>>::from_spec(e)@) == match e {
            proto::Error::Reset(_, x, _) => Some(x),
            proto::Error::GoAway(_, x, _) => Some(x),
            proto::Error::Io(_) => None::<Reason>,
        },
        view_reason(<Error as FromSpec<Reason>>::from_spec(r)@) is None,
        view_reason(<Error as FromSpec<UserError>>::from_spec(u)@) is None,
{
}

/// An error is a transport failure exactly when it was made from one: from
/// the protocol engine's transport variant, directly or through the send path
/// (`from_io` states the same of itself).
pub proof fn lemma_io_iff_transport(e: proto::Error, r: Reason, u: UserError, s: SendError)
    ensures
        (<Error as FromSpec<proto::Error>>::from_spec(e)@ is Io) <==> (e is Io),
        (<Error as FromSpec<SendError>>::from_spec(s)@ is Io) <==> (s matches SendError::Connection(
            c,
        ) && c is Io),
        !(<Error as FromSpec<Reason>>::from_spec(r)@ is Io),
        !(<Error as FromSpec<UserError>>::from_spec(u)@ is Io),
{
}

} // verus!
