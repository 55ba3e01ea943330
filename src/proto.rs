use vstd::prelude::*;

use crate::frame::{Reason, StreamId};
use std::sync::Arc;

verus! {

/// Which side of the connection triggered a reset or a termination.
#[derive(Clone, Copy, Debug, PartialEq, Eq, Structural, Hash)]
pub enum Initiator {
    Local,
    Remote,
}

/// The text an initiator displays as.
pub open spec fn initiator_text(i: Initiator) -> Seq<char> {
    match i {
        Initiator::Local => "local"@,
        Initiator::Remote => "remote"@,
    }
}

impl Initiator {
    /// The text this initiator displays as.
    pub fn as_str(&self) -> (r: &'static str)
        ensures
            r@ == initiator_text(*self),
    {
        match *self {
            Initiator::Local => "local",
            Initiator::Remote => "remote",
        }
    }
}

/// An error that the protocol engine reports.
#[derive(Debug)]
pub enum Error {
    /// A RST_STREAM frame was received or sent.
    Reset(StreamId, Reason, Initiator),
    /// A GOAWAY frame was received or sent, with its debug data.
    GoAway(bytes::Bytes, Reason, Initiator),
    /// The transport failed.
    Io(Arc<std::io::Error>),
}

} // verus!
