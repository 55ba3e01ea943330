use vstd::prelude::*;

use std::fmt::Write;

verus! {

#[verifier::external_type_specification]
#[verifier::external_body]
pub struct ExBytes(bytes::Bytes);

#[verifier::external_type_specification]
#[verifier::external_body]
pub struct ExIoError(std::io::Error);

#[verifier::external_type_specification]
#[verifier::external_body]
pub struct ExIoErrorKind(std::io::ErrorKind);

/// The bytes that a `Bytes` buffer holds.
pub uninterp spec fn bytes_content(b: bytes::Bytes) -> Seq<u8>;

/// The classification of a transport failure.
pub uninterp spec fn io_kind_of(e: std::io::Error) -> std::io::ErrorKind;

/// The message that a transport failure was built with from a `String`.
pub uninterp spec fn io_message_of(e: std::io::Error) -> Seq<char>;

/// Relies on `<Bytes as AsRef<[u8]>>::as_ref`: a view of the buffer's bytes.
#[verifier::external_body]
pub(crate) fn bytes_as_slice(b: &bytes::Bytes) -> (r: &[u8])
    ensures
        r@ == bytes_content(*b),
{
    b.as_ref()
}

/// Relies on `std::io::Error::kind`: the classification of the failure.
pub assume_specification[ std::io::Error::kind ](e: &std::io::Error) -> (r: std::io::ErrorKind)
    ensures
        r == io_kind_of(*e),
;

/// Relies on `Display for std::io::Error`, written into a `String` with
/// `write!`: the failure's text, or `None` where its `Display` fails. That text
/// may come from a payload's own `Display` or from the system's error strings,
/// so nothing is stated of it.
#[verifier::external_body]
pub(crate) fn io_text(e: &std::io::Error) -> (r: Option<String>) {
    let mut s = String::new();
    match write!(s, "{}", e) {
        Ok(()) => Some(s),
        Err(_) => None,
    }
}

/// Relies on `std::io::Error::new`: a failure of the given kind, built from the
/// given `String`, which its `Display` writes out unchanged.
#[verifier::external_body]
pub(crate) fn io_error_new(kind: std::io::ErrorKind, msg: String) -> (r: std::io::Error)
    ensures
        io_kind_of(r) == kind,
        io_message_of(r) == msg@,
{
    std::io::Error::new(kind, msg)
}

} // verus!
