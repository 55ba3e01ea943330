//! Error values for an HTTP/2-style multiplexed connection: stream resets,
//! connection terminations, bare protocol reasons, library misuse and
//! transport failures, collapsed into one classifiable type.

pub mod codec;
pub mod error;
pub mod frame;
pub mod outside;
pub mod proto;
pub mod render;
