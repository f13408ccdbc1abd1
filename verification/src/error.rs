//! How a call can fail.

use vstd::prelude::*;

use crate::frame::{Answer, FunctionCode};

verus! {

/// `std::io::Error`, carried through unread.
#[verifier::external_type_specification]
#[verifier::external_body]
pub struct ExIoError(std::io::Error);

/// The kinds of transport failure that the service tells apart.
#[derive(Debug, Clone, Copy, PartialEq, Eq, Structural)]
pub enum IoErrorKind {
    NotConnected,
    BrokenPipe,
    Other,
}

/// Where a transport failure comes from.
#[derive(Debug)]
pub enum IoErrorCause {
    /// The kind says it all.
    Bare,
    /// Raised by the service, with a message.
    Message(&'static str),
    /// Raised by the transport.
    Native(std::io::Error),
}

/// A transport failure.
#[derive(Debug)]
pub struct IoError {
    pub kind: IoErrorKind,
    pub cause: IoErrorCause,
}

/// A reply that does not belong to its request.
#[derive(Debug)]
pub enum ProtocolError {
    /// The header of the reply is not that of the request.
    HeaderMismatch { message: String, result: Answer },
    /// The reply answers another function than the one requested.
    FunctionCodeMismatch { request: FunctionCode, result: Answer },
}

/// Why a call came to no answer from the device.
#[derive(Debug)]
pub enum Error {
    Protocol(ProtocolError),
    Transport(IoError),
}

} // verus!
