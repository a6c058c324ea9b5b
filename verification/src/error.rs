//! The error taxonomy of the library.
//!
//! Four kinds are surfaced verbatim, with no retry and no silent recovery:
//! build errors (an invalid request description, caught before any transport
//! call), transport errors (raised by the caller's transport, carried
//! through), protocol errors (a response that matches no known shape, or a
//! shape that is illegal for the calling endpoint), and service errors (the
//! service's own error envelope, plus the two special-cased conditions of a
//! forbidden download).

use vstd::prelude::*;

use crate::api::WaifuError;
use crate::dispatch::WaifuApiResponse;
use crate::json::JsonValue;

verus! {

/// An invalid request description; always local and terminal, never sent.
#[derive(Debug, Clone, Copy, PartialEq, Eq, Structural)]
pub enum BuildError {
    /// No content source was set on an upload request.
    MissingContentSource,
    /// More than one content source was set on an upload request.
    MultipleContentSources,
    /// The file path of an upload request yields no filename.
    InvalidFilePath,
}

/// A response that was decoded but cannot be accepted.
#[derive(Debug)]
pub enum ProtocolError {
    /// The body matches none of the known envelope shapes; carries the raw
    /// decoded body for diagnostics.
    MalformedResponse(JsonValue),
    /// The body matches a shape that the calling endpoint never returns;
    /// carries the classified response.
    UnexpectedVariant(WaifuApiResponse),
}

/// Everything an operation can fail with.
#[derive(Debug)]
pub enum VaultError {
    /// An invalid request description.
    Build(BuildError),
    /// A network or I/O failure reaching the service, reported by the
    /// transport.
    Transport(String),
    /// A response that cannot be accepted.
    Protocol(ProtocolError),
    /// The service's own error envelope, kept verbatim.
    Service(WaifuError),
    /// A download was forbidden and no password was supplied: the file
    /// requires a password.
    PasswordRequired,
    /// A download was forbidden although a password was supplied: the
    /// password is incorrect.
    PasswordIncorrect,
}

} // verus!
