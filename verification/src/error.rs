//! Error taxonomy of the server, a closed tagged union per failure source:
//! protocol violations, client I/O, storage I/O and coordinator failures,
//! with an explicit "is this a disconnection?" classification used by the
//! connection supervisor to decide what is only logged and what is escalated.

use vstd::prelude::*;

use crate::messages::ClientMessages;

verus! {

/// A failure of the coordinator client.
#[derive(Debug, Clone, PartialEq, Eq)]
pub enum ScottyError {
    /// A request body could not be encoded.
    EncoderError,
    /// A response body could not be decoded.
    DecoderError,
    /// The HTTP transport failed (connect or read error).
    HttpError,
    /// The coordinator answered with a final, non-retriable status.
    ScottyError { code: u16, url: String },
    /// The retry budget was exhausted on transient upstream errors.
    ScottyIsDown,
    /// Reading the response body failed.
    IoError,
}

impl ScottyError {
    /// A short human-readable description of this failure.
    pub open spec fn spec_message(self) -> Seq<char> {
        match self {
            ScottyError::EncoderError => "coordinator request could not be encoded"@,
            ScottyError::DecoderError => "coordinator response could not be decoded"@,
            ScottyError::HttpError => "coordinator transport failed"@,
            ScottyError::ScottyError { .. } => "coordinator rejected the request"@,
            ScottyError::ScottyIsDown => "coordinator is down"@,
            ScottyError::IoError => "coordinator response could not be read"@,
        }
    }

    /// Describe this failure.
    pub fn message(&self) -> (r: &'static str)
        ensures
            r@ == self.spec_message(),
    {
        match self {
            ScottyError::EncoderError => "coordinator request could not be encoded",
            ScottyError::DecoderError => "coordinator response could not be decoded",
            ScottyError::HttpError => "coordinator transport failed",
            ScottyError::ScottyError { .. } => "coordinator rejected the request",
            ScottyError::ScottyIsDown => "coordinator is down",
            ScottyError::IoError => "coordinator response could not be read",
        }
    }
}

/// Any failure that ends a connection's session.
#[derive(Debug, Clone, PartialEq, Eq)]
pub enum TransporterError {
    /// A byte at a message-code position matches no message.
    InvalidClientMessageCode(u8),
    /// A recognized message arrived where it is not allowed.
    UnexpectedClientMessageCode(ClientMessages),
    /// The coordinator client failed.
    ScottyError(ScottyError),
    /// The client closed its stream in the middle of a beam.
    ClientEOF,
    /// Reading from or writing to the client failed.
    ClientIoError,
    /// Creating or writing the storage artifact failed.
    StorageIoError,
}

pub type TransporterResult<T> = Result<T, TransporterError>;

impl TransporterError {
    /// Disconnections are ordinary: the client went away. They are logged
    /// and never escalated to the telemetry sink; everything else is.
    pub open spec fn spec_is_disconnection(self) -> bool {
        self is ClientIoError || self is ClientEOF
    }

    /// Classify this failure: `true` exactly for a client I/O failure or a
    /// client end-of-stream, the two ways a peer disappears mid-session.
    pub fn is_disconnection(&self) -> (r: bool)
        ensures
            r == self.spec_is_disconnection(),
    {
        match self {
            TransporterError::ClientIoError => true,
            TransporterError::ClientEOF => true,
            _ => false,
        }
    }

    /// A short human-readable description of this failure.
    pub open spec fn spec_message(self) -> Seq<char> {
        match self {
            TransporterError::InvalidClientMessageCode(_) => "invalid client message code"@,
            TransporterError::UnexpectedClientMessageCode(_) => "unexpected client message code"@,
            TransporterError::ScottyError(e) => e.spec_message(),
            TransporterError::ClientEOF => "client closed the connection in the middle of a beam"@,
            TransporterError::ClientIoError => "client io error"@,
            TransporterError::StorageIoError => "storage io error"@,
        }
    }

    /// Describe this failure.
    pub fn message(&self) -> (r: &'static str)
        ensures
            r@ == self.spec_message(),
    {
        match self {
            TransporterError::InvalidClientMessageCode(_) => "invalid client message code",
            TransporterError::UnexpectedClientMessageCode(_) => "unexpected client message code",
            TransporterError::ScottyError(e) => e.message(),
            TransporterError::ClientEOF => "client closed the connection in the middle of a beam",
            TransporterError::ClientIoError => "client io error",
            TransporterError::StorageIoError => "storage io error",
        }
    }
}

impl From<ScottyError> for TransporterError {
    /// Every coordinator failure is a session failure.
    fn from(err: ScottyError) -> (r: TransporterError) {
        TransporterError::ScottyError(err)
    }
}

impl vstd::std_specs::convert::FromSpecImpl<ScottyError> for TransporterError {
    open spec fn obeys_from_spec() -> bool {
        true
    }

    open spec fn from_spec(err: ScottyError) -> TransporterError {
        TransporterError::ScottyError(err)
    }
}

} // verus!
