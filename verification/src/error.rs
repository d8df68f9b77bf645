//! Errors of the endpoint core.

use vstd::prelude::*;

verus! {

/// The two ways in which a byte sequence can fail to be read.
#[derive(Debug, Clone, Copy, PartialEq, Eq, Structural)]
pub enum IoErrorKind {
    /// The input ended before the value did.
    UnexpectedEof,
    /// The input holds bytes that no value is written as.
    InvalidData,
}

/// A failure to read a value from bytes: its kind and a short description.
#[derive(Debug, Clone, PartialEq, Eq)]
pub struct IoError {
    pub kind: IoErrorKind,
    pub message: String,
}

impl IoError {
    pub fn new(kind: IoErrorKind, message: &str) -> (e: IoError)
        ensures
            e.kind == kind,
            e.message@ == message@,
    {
        IoError { kind, message: message.to_owned() }
    }

    pub fn kind(&self) -> (kind: IoErrorKind)
        ensures
            kind == self.kind,
    {
        self.kind
    }
}

#[derive(Debug, Clone, PartialEq, Eq)]
pub enum Error {
    /// The carrier failed; the text is the carrier's own description.
    Transport(String),
    /// A message could not be decoded.
    Codec(String),
    /// The peer, or the caller, broke a rule of the protocol.
    ProtocolViolation { reason: String },
    /// The peer refused a subscription.
    SubscriptionFailed { code: u64, reason: String },
    /// The session's control channel is closed.
    SessionClosed,
    /// The track alias is already bound to a track.
    DuplicateTrackAlias(u64),
    /// A value does not fit the variable-length integer that carries it.
    VarIntRange,
    /// A frame carries a type code that names no control message.
    UnknownMessageType,
    /// Every request ID that the peer has granted is in use.
    TooManyRequests,
    /// Bytes could not be read as the value expected.
    Io(IoError),
}

/// What kind of failure an [`Error`] of the codec reports, without its text.
#[derive(Debug, Clone, Copy, PartialEq, Eq, Structural)]
pub enum Fault {
    /// The input ended inside a value.
    UnexpectedEof,
    /// A text field is not UTF-8.
    InvalidData,
    /// A field breaks a rule of the message grammar.
    ProtocolViolation,
    /// An integer is too large for its field.
    VarIntRange,
    /// The type code names no control message.
    UnknownMessageType,
}

impl Error {
    /// The codec failure that this error reports, if it reports one.
    pub open spec fn fault(&self) -> Option<Fault> {
        match self {
            Error::Io(e) => match e.kind {
                IoErrorKind::UnexpectedEof => Some(Fault::UnexpectedEof),
                IoErrorKind::InvalidData => Some(Fault::InvalidData),
            },
            Error::ProtocolViolation { .. } => Some(Fault::ProtocolViolation),
            Error::VarIntRange => Some(Fault::VarIntRange),
            Error::UnknownMessageType => Some(Fault::UnknownMessageType),
            _ => None,
        }
    }

    /// The error for input that ended inside the value named by `what`.
    pub fn unexpected_eof(what: &str) -> (e: Error)
        ensures
            e is Io,
            e->Io_0.kind == IoErrorKind::UnexpectedEof,
            e->Io_0.message@ == what@,
            e.fault() == Some(Fault::UnexpectedEof),
    {
        Error::Io(IoError::new(IoErrorKind::UnexpectedEof, what))
    }

    /// The error for bytes that are not the value named by `what`.
    pub fn invalid_data(what: &str) -> (e: Error)
        ensures
            e is Io,
            e->Io_0.kind == IoErrorKind::InvalidData,
            e->Io_0.message@ == what@,
            e.fault() == Some(Fault::InvalidData),
    {
        Error::Io(IoError::new(IoErrorKind::InvalidData, what))
    }

    /// The error for a broken rule, with the rule as its reason.
    pub fn violation(reason: &str) -> (e: Error)
        ensures
            e matches Error::ProtocolViolation { reason: text } && text@ == reason@,
            e.fault() == Some(Fault::ProtocolViolation),
    {
        Error::ProtocolViolation { reason: reason.to_owned() }
    }
}

} // verus!
