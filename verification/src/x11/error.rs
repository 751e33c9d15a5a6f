//! The closed set of failures that can come out of the X11 layer.

use vstd::prelude::*;
use vstd::std_specs::convert::FromSpecImpl;

use crate::x11::request::{access_error, access_error_code};

verus! {

/// Malformed data from the display server.
#[derive(Debug, Clone, Copy, PartialEq, Eq)]
pub enum ParseError {
    InsufficientData,
    ConversionFailed,
    InvalidExpression,
    InvalidValue,
    MissingFileDescriptors,
}

/// The session with the display server could not be established.
#[derive(Debug, Clone, Copy, PartialEq, Eq)]
pub enum ConnectError {
    UnknownError,
    ParseError(ParseError),
    InsufficientMemory,
    DisplayParsingError,
    InvalidScreen,
    IoError,
    ZeroIdMask,
    SetupAuthenticate,
    SetupFailed,
    Incomplete,
}

/// The transport broke after the session was established.
#[derive(Debug, Clone, Copy, PartialEq, Eq)]
pub enum ConnectionError {
    UnknownError,
    UnsupportedExtension,
    MaximumRequestLengthExceeded,
    FdPassingFailed,
    ParseError(ParseError),
    InsufficientMemory,
    IoError,
}

/// An error packet the server sent in answer to one request.
#[derive(Debug, Clone, Copy, PartialEq, Eq)]
pub struct ProtocolError {
    /// The kind of error as it appears on the wire.
    pub error_code: u8,
    /// Sequence number of the offending request.
    pub sequence: u16,
    /// The value in the request that caused the error.
    pub bad_value: u32,
    pub minor_opcode: u16,
    pub major_opcode: u8,
}

/// Resolving the reply to one request failed.
#[derive(Debug, Clone, Copy, PartialEq, Eq)]
pub enum ReplyError {
    ConnectionError(ConnectionError),
    X11Error(ProtocolError),
}

/// Resolving a reply failed, or the resource ids ran out.
#[derive(Debug, Clone, Copy, PartialEq, Eq)]
pub enum ReplyOrIdError {
    IdsExhausted,
    ConnectionError(ConnectionError),
    X11Error(ProtocolError),
}

/// Every failure of the X11 layer is exactly one of these five kinds.
#[derive(Debug, Clone, Copy, PartialEq, Eq)]
pub enum X11Error {
    ConnectError(ConnectError),
    ConnectionError(ConnectionError),
    ParseError(ParseError),
    ReplyError(ReplyError),
    ReplyOrIdError(ReplyOrIdError),
}

impl ProtocolError {
    /// Whether the server denied access to what the request asked for.
    pub open spec fn access_denied(&self) -> bool {
        self.error_code == access_error()
    }

    #[verifier::when_used_as_spec(access_denied)]
    pub fn is_access_denied(&self) -> (r: bool)
        ensures
            r == self.access_denied(),
    {
        self.error_code == access_error_code()
    }
}

impl ConnectionError {
    /// A connection error that only reports malformed data leaves the
    /// transport itself usable.
    pub open spec fn is_malformed_data(&self) -> bool {
        self is ParseError
    }
}

impl X11Error {
    /// The error packet inside this failure, if the server sent one.
    pub open spec fn protocol_error_spec(&self) -> Option<ProtocolError> {
        match *self {
            X11Error::ReplyError(ReplyError::X11Error(e)) => Some(e),
            X11Error::ReplyOrIdError(ReplyOrIdError::X11Error(e)) => Some(e),
            _ => None,
        }
    }

    /// The transport failure inside this error, if there is one.
    pub open spec fn connection_error_spec(&self) -> Option<ConnectionError> {
        match *self {
            X11Error::ConnectionError(e) => Some(e),
            X11Error::ReplyError(ReplyError::ConnectionError(e)) => Some(e),
            X11Error::ReplyOrIdError(ReplyOrIdError::ConnectionError(e)) => Some(e),
            _ => None,
        }
    }

    /// Whether the session is lost: it never came up, or its transport broke.
    /// Malformed data, error packets and id exhaustion are not fatal.
    pub open spec fn is_fatal_spec(&self) -> bool {
        self is ConnectError || (self.connection_error_spec() matches Some(e)
            && !e.is_malformed_data())
    }

    #[verifier::when_used_as_spec(protocol_error_spec)]
    pub fn protocol_error(&self) -> (r: Option<ProtocolError>)
        ensures
            r == self.protocol_error_spec(),
    {
        match self {
            X11Error::ReplyError(ReplyError::X11Error(e)) => Some(*e),
            X11Error::ReplyOrIdError(ReplyOrIdError::X11Error(e)) => Some(*e),
            _ => None,
        }
    }

    #[verifier::when_used_as_spec(connection_error_spec)]
    pub fn connection_error(&self) -> (r: Option<ConnectionError>)
        ensures
            r == self.connection_error_spec(),
    {
        match self {
            X11Error::ConnectionError(e) => Some(*e),
            X11Error::ReplyError(ReplyError::ConnectionError(e)) => Some(*e),
            X11Error::ReplyOrIdError(ReplyOrIdError::ConnectionError(e)) => Some(*e),
            _ => None,
        }
    }

    #[verifier::when_used_as_spec(is_fatal_spec)]
    pub fn is_fatal(&self) -> (r: bool)
        ensures
            r == self.is_fatal_spec(),
    {
        match self {
            X11Error::ConnectError(_) => true,
            _ => match self.connection_error() {
                Some(ConnectionError::ParseError(_)) => false,
                Some(_) => true,
                None => false,
            },
        }
    }
}

impl From<ConnectError> for X11Error {
    fn from(error: ConnectError) -> (r: Self) {
        X11Error::ConnectError(error)
    }
}

impl FromSpecImpl<ConnectError> for X11Error {
    open spec fn obeys_from_spec() -> bool {
        true
    }

    open spec fn from_spec(error: ConnectError) -> Self {
        X11Error::ConnectError(error)
    }
}

impl From<ConnectionError> for X11Error {
    fn from(error: ConnectionError) -> (r: Self) {
        X11Error::ConnectionError(error)
    }
}

impl FromSpecImpl<ConnectionError> for X11Error {
    open spec fn obeys_from_spec() -> bool {
        true
    }

    open spec fn from_spec(error: ConnectionError) -> Self {
        X11Error::ConnectionError(error)
    }
}

impl From<ParseError> for X11Error {
    fn from(error: ParseError) -> (r: Self) {
        X11Error::ParseError(error)
    }
}

impl FromSpecImpl<ParseError> for X11Error {
    open spec fn obeys_from_spec() -> bool {
        true
    }

    open spec fn from_spec(error: ParseError) -> Self {
        X11Error::ParseError(error)
    }
}

impl From<ReplyError> for X11Error {
    fn from(error: ReplyError) -> (r: Self) {
        X11Error::ReplyError(error)
    }
}

impl FromSpecImpl<ReplyError> for X11Error {
    open spec fn obeys_from_spec() -> bool {
        true
    }

    open spec fn from_spec(error: ReplyError) -> Self {
        X11Error::ReplyError(error)
    }
}

impl From<ReplyOrIdError> for X11Error {
    fn from(error: ReplyOrIdError) -> (r: Self) {
        X11Error::ReplyOrIdError(error)
    }
}

impl FromSpecImpl<ReplyOrIdError> for X11Error {
    open spec fn obeys_from_spec() -> bool {
        true
    }

    open spec fn from_spec(error: ReplyOrIdError) -> Self {
        X11Error::ReplyOrIdError(error)
    }
}

} // verus!
