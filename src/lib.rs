//! Wire framing and message classification for the Debug Adapter Protocol.
use vstd::prelude::*;

pub mod adapter;
pub mod dap_type;
pub mod event;
pub mod header;
pub mod json;
pub mod message;
pub mod request;

verus! {

#[verifier::external_type_specification]
#[verifier::external_body]
pub struct ExIoError(std::io::Error);

/// The ways in which reading or classifying a message can fail.
#[derive(Debug)]
pub enum Error {
    /// The header or the body of a message is malformed.
    BadMessage,
    /// The underlying stream failed.
    Io(std::io::Error),
    /// The body is well formed but is not a valid message
    /// (e.g. a request without a command field).
    InvalidMessage,
}

impl Error {
    /// A short description of the error, for a log or a user.
    pub fn describe(&self) -> (r: String)
        ensures
            self is BadMessage ==> r@ == "bad message"@,
            self is InvalidMessage ==> r@ == "invalid message"@,
    {
        match self {
            Error::BadMessage => String::from_str("bad message"),
            Error::Io(err) => io_error_text(err),
            Error::InvalidMessage => String::from_str("invalid message"),
        }
    }
}

impl From<std::io::Error> for Error {
    fn from(err: std::io::Error) -> (r: Error)
        ensures
            r == Error::Io(err),
    {
        Error::Io(err)
    }
}

impl vstd::std_specs::convert::FromSpecImpl<std::io::Error> for Error {
    open spec fn obeys_from_spec() -> bool {
        true
    }

    open spec fn from_spec(err: std::io::Error) -> Error {
        Error::Io(err)
    }
}

/// The kinds of I/O error that this library tells apart; the same cases as
/// `std::io::ErrorKind`'s `Other` and `UnexpectedEof`, and all the others.
pub enum IoKind {
    Other,
    UnexpectedEof,
    Elsewise,
}

/// The kind of an I/O error, as `std::io::Error::kind` reports it.
pub uninterp spec fn io_kind_of(e: std::io::Error) -> IoKind;

/// Relies on `std::io::Error::kind`.
#[verifier::external_body]
fn io_kind(e: &std::io::Error) -> (r: IoKind)
    ensures
        r == io_kind_of(*e),
{
    match e.kind() {
        std::io::ErrorKind::Other => IoKind::Other,
        std::io::ErrorKind::UnexpectedEof => IoKind::UnexpectedEof,
        _ => IoKind::Elsewise,
    }
}

impl Error {
    /// The kind of an I/O error; `None` for the other errors.
    pub fn io_kind(&self) -> (r: Option<IoKind>)
        ensures
            match self {
                Error::Io(e) => r == Some(io_kind_of(*e)),
                _ => r is None,
            },
    {
        match self {
            Error::Io(e) => Some(io_kind(e)),
            _ => None,
        }
    }
}

/// Relies on `Display` for `std::io::Error` (through `ToString`).
#[verifier::external_body]
fn io_error_text(err: &std::io::Error) -> String {
    err.to_string()
}

/// Objects of the protocol that the message types carry as they were
/// received, without reading into them.
pub type Breakpoint = serde_json::Value;

pub type Capabilities = serde_json::Value;

pub type DataBreakpoint = serde_json::Value;

pub type ExceptionFilterOptions = serde_json::Value;

pub type ExceptionOptions = serde_json::Value;

pub type FunctionBreakpoint = serde_json::Value;

pub type InstructionBreakpoint = serde_json::Value;

pub type InvalidatedAreas = serde_json::Value;

pub type Module = serde_json::Value;

pub type Source = serde_json::Value;

pub type SourceBreakpoint = serde_json::Value;

pub type StackFrameFormat = serde_json::Value;

pub type SteppingGranularity = serde_json::Value;

pub type ValueFormat = serde_json::Value;

} // verus!
