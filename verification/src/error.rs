//! Errors of the bridge: the taxonomy every connector reports.

use vstd::prelude::*;

use crate::messages::error::Error as MsgError;

verus! {

/// What bridge operations can fail with.
#[derive(Debug, Clone, PartialEq, Eq)]
pub enum Error {
    /// Socket or channel failure other than a read timeout.
    IO(String),
    /// A read timed out.
    NotAvailable(),
    /// The round ended: a reward arrived while maps were awaited.
    StopIteration(),
    /// Malformed input.
    InvalidFormat(String),
    /// Protocol violation: wrong message type, mismatched id, or a name
    /// that does not match the prior session.
    IllegalState(String),
    /// A payload did not decode as the expected message.
    Serialize(String),
    /// Compressing or decompressing a payload failed.
    Compression(String),
}

impl Error {
    pub fn invalid_format(e: String) -> (r: Self)
        ensures
            r == Error::InvalidFormat(e),
    {
        Self::InvalidFormat(e)
    }

    pub fn stop_iteration() -> (r: Self)
        ensures
            r == Error::StopIteration(),
    {
        Self::StopIteration()
    }

    pub fn illegal_state(e: String) -> (r: Self)
        ensures
            r == Error::IllegalState(e),
    {
        Self::IllegalState(e)
    }

    pub fn serialize(e: String) -> (r: Self)
        ensures
            r == Error::Serialize(e),
    {
        Self::Serialize(e)
    }

    pub fn io(e: String) -> (r: Self)
        ensures
            r == Error::IO(e),
    {
        Self::IO(e)
    }

    pub fn compression(e: String) -> (r: Self)
        ensures
            r == Error::Compression(e),
    {
        Self::Compression(e)
    }

    pub fn not_available() -> (r: Self)
        ensures
            r == Error::NotAvailable(),
    {
        Self::NotAvailable()
    }

    /// One line describing the error.
    pub fn describe(&self) -> (r: &'static str)
        ensures
            r@ == self.spec_describe(),
    {
        match self {
            Error::IO(_) => "io error",
            Error::NotAvailable() => "resource is unavailable",
            Error::StopIteration() => "end of the mutation round",
            Error::InvalidFormat(_) => "invalid format error",
            Error::IllegalState(_) => "illegal program state",
            Error::Serialize(_) => "serialization error",
            Error::Compression(_) => "compression error",
        }
    }

    pub open spec fn spec_describe(&self) -> Seq<char> {
        match self {
            Error::IO(_) => "io error"@,
            Error::NotAvailable() => "resource is unavailable"@,
            Error::StopIteration() => "end of the mutation round"@,
            Error::InvalidFormat(_) => "invalid format error"@,
            Error::IllegalState(_) => "illegal program state"@,
            Error::Serialize(_) => "serialization error"@,
            Error::Compression(_) => "compression error"@,
        }
    }

    /// How a message-layer error surfaces at the bridge.
    pub open spec fn spec_from_msg(e: MsgError) -> Error {
        match e {
            MsgError::SerializeError(msg) => Error::Serialize(msg),
            MsgError::IOError(msg) => Error::IO(msg),
            MsgError::NotAvailable() => Error::NotAvailable(),
        }
    }
}

impl From<MsgError> for Error {
    fn from(e: MsgError) -> (r: Self) {
        match e {
            MsgError::SerializeError(msg) => Self::Serialize(msg),
            MsgError::IOError(msg) => Self::IO(msg),
            MsgError::NotAvailable() => Self::NotAvailable(),
        }
    }
}

impl vstd::std_specs::convert::FromSpecImpl<MsgError> for Error {
    open spec fn obeys_from_spec() -> bool {
        true
    }

    open spec fn from_spec(e: MsgError) -> Error {
        Error::spec_from_msg(e)
    }
}

} // verus!
