//! Errors of the message layer: what framing and decoding can report.

use vstd::prelude::*;

verus! {

/// What reading or writing one framed message can fail with.
#[derive(Debug, Clone, PartialEq, Eq)]
pub enum Error {
    /// A payload did not decode as the expected message.
    SerializeError(String),
    /// The socket failed outside of a read timeout.
    IOError(String),
    /// A read timed out.
    NotAvailable(),
}

impl Error {
    pub fn io_error(msg: String) -> (r: Self)
        ensures
            r == Error::IOError(msg),
    {
        Self::IOError(msg)
    }

    pub fn serialize_error(msg: String) -> (r: Self)
        ensures
            r == Error::SerializeError(msg),
    {
        Self::SerializeError(msg)
    }

    pub fn not_available() -> (r: Self)
        ensures
            r == Error::NotAvailable(),
    {
        Self::NotAvailable()
    }

    /// One line describing the error.
    pub fn describe(&self) -> (r: &'static str)
        ensures
            r@ == self.spec_describe(),
    {
        match self {
            Error::SerializeError(_) => "error while serializing a message",
            Error::IOError(_) => "io error",
            Error::NotAvailable() => "not available to read",
        }
    }

    pub open spec fn spec_describe(&self) -> Seq<char> {
        match self {
            Error::SerializeError(_) => "error while serializing a message"@,
            Error::IOError(_) => "io error"@,
            Error::NotAvailable() => "not available to read"@,
        }
    }
}

} // verus!
