//! The error taxonomy of the client: transport faults, loss of the
//! connection, replies the server refused, replies of the wrong shape, and
//! field values that fail to coerce.

use vstd::prelude::*;

verus! {

/// Why a command or a decode failed.
#[derive(Debug)]
pub enum Error {
    /// The server explicitly refused the issued command; carries the
    /// server's diagnostic line.
    CommandError { msg: String },
    /// The remote end closed the connection; recoverable only by
    /// reconnecting.
    Disconnected,
    /// A low-level transport fault, carried as its message text.
    IOError { msg: String },
    /// The reply terminated normally but did not match the expected shape.
    ResponseError { reply: String, errmsg: String },
    /// A present field failed to coerce to its declared type, or an
    /// enumerated field held an unrecognized token.
    ValueError { msg: String },
}

impl Error {
    /// A short fixed label for the error class, for diagnostics.
    pub fn label(&self) -> (r: &'static str)
        ensures
            r@ == self.spec_label(),
    {
        match self {
            Error::CommandError { .. } => "command error",
            Error::Disconnected => "disconnected",
            Error::IOError { .. } => "io error",
            Error::ResponseError { .. } => "response error",
            Error::ValueError { .. } => "value error",
        }
    }

    /// The label each error class carries.
    pub open spec fn spec_label(&self) -> Seq<char> {
        match self {
            Error::CommandError { .. } => "command error"@,
            Error::Disconnected => "disconnected"@,
            Error::IOError { .. } => "io error"@,
            Error::ResponseError { .. } => "response error"@,
            Error::ValueError { .. } => "value error"@,
        }
    }
}

} // verus!
