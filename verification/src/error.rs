//! The error a connection attempt reports.

use vstd::prelude::*;

verus! {

/// Why a connection could not be established.
#[derive(Debug, Clone, Copy, PartialEq, Eq, Structural)]
pub enum Error {
    /// The connection's first message was not `Message::Ready`.
    ConnectionFailed,
}

impl Error {
    /// The human-readable description of the error.
    pub fn message(&self) -> (text: String)
        ensures
            text@ == "connection failed"@,
    {
        match self {
            Error::ConnectionFailed => "connection failed".to_owned(),
        }
    }
}

} // verus!
