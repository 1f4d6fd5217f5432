//! The ways in which a call on a client can fail.

use vstd::prelude::*;

verus! {

/// What went wrong on the socket during a round trip.
#[derive(Clone, Copy, Debug, PartialEq, Eq, Structural)]
pub enum IoFailure {
    /// The request frame could not be written in full.
    Write,
    /// The read of the response failed.
    Read,
    /// The read delivered no bytes: the peer has closed the connection.
    Closed,
}

/// The kind of failure that ends a call.
#[derive(Clone, Copy, Debug, PartialEq, Eq, Structural)]
pub enum CarrotError {
    /// The connection to the server could not be opened.
    Connection,
    /// The request could not be serialised into a frame.
    Encoding,
    /// The round trip on the socket failed.
    Io(IoFailure),
    /// The response frame could not be parsed.
    Decoding,
}

impl IoFailure {
    /// The text of this failure.
    pub open spec fn text(self) -> Seq<char> {
        match self {
            IoFailure::Write => "write failed"@,
            IoFailure::Read => "N > SIZE"@,
            IoFailure::Closed => "N == 0"@,
        }
    }

    /// A short description for the caller.
    pub fn message(&self) -> (text: &'static str)
        ensures
            text@ == self.text(),
    {
        match self {
            IoFailure::Write => "write failed",
            IoFailure::Read => "N > SIZE",
            IoFailure::Closed => "N == 0",
        }
    }
}

impl CarrotError {
    /// Whether the failure lies with the socket rather than with the codec.
    pub open spec fn is_transport(self) -> bool {
        self is Io
    }

    /// The text of this error.
    pub open spec fn text(self) -> Seq<char> {
        match self {
            CarrotError::Connection => "connection failed"@,
            CarrotError::Encoding => "request could not be encoded"@,
            CarrotError::Io(failure) => failure.text(),
            CarrotError::Decoding => "response could not be decoded"@,
        }
    }

    /// Tells whether the failure lies with the socket rather than with the codec.
    pub fn is_io(&self) -> (io: bool)
        ensures
            io == self.is_transport(),
    {
        match self {
            CarrotError::Io(_) => true,
            _ => false,
        }
    }

    /// A short description for the caller.
    pub fn message(&self) -> (text: &'static str)
        ensures
            text@ == self.text(),
    {
        match self {
            CarrotError::Connection => "connection failed",
            CarrotError::Encoding => "request could not be encoded",
            CarrotError::Io(failure) => failure.message(),
            CarrotError::Decoding => "response could not be decoded",
        }
    }
}

} // verus!
