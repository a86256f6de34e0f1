//! What can go wrong between the client and an xDS server.

use vstd::prelude::*;

use tonic::Status;

use crate::outside::{transport_error_display, transport_error_text};

verus! {

/// The error of every operation of the transport.
#[derive(Debug)]
pub enum Error {
    /// The connection could not be set up; the text says why.
    Connection(String),
    /// The server, or the way to it, ended the stream with a gRPC status.
    Stream(Status),
    /// The request side of the stream is closed.
    StreamClosed,
}

impl Error {
    /// Whether this is a connection error with the given text.
    pub open spec fn is_connection(self, text: Seq<char>) -> bool {
        self matches Error::Connection(message) && message@ == text
    }

    /// The connection error for an error of tonic's transport: its text.
    pub fn from_transport(error: tonic::transport::Error) -> (res: Error)
        ensures
            res.is_connection(transport_error_display(error)),
    {
        Error::Connection(transport_error_text(&error))
    }
}

} // verus!
