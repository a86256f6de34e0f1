//! An open ADS stream.

use vstd::prelude::*;

use bytes::Bytes;
use tokio::sync::mpsc;
use tonic::{Status, Streaming};

use crate::error::Error;

verus! {

/// A bidirectional ADS stream: requests go out through `sender`, responses
/// come in through `receiver`. Its request side is closed once the channel has
/// refused a request.
#[derive(Debug)]
pub struct TonicAdsStream {
    pub sender: mpsc::Sender<Bytes>,
    pub receiver: Streaming<Bytes>,
    pub closed: bool,
}

impl TonicAdsStream {
    /// Whether `res` is what a request that is about to be sent comes to.
    pub open spec fn starts_send(self, request: Bytes, res: Result<Bytes, Error>) -> bool {
        if self.closed {
            res matches Err(Error::StreamClosed)
        } else {
            res == Ok::<Bytes, Error>(request)
        }
    }

    /// The request to hand to `sender`, and the outcome of that to
    /// [`TonicAdsStream::sent`]; or an error, where the request side is closed.
    pub fn start_send(&self, request: Bytes) -> (res: Result<Bytes, Error>)
        ensures
            self.starts_send(request, res),
    {
        if self.closed {
            Err(Error::StreamClosed)
        } else {
            Ok(request)
        }
    }

    /// Whether `res` is what follows on the outcome of handing a request to
    /// `sender`, and `after` the stream from then on.
    pub open spec fn follows_send(
        self,
        outcome: Result<(), mpsc::error::SendError<Bytes>>,
        after: TonicAdsStream,
        res: Result<(), Error>,
    ) -> bool {
        &&& after.sender == self.sender
        &&& after.receiver == self.receiver
        &&& after.closed == (self.closed || outcome is Err)
        &&& if after.closed {
            res matches Err(Error::StreamClosed)
        } else {
            res is Ok
        }
    }

    /// What handing a request to `sender` comes to: a request that the channel
    /// did not take means that the stream is closed, for good.
    pub fn sent(
        &mut self,
        outcome: Result<(), mpsc::error::SendError<Bytes>>,
    ) -> (res: Result<(), Error>)
        ensures
            old(self).follows_send(outcome, *final(self), res),
    {
        match outcome {
            Ok(()) => (),
            Err(_) => self.closed = true,
        }
        if self.closed {
            Err(Error::StreamClosed)
        } else {
            Ok(())
        }
    }

    /// What asking `receiver` for a response comes to: the response, `None` at
    /// the end of the stream, or the status that ended it.
    pub fn received(outcome: Result<Option<Bytes>, Status>) -> (res: Result<Option<Bytes>, Error>)
        ensures
            match outcome {
                Ok(message) => res == Ok::<Option<Bytes>, Error>(message),
                Err(status) => res == Err::<Option<Bytes>, Error>(Error::Stream(status)),
            },
    {
        match outcome {
            Ok(message) => Ok(message),
            Err(status) => Err(Error::Stream(status)),
        }
    }
}

} // verus!
