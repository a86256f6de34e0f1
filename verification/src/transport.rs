//! A transport to an xDS server, and opening ADS streams on it.
//!
//! Waiting for the connection, fetching a token and making the call are the
//! caller's. [`StreamStep`] says what to do next, and the outcome goes back to
//! the library.

use vstd::prelude::*;

use bytes::Bytes;
use google_cloud_auth::credentials::AccessTokenCredentials;
use google_cloud_auth::errors::CredentialsError;
use http::uri::PathAndQuery;
use std::sync::Arc;
use tokio::sync::mpsc;
use tonic::client::Grpc;
use tonic::transport::Channel;
use tonic::{Request, Response, Status, Streaming};

use crate::builder::{BuildStep, TonicTransportBuilder};
use crate::config::ServerConfig;
use crate::error::Error;
use crate::outside::{
    channel_clone, channel_debug, credentials_error_display, credentials_error_text,
    credentials_share, grpc_channel, grpc_new, invalid_metadata_value_text, is_metadata_value,
    is_plain_key, is_plain_path, is_plain_path_char, mpsc_channel, no_metadata,
    path_from_static, path_text, payloads, receiver_stream_new, request_insert_metadata,
    request_message, request_metadata, request_new, request_stream_source,
    request_stream_yields, response_into_inner, response_message, sender_feeds,
    sender_max_capacity, stream_chain, stream_iter, transport_error_display, RequestStream,
};
use crate::stream::TonicAdsStream;

verus! {

/// The gRPC path of the ADS method StreamAggregatedResources.
pub const ADS_PATH: &'static str =
    "/envoy.service.discovery.v3.AggregatedDiscoveryService/StreamAggregatedResources";

/// How many requests wait at most between the client and its ADS stream.
pub const ADS_CHANNEL_BUFFER_SIZE: usize = 16;

/// Factory for ADS streams over tonic.
pub struct TonicTransport {
    pub channel: Channel,
    /// GCP credentials for `google_default`. Where there are some, each ADS
    /// stream carries `authorization: Bearer <token>`.
    pub creds: Option<Arc<AccessTokenCredentials>>,
}

/// The two ends of an ADS stream's request side, and the method to call.
pub struct PendingStream {
    /// What the client sends requests with once the stream is open.
    pub sender: mpsc::Sender<Bytes>,
    /// What the requests are read from.
    pub requests: RequestStream,
    pub path: PathAndQuery,
}

/// A call of the ADS method, ready to be made.
pub struct OpenRequest {
    /// What the client sends requests with once the stream is open.
    pub sender: mpsc::Sender<Bytes>,
    pub request: Request<RequestStream>,
    pub path: PathAndQuery,
}

/// What has to be done next to open an ADS stream.
pub enum StreamStep<'a> {
    /// Get an access token from the credentials, and hand the outcome to
    /// [`PendingStream::authorize`].
    FetchToken { credentials: &'a Arc<AccessTokenCredentials>, pending: PendingStream },
    /// Call the method, and hand the outcome to [`TonicTransport::opened`] with
    /// the sender.
    Open(OpenRequest),
    /// Nothing: opening the stream has failed.
    Failed(Error),
}

/// Whether `requests` yields `initial` first, then what `sender` sends, with
/// the buffer of an ADS stream between them, and nothing else gets what
/// `sender` sends.
pub open spec fn carries(
    sender: mpsc::Sender<Bytes>,
    requests: RequestStream,
    initial: Seq<Seq<u8>>,
) -> bool {
    &&& sender_max_capacity(sender) == ADS_CHANNEL_BUFFER_SIZE
    &&& sender_feeds(sender, request_stream_source(requests))
    &&& forall|other: mpsc::Receiver<Bytes>| #[trigger]
        sender_feeds(sender, other) ==> other == request_stream_source(requests)
    &&& forall|queued: Seq<Seq<u8>>| #[trigger]
        request_stream_yields(requests, queued) == initial + queued
}

/// The value of the `authorization` metadata for a token.
pub open spec fn bearer(token: Seq<char>) -> Seq<char> {
    "Bearer "@ + token
}

/// The metadata of a stream that is opened with a token.
pub open spec fn authorization(token: Seq<char>) -> Map<Seq<char>, Seq<u8>> {
    no_metadata().insert("authorization"@, vstd::utf8::encode_utf8(bearer(token)))
}

impl OpenRequest {
    /// Whether this call opens an ADS stream that starts with `initial`, with
    /// some metadata.
    pub open spec fn opens(
        self,
        initial: Seq<Seq<u8>>,
        metadata: Map<Seq<char>, Seq<u8>>,
    ) -> bool {
        &&& carries(self.sender, request_message(self.request), initial)
        &&& path_text(self.path) == ADS_PATH@
        &&& request_metadata(self.request) == metadata
    }
}

impl PendingStream {
    /// Whether this is the request side of an ADS stream that starts with
    /// `initial`.
    pub open spec fn starts_with(self, initial: Seq<Seq<u8>>) -> bool {
        &&& carries(self.sender, self.requests, initial)
        &&& path_text(self.path) == ADS_PATH@
    }

    /// Whether `open` is the call that this becomes, with some metadata.
    pub open spec fn becomes(self, open: OpenRequest, metadata: Map<Seq<char>, Seq<u8>>) -> bool {
        &&& open.sender == self.sender
        &&& open.path == self.path
        &&& request_message(open.request) == self.requests
        &&& request_metadata(open.request) == metadata
    }

    /// The request side of an ADS stream: the initial requests come first, so
    /// that there is something to send before the server has answered.
    fn new(initial_requests: Vec<Bytes>) -> (pending: PendingStream)
        ensures
            pending.starts_with(payloads(initial_requests@)),
    {
        let (sender, receiver) = mpsc_channel(ADS_CHANNEL_BUFFER_SIZE);
        let requests = stream_chain(stream_iter(initial_requests), receiver_stream_new(receiver));
        proof {
            lemma_ads_path_is_plain();
        }
        let path = path_from_static(ADS_PATH);
        PendingStream { sender, requests, path }
    }

    /// Whether `step` is what follows on the outcome of fetching a token.
    pub open spec fn follows_token(
        self,
        outcome: Result<String, CredentialsError>,
        step: StreamStep<'_>,
    ) -> bool {
        match outcome {
            Err(error) => step matches StreamStep::Failed(failure) && failure.is_connection(
                "google_default token fetch: "@ + credentials_error_display(error),
            ),
            Ok(token) => if is_metadata_value(vstd::utf8::encode_utf8(bearer(token@))) {
                step matches StreamStep::Open(open) && self.becomes(open, authorization(token@))
            } else {
                step matches StreamStep::Failed(failure) && failure.is_connection(
                    "google_default token metadata: failed to parse metadata value"@,
                )
            },
        }
    }

    /// The step after fetching a token: the call carries it as a bearer token.
    /// A token that cannot stand in metadata is a connection error, as is a
    /// token that could not be fetched.
    pub fn authorize(self, outcome: Result<String, CredentialsError>) -> (step: StreamStep<'static>)
        ensures
            self.follows_token(outcome, step),
    {
        match outcome {
            Err(error) => {
                let text = credentials_error_text(&error);
                StreamStep::Failed(
                    Error::Connection(
                        "google_default token fetch: ".to_owned().concat(text.as_str()),
                    ),
                )
            },
            Ok(token) => {
                let value = "Bearer ".to_owned().concat(token.as_str());
                let mut request = request_new(self.requests);
                proof {
                    lemma_authorization_is_plain();
                }
                match request_insert_metadata(&mut request, "authorization", value) {
                    Ok(()) => StreamStep::Open(
                        OpenRequest { sender: self.sender, request, path: self.path },
                    ),
                    Err(error) => {
                        let text = invalid_metadata_value_text(&error);
                        let message = "google_default token metadata: ".to_owned().concat(
                            text.as_str(),
                        );
                        proof {
                            lemma_token_metadata_message();
                        }
                        StreamStep::Failed(Error::Connection(message))
                    },
                }
            },
        }
    }
}

impl Clone for TonicTransport {
    /// A transport over the same connection, with the same credentials.
    fn clone(&self) -> (copy: Self)
        ensures
            copy == *self,
    {
        let creds = match &self.creds {
            Some(credentials) => Some(credentials_share(credentials)),
            None => None,
        };
        TonicTransport { channel: channel_clone(&self.channel), creds }
    }
}

impl TonicTransport {
    /// Creates a transport from an existing connection.
    pub fn from_channel(channel: Channel) -> (transport: Self)
        ensures
            transport.channel == channel,
            transport.creds is None,
    {
        TonicTransport { channel, creds: None }
    }

    /// A gRPC client over the connection of this transport, for one stream.
    pub fn client(&self) -> (client: Grpc<Channel>)
        ensures
            grpc_channel(client) == self.channel,
    {
        grpc_new(channel_clone(&self.channel))
    }

    /// Whether `step` is what follows on the outcome of waiting for the
    /// connection to be ready.
    pub open spec fn follows_ready(
        self,
        ready: Result<(), tonic::transport::Error>,
        initial: Seq<Seq<u8>>,
        step: StreamStep<'_>,
    ) -> bool {
        match ready {
            Err(error) => step matches StreamStep::Failed(failure) && failure.is_connection(
                transport_error_display(error),
            ),
            Ok(()) => match self.creds {
                Some(creds) => step matches StreamStep::FetchToken { credentials, pending }
                    && *credentials == creds && pending.starts_with(initial),
                None => step matches StreamStep::Open(open) && open.opens(initial, no_metadata()),
            },
        }
    }

    /// The step after waiting for the connection to be ready: without
    /// credentials the call can be made, with them a token has to be fetched.
    pub fn start_stream(
        &self,
        ready: Result<(), tonic::transport::Error>,
        initial_requests: Vec<Bytes>,
    ) -> (step: StreamStep<'_>)
        ensures
            self.follows_ready(ready, payloads(initial_requests@), step),
    {
        if let Err(error) = ready {
            return StreamStep::Failed(Error::from_transport(error));
        }
        let pending = PendingStream::new(initial_requests);
        match &self.creds {
            Some(credentials) => StreamStep::FetchToken { credentials, pending },
            None => {
                let request = request_new(pending.requests);
                StreamStep::Open(
                    OpenRequest { sender: pending.sender, request, path: pending.path },
                )
            },
        }
    }

    /// Whether `res` is what follows on the outcome of the call.
    pub open spec fn follows_call(
        sender: mpsc::Sender<Bytes>,
        outcome: Result<Response<Streaming<Bytes>>, Status>,
        res: Result<TonicAdsStream, Error>,
    ) -> bool {
        match outcome {
            Ok(response) => res matches Ok(stream) && stream.sender == sender && stream.receiver
                == response_message(response) && !stream.closed,
            Err(status) => res == Err::<TonicAdsStream, Error>(Error::Stream(status)),
        }
    }

    /// The stream that comes of the call, or the status that the call ended
    /// with.
    pub fn opened(
        sender: mpsc::Sender<Bytes>,
        outcome: Result<Response<Streaming<Bytes>>, Status>,
    ) -> (res: Result<TonicAdsStream, Error>)
        ensures
            Self::follows_call(sender, outcome, res),
    {
        match outcome {
            Ok(response) => Ok(
                TonicAdsStream { sender, receiver: response_into_inner(response), closed: false },
            ),
            Err(status) => Err(Error::Stream(status)),
        }
    }

    /// The first step of connecting to an xDS server with default settings,
    /// and the builder that takes the further steps.
    pub fn start_connect(uri: String) -> (start: (TonicTransportBuilder, BuildStep))
        ensures
            start.0.tls_config is None,
            !start.0.google_default,
            match start.1 {
                BuildStep::Connect(endpoint) => start.0.makes(uri@, Ok(endpoint)),
                BuildStep::Done(Err(error)) => start.0.makes(uri@, Err(error)),
                _ => false,
            },
    {
        let server = ServerConfig::new(uri);
        let builder = TonicTransportBuilder::new();
        let step = builder.start_build(&server);
        (builder, step)
    }

    /// What is shown of a transport for debugging: of the credentials only
    /// whether there are some.
    pub fn debug_text(&self) -> (text: String)
        ensures
            text@ == "TonicTransport { channel: Channel, google_default_creds: "@ + (
            if self.creds is Some {
                "true"@
            } else {
                "false"@
            }) + " }"@,
    {
        let channel = channel_debug(&self.channel);
        let mut text = "TonicTransport { channel: ".to_owned();
        text.append(channel.as_str());
        text.append(", google_default_creds: ");
        if self.creds.is_some() {
            text.append("true");
        } else {
            text.append("false");
        }
        text.append(" }");
        proof {
            reveal_strlit("TonicTransport { channel: ");
            reveal_strlit("Channel");
            reveal_strlit(", google_default_creds: ");
            reveal_strlit("TonicTransport { channel: Channel, google_default_creds: ");
            assert("TonicTransport { channel: "@ + "Channel"@ + ", google_default_creds: "@
                =~= "TonicTransport { channel: Channel, google_default_creds: "@);
        }
        text
    }
}

/// The path of the ADS method is a plain path.
proof fn lemma_ads_path_is_plain()
    ensures
        is_plain_path(ADS_PATH@),
{
    reveal_strlit(
        "/envoy.service.discovery.v3.AggregatedDiscoveryService/StreamAggregatedResources",
    );
    assert forall|i: int| 0 <= i < ADS_PATH@.len() implies is_plain_path_char(
        #[trigger] ADS_PATH@[i],
    ) by {}
}

/// The key of the bearer token is a plain key.
proof fn lemma_authorization_is_plain()
    ensures
        is_plain_key("authorization"@),
{
    reveal_strlit("authorization");
}

/// The message for a token that cannot stand in metadata.
proof fn lemma_token_metadata_message()
    ensures
        "google_default token metadata: "@ + "failed to parse metadata value"@
            == "google_default token metadata: failed to parse metadata value"@,
{
    reveal_strlit("google_default token metadata: ");
    reveal_strlit("failed to parse metadata value");
    reveal_strlit("google_default token metadata: failed to parse metadata value");
    assert("google_default token metadata: "@ + "failed to parse metadata value"@
        =~= "google_default token metadata: failed to parse metadata value"@);
}

} // verus!
