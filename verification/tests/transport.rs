use bytes::Bytes;
use google_cloud_auth::credentials::{
    AccessToken, AccessTokenCredentials, AccessTokenCredentialsProvider, CacheableResource,
    CredentialsProvider,
};
use google_cloud_auth::errors::CredentialsError;
use std::future::Future;
use std::pin::Pin;
use std::sync::Arc;
use std::task::Poll;
use tokio_stream::StreamExt;
use tonic::codec::{DecodeBuf, Decoder};
use tonic::transport::{Channel, Endpoint};
use tonic::{Code, Response, Status, Streaming};
use xds_transport::codec::BytesDecoder;
use xds_transport::error::Error;
use xds_transport::transport::{
    OpenRequest, PendingStream, StreamStep, TonicTransport, ADS_CHANNEL_BUFFER_SIZE, ADS_PATH,
};

#[derive(Debug)]
struct FixedToken;

impl CredentialsProvider for FixedToken {
    async fn headers(
        &self,
        _extensions: http::Extensions,
    ) -> Result<CacheableResource<http::HeaderMap>, CredentialsError> {
        Ok(CacheableResource::NotModified)
    }

    async fn universe_domain(&self) -> Option<String> {
        None
    }
}

impl AccessTokenCredentialsProvider for FixedToken {
    async fn access_token(&self) -> Result<AccessToken, CredentialsError> {
        Ok(AccessToken { token: "token".to_string() })
    }
}

struct TestDecoder(BytesDecoder);

impl Decoder for TestDecoder {
    type Item = Bytes;
    type Error = Status;

    fn decode(&mut self, src: &mut DecodeBuf<'_>) -> Result<Option<Bytes>, Status> {
        self.0.decode(src)
    }
}

/// Runs a closure where tonic can spawn the tasks of a channel.
fn with_channel<T>(use_it: impl FnOnce(Channel) -> T) -> T {
    let runtime = tokio::runtime::Builder::new_current_thread().build().unwrap();
    let _guard = runtime.enter();
    use_it(Endpoint::from_static("http://127.0.0.1:1").connect_lazy())
}

fn with_credentials<T>(use_it: impl FnOnce(TonicTransport) -> T) -> T {
    with_channel(|channel| {
        let creds = Some(Arc::new(AccessTokenCredentials::from(FixedToken)));
        use_it(TonicTransport { channel, creds })
    })
}

fn connection_text(error: Error) -> String {
    match error {
        Error::Connection(text) => text,
        other => panic!("not a connection error: {:?}", other),
    }
}

fn dial_error() -> tonic::transport::Error {
    Endpoint::from_shared("not a uri".to_string()).unwrap_err()
}

fn requests(texts: &[&'static str]) -> Vec<Bytes> {
    texts.iter().map(|text| Bytes::from_static(text.as_bytes())).collect()
}

fn open_without_credentials(initial: &[&'static str]) -> OpenRequest {
    with_channel(|channel| {
        let transport = TonicTransport::from_channel(channel);
        let step = transport.start_stream(Ok(()), requests(initial));
        match step {
            StreamStep::Open(open) => open,
            _ => panic!("the call can be made"),
        }
    })
}

fn pending(initial: &[&'static str]) -> PendingStream {
    with_credentials(|transport| {
        let step = transport.start_stream(Ok(()), requests(initial));
        match step {
            StreamStep::FetchToken { pending, .. } => pending,
            _ => panic!("a token has to be fetched"),
        }
    })
}

/// What a call sends where `queued` is sent through its channel, which is then
/// closed.
fn sent_by(open: OpenRequest, queued: &[&'static str]) -> Vec<Bytes> {
    let runtime = tokio::runtime::Builder::new_current_thread().build().unwrap();
    runtime.block_on(async {
        for request in requests(queued) {
            open.sender.send(request).await.unwrap();
        }
        drop(open.sender);
        open.request.into_inner().collect().await
    })
}

#[test]
fn transport_from_a_channel_has_no_credentials() {
    with_channel(|channel| {
        let transport = TonicTransport::from_channel(channel);
        assert!(transport.creds.is_none());
        assert!(transport.clone().creds.is_none());
        let _client = transport.client();
    });
}

#[test]
fn debug_text_shows_only_whether_there_are_credentials() {
    with_channel(|channel| {
        assert_eq!(
            TonicTransport::from_channel(channel).debug_text(),
            "TonicTransport { channel: Channel, google_default_creds: false }"
        );
    });
    with_credentials(|transport| {
        assert_eq!(
            transport.debug_text(),
            "TonicTransport { channel: Channel, google_default_creds: true }"
        );
    });
}

#[test]
fn stream_is_opened_on_the_ads_method() {
    let open = open_without_credentials(&["first"]);
    assert_eq!(
        ADS_PATH,
        "/envoy.service.discovery.v3.AggregatedDiscoveryService/StreamAggregatedResources"
    );
    assert_eq!(open.path.as_str(), ADS_PATH);
    assert!(open.request.metadata().is_empty());
    assert_eq!(ADS_CHANNEL_BUFFER_SIZE, 16);
    assert_eq!(open.sender.max_capacity(), 16);
}

#[test]
fn initial_requests_come_first() {
    let open = open_without_credentials(&["one", "two"]);
    assert_eq!(sent_by(open, &["three", "four"]), requests(&["one", "two", "three", "four"]));
    let open = open_without_credentials(&[]);
    assert_eq!(sent_by(open, &["one"]), requests(&["one"]));
}

#[test]
fn initial_requests_need_nothing_from_the_channel() {
    let open = open_without_credentials(&["one"]);
    let runtime = tokio::runtime::Builder::new_current_thread().build().unwrap();
    let mut stream = open.request.into_inner();
    assert_eq!(runtime.block_on(stream.next()), Some(Bytes::from_static(b"one")));
    drop(open.sender);
    assert_eq!(runtime.block_on(stream.next()), None);
}

/// Whether a future is still waiting once it has been polled.
async fn waits<F: Future + Unpin>(future: &mut F) -> bool {
    std::future::poll_fn(|cx| Poll::Ready(Pin::new(&mut *future).poll(cx).is_pending())).await
}

#[test]
fn sending_waits_once_the_buffer_is_full_and_drops_nothing() {
    let open = open_without_credentials(&["i0", "i1"]);
    let runtime = tokio::runtime::Builder::new_current_thread().build().unwrap();
    runtime.block_on(async {
        let sender = open.sender;
        let mut stream = open.request.into_inner();
        // The initial requests take no room in the buffer.
        for n in 0..16u8 {
            let mut sending = Box::pin(sender.send(Bytes::from(vec![n])));
            assert!(!waits(&mut sending).await);
        }
        let mut late = Box::pin(sender.send(Bytes::from(vec![16])));
        assert!(waits(&mut late).await);
        assert_eq!(stream.next().await, Some(Bytes::from_static(b"i0")));
        assert_eq!(stream.next().await, Some(Bytes::from_static(b"i1")));
        assert!(waits(&mut late).await);
        assert_eq!(stream.next().await, Some(Bytes::from(vec![0])));
        assert!(late.await.is_ok());
        drop(sender);
        let mut rest: Vec<u8> = Vec::new();
        while let Some(request) = stream.next().await {
            rest.extend_from_slice(&request);
        }
        assert_eq!(rest, (1..17u8).collect::<Vec<u8>>());
    });
}

#[test]
fn streams_of_one_transport_are_separate() {
    with_channel(|channel| {
        let transport = TonicTransport::from_channel(channel);
        let open = |initial: &[&'static str]| -> OpenRequest {
            let step = transport.start_stream(Ok(()), requests(initial));
            match step {
                StreamStep::Open(open) => open,
                _ => panic!("the call can be made"),
            }
        };
        let one = open(&["one"]);
        let other = open(&["other"]);
        assert!(!one.sender.same_channel(&other.sender));
        assert_eq!(sent_by(one, &["more of one"]), requests(&["one", "more of one"]));
        assert_eq!(sent_by(other, &["more of other"]), requests(&["other", "more of other"]));
    });
}

#[test]
fn connection_that_is_not_ready_opens_nothing() {
    with_channel(|channel| {
        let transport = TonicTransport::from_channel(channel);
        let step = transport.start_stream(Err(dial_error()), requests(&["one"]));
        match step {
            StreamStep::Failed(error) => assert_eq!(connection_text(error), "invalid URI"),
            _ => panic!("the connection is not ready"),
        }
    });
    with_credentials(|transport| {
        let step = transport.start_stream(Err(dial_error()), Vec::new());
        assert!(matches!(step, StreamStep::Failed(Error::Connection(_))));
    });
}

#[test]
fn token_is_fetched_from_the_credentials_of_the_transport() {
    with_credentials(|transport| {
        let step = transport.start_stream(Ok(()), requests(&["one"]));
        match step {
            StreamStep::FetchToken { credentials, .. } => {
                assert!(Arc::ptr_eq(credentials, transport.creds.as_ref().unwrap()))
            }
            _ => panic!("a token has to be fetched"),
        }
    });
}

#[test]
fn token_goes_as_a_bearer_token() {
    let step = pending(&["one"]).authorize(Ok("ya29.token".to_string()));
    match step {
        StreamStep::Open(open) => {
            assert_eq!(open.request.metadata().len(), 1);
            assert_eq!(
                open.request.metadata().get("authorization").unwrap(),
                "Bearer ya29.token"
            );
            assert_eq!(open.path.as_str(), ADS_PATH);
            assert_eq!(open.sender.max_capacity(), 16);
            assert_eq!(sent_by(open, &["two"]), requests(&["one", "two"]));
        }
        _ => panic!("the call can be made"),
    }
}

#[test]
fn tokens_of_any_printable_text_are_taken() {
    for token in ["", " ~!", "a\tb", "\u{e9}\u{20ac}"] {
        let step = pending(&[]).authorize(Ok(token.to_string()));
        match step {
            StreamStep::Open(open) => assert_eq!(
                open.request.metadata().get("authorization").unwrap().as_bytes(),
                format!("Bearer {}", token).as_bytes()
            ),
            _ => panic!("the call can be made"),
        }
    }
}

#[test]
fn token_with_control_characters_is_a_connection_error() {
    for token in ["two\nlines", "\0", "del\u{7f}", "\r"] {
        let step = pending(&["one"]).authorize(Ok(token.to_string()));
        match step {
            StreamStep::Failed(error) => assert_eq!(
                connection_text(error),
                "google_default token metadata: failed to parse metadata value"
            ),
            _ => panic!("the token cannot stand in metadata"),
        }
    }
}

#[test]
fn token_that_is_not_fetched_is_a_connection_error() {
    let refused = CredentialsError::from_msg(false, "no token today");
    let expected = format!("google_default token fetch: {}", refused);
    let step = pending(&["one"]).authorize(Err(refused));
    match step {
        StreamStep::Failed(error) => {
            let text = connection_text(error);
            assert_eq!(text, expected);
            assert!(text.starts_with("google_default token fetch: no token today"));
        }
        _ => panic!("there is no token"),
    }
}

#[test]
fn opened_stream_has_both_ends() {
    let open = open_without_credentials(&[]);
    let body = http_body_util::Full::new(Bytes::from_static(b"\0\0\0\0\x02hi"));
    let receiver = Streaming::new_request(TestDecoder(BytesDecoder), body, None, None);
    let mut stream = TonicTransport::opened(open.sender, Ok(Response::new(receiver))).unwrap();
    assert_eq!(stream.sender.max_capacity(), 16);
    let runtime = tokio::runtime::Builder::new_current_thread().build().unwrap();
    assert_eq!(
        runtime.block_on(stream.receiver.message()).unwrap(),
        Some(Bytes::from_static(b"hi"))
    );
    runtime.block_on(stream.sender.send(Bytes::from_static(b"up"))).unwrap();
    let mut requests = open.request.into_inner();
    assert_eq!(runtime.block_on(requests.next()), Some(Bytes::from_static(b"up")));
}

#[test]
fn refused_call_is_answered_with_its_status() {
    let open = open_without_credentials(&[]);
    let res = TonicTransport::opened(open.sender, Err(Status::unauthenticated("who are you")));
    match res {
        Err(Error::Stream(status)) => {
            assert_eq!(status.code(), Code::Unauthenticated);
            assert_eq!(status.message(), "who are you");
        }
        other => panic!("not a status: {:?}", other),
    }
}
