use bytes::Bytes;
use envoy_types::pb::envoy::service::discovery::v3::aggregated_discovery_service_server::{
    AggregatedDiscoveryService, AggregatedDiscoveryServiceServer,
};
use envoy_types::pb::envoy::service::discovery::v3::{
    DeltaDiscoveryRequest, DeltaDiscoveryResponse, DiscoveryRequest, DiscoveryResponse,
};
use hyper_util::rt::TokioIo;
use prost::Message;
use std::future::Future;
use std::pin::Pin;
use std::task::{Context, Poll};
use tokio::io::DuplexStream;
use tokio::sync::mpsc;
use tokio_stream::wrappers::ReceiverStream;
use tokio_stream::{Stream, StreamExt};
use tonic::codec::{Codec, DecodeBuf, Decoder, EncodeBuf, Encoder};
use tonic::{Request, Response, Status, Streaming};
use tower_service::Service;
use xds_transport::builder::BuildStep;
use xds_transport::codec::{BytesDecoder, BytesEncoder};
use xds_transport::error::Error;
use xds_transport::stream::TonicAdsStream;
use xds_transport::transport::{StreamStep, TonicTransport};

/// Mock ADS server that echoes back a response for each request.
struct MockAdsServer;

type Responses<T> = Pin<Box<dyn Stream<Item = Result<T, Status>> + Send>>;
type Reply<'a, T> = Pin<Box<dyn Future<Output = Result<Response<Responses<T>>, Status>> + Send + 'a>>;

impl AggregatedDiscoveryService for MockAdsServer {
    type StreamAggregatedResourcesStream = Responses<DiscoveryResponse>;
    type DeltaAggregatedResourcesStream = Responses<DeltaDiscoveryResponse>;

    fn stream_aggregated_resources<'life0, 'async_trait>(
        &'life0 self,
        request: Request<Streaming<DiscoveryRequest>>,
    ) -> Reply<'async_trait, DiscoveryResponse>
    where
        'life0: 'async_trait,
        Self: 'async_trait,
    {
        Box::pin(async move {
            let outbound = request.into_inner().map(|req| {
                req.map(|req| DiscoveryResponse {
                    version_info: "1".to_string(),
                    type_url: req.type_url,
                    nonce: "nonce-1".to_string(),
                    resources: vec![],
                    ..Default::default()
                })
            });
            let outbound: Responses<DiscoveryResponse> = Box::pin(outbound);
            Ok(Response::new(outbound))
        })
    }

    fn delta_aggregated_resources<'life0, 'async_trait>(
        &'life0 self,
        _request: Request<Streaming<DeltaDiscoveryRequest>>,
    ) -> Reply<'async_trait, DeltaDiscoveryResponse>
    where
        'life0: 'async_trait,
        Self: 'async_trait,
    {
        Box::pin(async move { Err(Status::unimplemented("delta not supported in mock")) })
    }
}

struct TestCodec;
struct TestEncoder(BytesEncoder);
struct TestDecoder(BytesDecoder);

impl Codec for TestCodec {
    type Encode = Bytes;
    type Decode = Bytes;
    type Encoder = TestEncoder;
    type Decoder = TestDecoder;

    fn encoder(&mut self) -> TestEncoder {
        TestEncoder(BytesEncoder)
    }

    fn decoder(&mut self) -> TestDecoder {
        TestDecoder(BytesDecoder)
    }
}

impl Encoder for TestEncoder {
    type Item = Bytes;
    type Error = Status;

    fn encode(&mut self, item: Bytes, dst: &mut EncodeBuf<'_>) -> Result<(), Status> {
        self.0.encode_if_room(item, dst).unwrap()
    }
}

impl Decoder for TestDecoder {
    type Item = Bytes;
    type Error = Status;

    fn decode(&mut self, src: &mut DecodeBuf<'_>) -> Result<Option<Bytes>, Status> {
        self.0.decode(src)
    }
}

/// The connections that a unix domain socket takes.
struct Incoming(tokio::net::UnixListener);

impl Stream for Incoming {
    type Item = std::io::Result<tokio::net::UnixStream>;

    fn poll_next(self: Pin<&mut Self>, cx: &mut Context<'_>) -> Poll<Option<Self::Item>> {
        self.0.poll_accept(cx).map(|accepted| Some(accepted.map(|(stream, _)| stream)))
    }
}

fn socket_address() -> String {
    let now = std::time::SystemTime::now().duration_since(std::time::UNIX_EPOCH).unwrap();
    format!("/tmp/xds_transport_{}.sock", now.as_nanos())
}

async fn start_mock_server() -> String {
    let path = socket_address();
    let listener = tokio::net::UnixListener::bind(&path).unwrap();
    tokio::spawn(
        tonic::transport::Server::builder()
            .add_service(AggregatedDiscoveryServiceServer::new(MockAdsServer))
            .serve_with_incoming(Incoming(listener)),
    );
    format!("unix://{}", path)
}

/// Hands each connection to a server at one address over in memory.
#[derive(Clone)]
struct Wire {
    address: String,
    accepted: mpsc::Sender<std::io::Result<DuplexStream>>,
}

type Dialed = Pin<Box<dyn Future<Output = Result<TokioIo<DuplexStream>, std::io::Error>> + Send>>;

impl Service<http::Uri> for Wire {
    type Response = TokioIo<DuplexStream>;
    type Error = std::io::Error;
    type Future = Dialed;

    fn poll_ready(&mut self, _cx: &mut Context<'_>) -> Poll<Result<(), std::io::Error>> {
        Poll::Ready(Ok(()))
    }

    fn call(&mut self, uri: http::Uri) -> Dialed {
        let wire = self.clone();
        Box::pin(async move {
            if uri.scheme_str() != Some("http") || uri.authority().unwrap().as_str() != wire.address
            {
                return Err(std::io::ErrorKind::AddrNotAvailable.into());
            }
            let (ours, theirs) = tokio::io::duplex(65536);
            match wire.accepted.send(Ok(theirs)).await {
                Ok(()) => Ok(TokioIo::new(ours)),
                Err(_) => Err(std::io::ErrorKind::ConnectionRefused.into()),
            }
        })
    }
}

/// A mock server at a port of its own, and the wire to it.
async fn start_wired_mock_server() -> (String, Wire) {
    let listener = tokio::net::TcpListener::bind("127.0.0.1:0").await.unwrap();
    let addr = listener.local_addr().unwrap();
    let (accepted, incoming) = mpsc::channel(1);
    tokio::spawn(
        tonic::transport::Server::builder()
            .add_service(AggregatedDiscoveryServiceServer::new(MockAdsServer))
            .serve_with_incoming(ReceiverStream::new(incoming)),
    );
    (addr.to_string(), Wire { address: addr.to_string(), accepted })
}

async fn connect(uri: &str, wire: Option<Wire>) -> Result<TonicTransport, Error> {
    let (builder, step) = TonicTransport::start_connect(uri.to_string());
    match step {
        BuildStep::Connect(endpoint) => {
            let outcome = match wire {
                Some(wire) => endpoint.connect_with_connector(wire).await,
                None => endpoint.connect().await,
            };
            match builder.connected(outcome) {
                BuildStep::Done(res) => res,
                _ => panic!("default settings need no credentials"),
            }
        }
        BuildStep::Done(res) => res,
        _ => panic!("nothing is connected yet"),
    }
}

async fn new_stream(
    transport: &TonicTransport,
    initial_requests: Vec<Bytes>,
) -> Result<TonicAdsStream, Error> {
    let mut grpc = transport.client();
    let ready = grpc.ready().await;
    let step = transport.start_stream(ready, initial_requests);
    match step {
        StreamStep::Open(open) => {
            let outcome = grpc.streaming(open.request, open.path, TestCodec).await;
            TonicTransport::opened(open.sender, outcome)
        }
        StreamStep::Failed(error) => Err(error),
        StreamStep::FetchToken { .. } => panic!("there are no credentials"),
    }
}

fn run(scenario: impl Future<Output = ()>) {
    tokio::runtime::Builder::new_current_thread().enable_all().build().unwrap().block_on(scenario)
}

#[test]
fn test_tonic_transport_connect_and_stream() {
    run(async {
        let (addr, wire) = start_wired_mock_server().await;

        let uri = format!("http://{addr}");
        let transport = connect(&uri, Some(wire)).await.unwrap();

        let request = DiscoveryRequest {
            type_url: "type.googleapis.com/envoy.config.listener.v3.Listener".to_string(),
            resource_names: vec!["listener-1".to_string()],
            ..Default::default()
        };
        let request_bytes: Bytes = request.encode_to_vec().into();

        let mut stream = new_stream(&transport, vec![request_bytes]).await.unwrap();

        let response_bytes =
            TonicAdsStream::received(stream.receiver.message().await).unwrap().unwrap();
        let response = DiscoveryResponse::decode(response_bytes).unwrap();

        assert_eq!(response.version_info, "1");
        assert_eq!(response.type_url, "type.googleapis.com/envoy.config.listener.v3.Listener");
        assert_eq!(response.nonce, "nonce-1");
    });
}

#[test]
fn requests_sent_later_are_answered_in_order() {
    run(async {
        let transport = connect(&start_mock_server().await, None).await.unwrap();
        let request = |type_url: &str| -> Bytes {
            DiscoveryRequest { type_url: type_url.to_string(), ..Default::default() }
                .encode_to_vec()
                .into()
        };
        let mut stream = new_stream(&transport, vec![request("a"), request("b")]).await.unwrap();
        let handed = stream.start_send(request("c")).unwrap();
        let outcome = stream.sender.send(handed).await;
        stream.sent(outcome).unwrap();
        for expected in ["a", "b", "c"] {
            let bytes = TonicAdsStream::received(stream.receiver.message().await).unwrap().unwrap();
            assert_eq!(DiscoveryResponse::decode(bytes).unwrap().type_url, expected);
        }
    });
}

#[test]
fn server_that_is_not_there_is_a_connection_error() {
    run(async {
        let uri = format!("unix://{}", socket_address());
        match connect(&uri, None).await {
            Err(Error::Connection(text)) => assert_eq!(text, "transport error"),
            Err(other) => panic!("not a connection error: {:?}", other),
            Ok(_) => panic!("there is no server"),
        }
    });
}
