use bytes::Bytes;
use tokio::sync::mpsc;
use tonic::codec::{DecodeBuf, Decoder};
use tonic::{Code, Response, Status, Streaming};
use xds_transport::codec::BytesDecoder;
use xds_transport::error::Error;
use xds_transport::stream::TonicAdsStream;
use xds_transport::transport::TonicTransport;

struct TestDecoder(BytesDecoder);

impl Decoder for TestDecoder {
    type Item = Bytes;
    type Error = Status;

    fn decode(&mut self, src: &mut DecodeBuf<'_>) -> Result<Option<Bytes>, Status> {
        self.0.decode(src)
    }
}

/// A stream on which the server has answered `hi`.
fn stream_with(sender: mpsc::Sender<Bytes>) -> TonicAdsStream {
    let body = http_body_util::Full::new(Bytes::from_static(b"\0\0\0\0\x02hi"));
    let receiver = Streaming::new_request(TestDecoder(BytesDecoder), body, None, None);
    TonicTransport::opened(sender, Ok(Response::new(receiver))).unwrap()
}

async fn send(stream: &mut TonicAdsStream, request: &'static [u8]) -> Result<(), Error> {
    let request = stream.start_send(Bytes::from_static(request))?;
    let outcome = stream.sender.send(request).await;
    stream.sent(outcome)
}

fn run(scenario: impl std::future::Future<Output = ()>) {
    tokio::runtime::Builder::new_current_thread().build().unwrap().block_on(scenario)
}

#[test]
fn taken_request_is_sent() {
    run(async {
        let (sender, mut receiver) = mpsc::channel::<Bytes>(1);
        let mut stream = stream_with(sender);
        assert!(!stream.closed);
        assert!(send(&mut stream, b"request").await.is_ok());
        assert!(!stream.closed);
        assert_eq!(receiver.recv().await, Some(Bytes::from_static(b"request")));
    });
}

#[test]
fn refused_request_means_a_closed_stream() {
    run(async {
        let (sender, receiver) = mpsc::channel::<Bytes>(1);
        let mut stream = stream_with(sender);
        drop(receiver);
        assert!(matches!(send(&mut stream, b"request").await, Err(Error::StreamClosed)));
        assert!(stream.closed);
    });
}

#[test]
fn closed_request_side_stays_closed() {
    run(async {
        let (sender, mut receiver) = mpsc::channel::<Bytes>(16);
        let mut stream = stream_with(sender);
        assert!(send(&mut stream, b"before").await.is_ok());
        receiver.close();
        for _ in 0..3 {
            assert!(matches!(send(&mut stream, b"after").await, Err(Error::StreamClosed)));
            // The channel itself refuses it too.
            assert!(stream.sender.send(Bytes::from_static(b"after")).await.is_err());
        }
        assert!(matches!(stream.start_send(Bytes::new()), Err(Error::StreamClosed)));
        assert!(matches!(stream.sent(Ok(())), Err(Error::StreamClosed)));
        assert_eq!(receiver.recv().await, Some(Bytes::from_static(b"before")));
        assert_eq!(receiver.recv().await, None);
        // The response side is as it was.
        let response = TonicAdsStream::received(stream.receiver.message().await).unwrap();
        assert_eq!(response, Some(Bytes::from_static(b"hi")));
    });
}

#[test]
fn response_is_handed_on() {
    let message = Bytes::from_static(b"response");
    assert_eq!(TonicAdsStream::received(Ok(Some(message.clone()))).unwrap(), Some(message));
}

#[test]
fn end_of_stream_is_handed_on() {
    assert_eq!(TonicAdsStream::received(Ok(None)).unwrap(), None);
}

#[test]
fn status_ends_the_stream() {
    match TonicAdsStream::received(Err(Status::unavailable("gone"))) {
        Err(Error::Stream(status)) => {
            assert_eq!(status.code(), Code::Unavailable);
            assert_eq!(status.message(), "gone");
        }
        other => panic!("not a status: {:?}", other),
    }
}
