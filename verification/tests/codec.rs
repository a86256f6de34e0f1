use bytes::{BufMut, Bytes, BytesMut};
use http_body_util::BodyExt;
use tonic::codec::{DecodeBuf, Decoder, EncodeBody, EncodeBuf, Encoder};
use tonic::{Status, Streaming};
use xds_transport::codec::{BytesCodec, BytesDecoder, BytesEncoder};

struct TestEncoder(BytesEncoder);

impl Encoder for TestEncoder {
    type Item = Bytes;
    type Error = Status;

    fn encode(&mut self, item: Bytes, dst: &mut EncodeBuf<'_>) -> Result<(), Status> {
        self.0.encode_if_room(item, dst).unwrap()
    }
}

struct TestDecoder(BytesDecoder);

impl Decoder for TestDecoder {
    type Item = Bytes;
    type Error = Status;

    fn decode(&mut self, src: &mut DecodeBuf<'_>) -> Result<Option<Bytes>, Status> {
        self.0.decode(src)
    }
}

fn runtime() -> tokio::runtime::Runtime {
    tokio::runtime::Builder::new_current_thread().build().unwrap()
}

fn encode_all(messages: Vec<Bytes>) -> Bytes {
    let source = tokio_stream::iter(messages.into_iter().map(Ok::<Bytes, Status>));
    let body = EncodeBody::new_client(TestEncoder(BytesCodec.encoder()), source, None, None);
    runtime().block_on(async { body.collect().await.unwrap().to_bytes() })
}

fn decode_all(wire: Bytes) -> Vec<Bytes> {
    let body = http_body_util::Full::new(wire);
    let mut stream = Streaming::new_request(TestDecoder(BytesCodec.decoder()), body, None, None);
    runtime().block_on(async {
        let mut messages = Vec::new();
        while let Some(message) = stream.message().await.unwrap() {
            messages.push(message);
        }
        messages
    })
}

#[test]
fn message_is_written_as_it_is() {
    // A gRPC frame: no compression, a length of four bytes, the message.
    assert_eq!(encode_all(vec![Bytes::from_static(b"abc")]), &b"\0\0\0\0\x03abc"[..]);
    assert_eq!(encode_all(vec![Bytes::new()]), &b"\0\0\0\0\0"[..]);
}

#[test]
fn messages_are_appended() {
    let wire = encode_all(vec![Bytes::from_static(b"a"), Bytes::from_static(b"bc")]);
    assert_eq!(wire, &b"\0\0\0\0\x01a\0\0\0\0\x02bc"[..]);
}

#[test]
fn message_is_read_as_it_is() {
    let messages = decode_all(Bytes::from_static(b"\0\0\0\0\x02\xff\0\0\0\0\0\0\0\0\0\0\x01x"));
    assert_eq!(messages, vec![&b"\xff\0"[..], &b""[..], &b"x"[..]]);
}

#[test]
fn bytes_pass_through_unchanged() {
    let mut large = BytesMut::new();
    large.put_bytes(0x5a, 100_000);
    let messages = vec![Bytes::from_static(b"\x00\xffprotobuf"), Bytes::new(), large.freeze()];
    assert_eq!(decode_all(encode_all(messages.clone())), messages);
}

/// Encodes each message in two pieces, one after the other.
struct PiecewiseEncoder(BytesEncoder);

impl Encoder for PiecewiseEncoder {
    type Item = (Bytes, Bytes);
    type Error = Status;

    fn encode(&mut self, item: (Bytes, Bytes), dst: &mut EncodeBuf<'_>) -> Result<(), Status> {
        self.0.encode_if_room(item.0, dst).unwrap().unwrap();
        self.0.encode_if_room(item.1, dst).unwrap()
    }
}

fn encode_piecewise(first: &'static [u8], second: &'static [u8]) -> Bytes {
    let pieces = (Bytes::from_static(first), Bytes::from_static(second));
    let source = tokio_stream::iter(vec![Ok::<(Bytes, Bytes), Status>(pieces)]);
    let encoder = PiecewiseEncoder(BytesCodec.encoder());
    let body = EncodeBody::new_client(encoder, source, None, None);
    runtime().block_on(async { body.collect().await.unwrap().to_bytes() })
}

#[test]
fn pieces_are_encoded_as_their_concatenation() {
    let whole = encode_all(vec![Bytes::from_static(b"abcd")]);
    assert_eq!(encode_piecewise(b"ab", b"cd"), whole);
    assert_eq!(encode_piecewise(b"a", b"bcd"), whole);
}

#[test]
fn encoding_nothing_writes_nothing() {
    let whole = encode_all(vec![Bytes::from_static(b"abcd")]);
    assert_eq!(encode_piecewise(b"", b"abcd"), whole);
    assert_eq!(encode_piecewise(b"abcd", b""), whole);
}
