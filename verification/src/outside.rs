//! What the library believes of the crates it calls: `bytes`, `http`, `tokio`,
//! `tokio-stream`, `tonic` and `google-cloud-auth`.
//!
//! First the types of those crates that pass through the library, then names
//! for what values of them hold, then one function for each call. Nothing in
//! this file is proved; everything else in the library is.

use vstd::prelude::*;

use bytes::{Buf, BufMut, Bytes};
use google_cloud_auth::build_errors::Error as CredentialsBuildError;
use google_cloud_auth::credentials::{AccessTokenCredentials, Builder as CredentialsBuilder};
use http::uri::PathAndQuery;
use std::sync::Arc;
use tokio::sync::mpsc::{Receiver, Sender};
use tokio_stream::adapters::Chain;
use tokio_stream::wrappers::ReceiverStream;
use tokio_stream::{Iter, StreamExt};
use tonic::client::Grpc;
use tonic::codec::{DecodeBuf, EncodeBuf};
use tonic::metadata::errors::InvalidMetadataValue;
use tonic::metadata::MetadataValue;
use tonic::transport::{Channel, ClientTlsConfig, Endpoint, Error as DialError};
use tonic::{Request, Response, Streaming};

use crate::address::unix_path;

verus! {

// ---------------------------------------------------------------------------
// Types
// ---------------------------------------------------------------------------

#[verifier::external_type_specification]
#[verifier::external_body]
pub struct ExBytes(bytes::Bytes);

#[verifier::external_type_specification]
#[verifier::external_body]
pub struct ExPathAndQuery(http::uri::PathAndQuery);

#[verifier::external_type_specification]
#[verifier::external_body]
#[verifier::reject_recursive_types(T)]
pub struct ExSender<T>(tokio::sync::mpsc::Sender<T>);

#[verifier::external_type_specification]
#[verifier::external_body]
#[verifier::reject_recursive_types(T)]
pub struct ExReceiver<T>(tokio::sync::mpsc::Receiver<T>);

#[verifier::external_type_specification]
#[verifier::external_body]
#[verifier::reject_recursive_types(T)]
pub struct ExSendError<T>(tokio::sync::mpsc::error::SendError<T>);

#[verifier::external_type_specification]
#[verifier::external_body]
#[verifier::reject_recursive_types(I)]
pub struct ExIter<I>(tokio_stream::Iter<I>);

#[verifier::external_type_specification]
#[verifier::external_body]
#[verifier::reject_recursive_types(T)]
pub struct ExReceiverStream<T>(tokio_stream::wrappers::ReceiverStream<T>);

#[verifier::external_type_specification]
#[verifier::external_body]
#[verifier::reject_recursive_types(T)]
#[verifier::reject_recursive_types(U)]
pub struct ExChain<T, U>(tokio_stream::adapters::Chain<T, U>);

#[verifier::external_type_specification]
#[verifier::external_body]
pub struct ExEncodeBuf<'a>(tonic::codec::EncodeBuf<'a>);

#[verifier::external_type_specification]
#[verifier::external_body]
pub struct ExDecodeBuf<'a>(tonic::codec::DecodeBuf<'a>);

#[verifier::external_type_specification]
#[verifier::external_body]
pub struct ExStatus(tonic::Status);

#[verifier::external_type_specification]
#[verifier::external_body]
#[verifier::reject_recursive_types(T)]
pub struct ExRequest<T>(tonic::Request<T>);

#[verifier::external_type_specification]
#[verifier::external_body]
#[verifier::reject_recursive_types(T)]
pub struct ExResponse<T>(tonic::Response<T>);

#[verifier::external_type_specification]
#[verifier::external_body]
#[verifier::reject_recursive_types(T)]
pub struct ExStreaming<T>(tonic::Streaming<T>);

#[verifier::external_type_specification]
#[verifier::external_body]
pub struct ExInvalidMetadataValue(tonic::metadata::errors::InvalidMetadataValue);

#[verifier::external_type_specification]
#[verifier::external_body]
pub struct ExEndpoint(tonic::transport::Endpoint);

#[verifier::external_type_specification]
#[verifier::external_body]
pub struct ExChannel(tonic::transport::Channel);

#[verifier::external_type_specification]
#[verifier::external_body]
pub struct ExClientTlsConfig(tonic::transport::ClientTlsConfig);

#[verifier::external_type_specification]
#[verifier::external_body]
pub struct ExTransportError(DialError);

#[verifier::external_type_specification]
#[verifier::external_body]
#[verifier::reject_recursive_types(T)]
pub struct ExGrpc<T>(tonic::client::Grpc<T>);

#[verifier::external_type_specification]
#[verifier::external_body]
pub struct ExCredentialsBuilder(google_cloud_auth::credentials::Builder);

#[verifier::external_type_specification]
#[verifier::external_body]
pub struct ExAccessTokenCredentials(google_cloud_auth::credentials::AccessTokenCredentials);

#[verifier::external_type_specification]
#[verifier::external_body]
pub struct ExCredentialsError(google_cloud_auth::errors::CredentialsError);

#[verifier::external_type_specification]
#[verifier::external_body]
pub struct ExBuildError(CredentialsBuildError);

/// The messages of a vector as a stream.
pub type InitialRequests = Iter<std::vec::IntoIter<Bytes>>;

/// The messages that the client sends on an ADS stream: those it starts with,
/// then those that come through a channel.
pub type RequestStream = Chain<InitialRequests, ReceiverStream<Bytes>>;

// ---------------------------------------------------------------------------
// bytes
// ---------------------------------------------------------------------------

/// The bytes that a `Bytes` holds.
pub uninterp spec fn bytes_content(bytes: Bytes) -> Seq<u8>;

/// What each of some messages holds.
pub open spec fn payloads(messages: Seq<Bytes>) -> Seq<Seq<u8>> {
    messages.map_values(|message: Bytes| bytes_content(message))
}

/// `Bytes::as_ref`: the slice holds the bytes of the `Bytes`.
#[verifier::external_body]
pub(crate) fn bytes_as_slice(bytes: &Bytes) -> (slice: &[u8])
    ensures
        slice@ == bytes_content(*bytes),
{
    bytes.as_ref()
}

// ---------------------------------------------------------------------------
// tonic: buffers of the codec
// ---------------------------------------------------------------------------

/// The bytes written to an `EncodeBuf` so far.
pub uninterp spec fn encode_buf_content(buf: EncodeBuf<'_>) -> Seq<u8>;

/// The bytes of the message that a `DecodeBuf` still has to give.
pub uninterp spec fn decode_buf_content(buf: DecodeBuf<'_>) -> Seq<u8>;

/// `BufMut::remaining_mut` on an `EncodeBuf`: how many bytes can still be
/// written, which is `isize::MAX` less what has been written.
#[verifier::external_body]
pub(crate) fn encode_buf_remaining_mut(buf: &EncodeBuf<'_>) -> (room: usize)
    ensures
        room == isize::MAX - encode_buf_content(*buf).len(),
{
    buf.remaining_mut()
}

/// `BufMut::put_slice` on an `EncodeBuf`: appends the slice. It panics where
/// `BufMut::remaining_mut` is smaller than the slice.
#[verifier::external_body]
pub(crate) fn encode_buf_put_slice(buf: &mut EncodeBuf<'_>, slice: &[u8])
    requires
        encode_buf_content(*old(buf)).len() + slice@.len() <= isize::MAX,
    ensures
        encode_buf_content(*final(buf)) == encode_buf_content(*old(buf)) + slice@,
{
    buf.put_slice(slice)
}

/// `Buf::remaining` on a `DecodeBuf`: how many bytes it still has to give.
#[verifier::external_body]
pub(crate) fn decode_buf_remaining(buf: &DecodeBuf<'_>) -> (count: usize)
    ensures
        count == decode_buf_content(*buf).len(),
{
    buf.remaining()
}

/// `Buf::copy_to_bytes` on a `DecodeBuf`: takes the first `count` bytes out of
/// the buffer. It panics where the buffer has fewer.
#[verifier::external_body]
pub(crate) fn decode_buf_copy_to_bytes(buf: &mut DecodeBuf<'_>, count: usize) -> (bytes: Bytes)
    requires
        count <= decode_buf_content(*old(buf)).len(),
    ensures
        bytes_content(bytes) == decode_buf_content(*old(buf)).take(count as int),
        decode_buf_content(*final(buf)) == decode_buf_content(*old(buf)).skip(count as int),
{
    buf.copy_to_bytes(count)
}

// ---------------------------------------------------------------------------
// tokio and tokio-stream
// ---------------------------------------------------------------------------

/// How many messages the channel of a sender holds at most.
pub uninterp spec fn sender_max_capacity(sender: Sender<Bytes>) -> nat;

/// Whether what `sender` sends is what `receiver` receives, in the same order.
pub uninterp spec fn sender_feeds(sender: Sender<Bytes>, receiver: Receiver<Bytes>) -> bool;

/// The receiver that a stream reads from.
pub uninterp spec fn receiver_stream_source(stream: ReceiverStream<Bytes>) -> Receiver<Bytes>;

/// What each message of a stream made from a vector holds, in order.
pub uninterp spec fn initial_requests_content(stream: InitialRequests) -> Seq<Seq<u8>>;

/// What a request stream yields, in order, where its channel delivers `queued`.
pub uninterp spec fn request_stream_yields(
    stream: RequestStream,
    queued: Seq<Seq<u8>>,
) -> Seq<Seq<u8>>;

/// The receiver that a request stream reads from after its first messages.
pub uninterp spec fn request_stream_source(stream: RequestStream) -> Receiver<Bytes>;

/// `tokio::sync::mpsc::channel`: the two ends of one channel that holds up to
/// `buffer` messages and delivers them in the order in which they were sent,
/// to that receiver and to no other. Left unsaid: that each call makes a channel
/// of its own, and when sending waits or fails, which rests on what the
/// receiving side does meanwhile.
/// It panics on a buffer of 0 or above `Semaphore::MAX_PERMITS`.
#[verifier::external_body]
pub(crate) fn mpsc_channel(buffer: usize) -> (ends: (Sender<Bytes>, Receiver<Bytes>))
    requires
        0 < buffer <= usize::MAX / 8,
    ensures
        sender_max_capacity(ends.0) == buffer,
        sender_feeds(ends.0, ends.1),
        forall|other: Receiver<Bytes>| #[trigger] sender_feeds(ends.0, other) ==> other == ends.1,
{
    tokio::sync::mpsc::channel(buffer)
}

/// `tokio_stream::iter`: a stream of the messages of the vector, in order.
#[verifier::external_body]
pub(crate) fn stream_iter(messages: Vec<Bytes>) -> (stream: InitialRequests)
    ensures
        initial_requests_content(stream) == payloads(messages@),
{
    tokio_stream::iter(messages)
}

/// `ReceiverStream::new`: a stream of what the receiver receives.
#[verifier::external_body]
pub(crate) fn receiver_stream_new(receiver: Receiver<Bytes>) -> (stream: ReceiverStream<Bytes>)
    ensures
        receiver_stream_source(stream) == receiver,
{
    ReceiverStream::new(receiver)
}

/// `StreamExt::chain`: yields all messages of the first stream, then all
/// messages of the second.
#[verifier::external_body]
pub(crate) fn stream_chain(
    first: InitialRequests,
    second: ReceiverStream<Bytes>,
) -> (stream: RequestStream)
    ensures
        forall|queued: Seq<Seq<u8>>| #[trigger]
            request_stream_yields(stream, queued) == initial_requests_content(first) + queued,
        request_stream_source(stream) == receiver_stream_source(second),
{
    first.chain(second)
}

// ---------------------------------------------------------------------------
// http
// ---------------------------------------------------------------------------

/// The text of a path.
pub uninterp spec fn path_text(path: PathAndQuery) -> Seq<char>;

/// Whether a text is an absolute path of letters, digits, dots and slashes,
/// short enough for a URI.
pub open spec fn is_plain_path(text: Seq<char>) -> bool {
    &&& 0 < text.len() < u16::MAX
    &&& text[0] == '/'
    &&& forall|i: int| 0 <= i < text.len() ==> is_plain_path_char(#[trigger] text[i])
}

/// Whether a character is a letter, a digit, a dot or a slash.
pub open spec fn is_plain_path_char(c: char) -> bool {
    ||| 'a' <= c <= 'z'
    ||| 'A' <= c <= 'Z'
    ||| '0' <= c <= '9'
    ||| c == '.'
    ||| c == '/'
}

/// `PathAndQuery::from_static`: the path with the given text. It panics on a
/// text that is no path; a plain path always is one.
#[verifier::external_body]
pub(crate) fn path_from_static(text: &'static str) -> (path: PathAndQuery)
    requires
        is_plain_path(text@),
    ensures
        path_text(path) == text@,
{
    PathAndQuery::from_static(text)
}

// ---------------------------------------------------------------------------
// tonic: requests and responses
// ---------------------------------------------------------------------------

/// The message part of a request.
pub uninterp spec fn request_message(request: Request<RequestStream>) -> RequestStream;

/// The metadata of a request: under each key the bytes of its value.
pub uninterp spec fn request_metadata(request: Request<RequestStream>) -> Map<Seq<char>, Seq<u8>>;

/// Metadata without entries.
pub open spec fn no_metadata() -> Map<Seq<char>, Seq<u8>> {
    Map::empty()
}

/// The message part of a response.
pub uninterp spec fn response_message(response: Response<Streaming<Bytes>>) -> Streaming<Bytes>;

/// Whether a text can be a key of textual metadata: lower-case letters only.
pub open spec fn is_plain_key(text: Seq<char>) -> bool {
    &&& 0 < text.len() <= u16::MAX
    &&& forall|i: int| 0 <= i < text.len() ==> 'a' <= #[trigger] text[i] <= 'z'
}

/// Whether bytes can be a value of textual metadata: no control characters
/// but the horizontal tab.
pub open spec fn is_metadata_value(bytes: Seq<u8>) -> bool {
    forall|i: int|
        0 <= i < bytes.len() ==> (#[trigger] bytes[i] >= 32 && bytes[i] != 127) || bytes[i] == 9
}

/// `Request::new`: a request with the given message and no metadata.
#[verifier::external_body]
pub(crate) fn request_new(message: RequestStream) -> (request: Request<RequestStream>)
    ensures
        request_message(request) == message,
        request_metadata(request) == no_metadata(),
{
    Request::new(message)
}

/// `MetadataValue::try_from` on a `String`, then `MetadataMap::insert` of the
/// value under `key`. The value is refused exactly where its UTF-8 bytes are
/// not all allowed in metadata, and then the request stays as it was. The
/// insertion panics on a key that is not valid, and on a full map.
///
/// The two calls stand together because the type of the value between them has
/// a parameter whose bound tonic does not export.
#[verifier::external_body]
pub(crate) fn request_insert_metadata(
    request: &mut Request<RequestStream>,
    key: &'static str,
    text: String,
) -> (res: Result<(), InvalidMetadataValue>)
    requires
        is_plain_key(key@),
        request_metadata(*old(request)) == no_metadata(),
    ensures
        res is Ok <==> is_metadata_value(vstd::utf8::encode_utf8(text@)),
        request_message(*final(request)) == request_message(*old(request)),
        res is Ok ==> request_metadata(*final(request)) == request_metadata(*old(request)).insert(
            key@,
            vstd::utf8::encode_utf8(text@),
        ),
        res is Err ==> *final(request) == *old(request),
{
    let value = MetadataValue::try_from(text)?;
    request.metadata_mut().insert(key, value);
    Ok(())
}

/// `Display` of `InvalidMetadataValue`: always the same text.
#[verifier::external_body]
pub(crate) fn invalid_metadata_value_text(error: &InvalidMetadataValue) -> (text: String)
    ensures
        text@ == "failed to parse metadata value"@,
{
    error.to_string()
}

/// `Response::into_inner`: the message of the response.
#[verifier::external_body]
pub(crate) fn response_into_inner(
    response: Response<Streaming<Bytes>>,
) -> (message: Streaming<Bytes>)
    ensures
        message == response_message(response),
{
    response.into_inner()
}

// ---------------------------------------------------------------------------
// tonic: endpoints
// ---------------------------------------------------------------------------

/// Whether the parser of `http::Uri` takes a text.
pub uninterp spec fn uri_parses(text: Seq<char>) -> bool;

/// The text that an endpoint was made from.
pub uninterp spec fn endpoint_address(endpoint: Endpoint) -> Seq<char>;

/// The path of the unix domain socket that an endpoint dials, if it dials one.
pub uninterp spec fn endpoint_unix_path(endpoint: Endpoint) -> Option<Seq<char>>;

/// The TLS settings attached to an endpoint, if there are some. They come into
/// play where the scheme of its address is `https`.
pub uninterp spec fn endpoint_tls(endpoint: Endpoint) -> Option<ClientTlsConfig>;

/// The name that TLS settings have the server's certificate checked against,
/// where they give one.
pub uninterp spec fn tls_domain(config: ClientTlsConfig) -> Option<Seq<char>>;

/// Whether TLS settings trust the certificates that the platform trusts.
pub uninterp spec fn tls_system_roots(config: ClientTlsConfig) -> bool;

/// Whether TLS settings hold nothing but a domain and a choice of roots: no
/// certificates, trust anchors or identity of their own, no time limit, no key
/// log, and no assumption about the protocol.
pub uninterp spec fn tls_nothing_else(config: ClientTlsConfig) -> bool;

/// Whether TLS settings hold an identity to present to the server.
pub uninterp spec fn tls_identity(config: ClientTlsConfig) -> bool;

/// Whether every certificate that TLS settings were given parses as PEM; so
/// also where they were given none.
pub uninterp spec fn tls_certificates_parse(config: ClientTlsConfig) -> bool;

/// The host of the URI that a text parses to, without the brackets around an
/// IPv6 address; `None` where the URI has no host.
pub uninterp spec fn uri_host(text: Seq<char>) -> Option<Seq<char>>;

/// Whether rustls takes a text as the name of a server.
pub uninterp spec fn is_server_name(text: Seq<char>) -> bool;

/// The text that the `Display` of a transport error gives.
pub uninterp spec fn transport_error_display(error: DialError) -> Seq<char>;

/// The name that the server's certificate is checked against: the one that the
/// settings give, or else the host of the address.
pub open spec fn tls_name(config: ClientTlsConfig, address: Seq<char>) -> Option<Seq<char>> {
    match tls_domain(config) {
        Some(domain) => Some(domain),
        None => uri_host(address),
    }
}

/// Whether TLS can be set up with the settings for an address, as far as their
/// certificates and the name to check go.
pub open spec fn tls_fits(config: ClientTlsConfig, address: Seq<char>) -> bool {
    &&& tls_certificates_parse(config)
    &&& (tls_name(config, address) matches Some(name) && is_server_name(name))
}

/// Whether nothing but the settings and the address decides whether TLS can be
/// set up: the platform's roots depend on the machine, and whether the key of
/// an identity is taken depends on the crypto provider of the process.
pub open spec fn tls_is_self_contained(config: ClientTlsConfig) -> bool {
    !tls_system_roots(config) && !tls_identity(config)
}

/// `Endpoint::from_shared` on a `String`: an address of a unix domain socket
/// is always taken and gives an endpoint that dials its path; any other text
/// is taken exactly where it parses as a URI. Without TLS either way.
#[verifier::external_body]
pub(crate) fn endpoint_from_shared(
    address: String,
) -> (res: Result<Endpoint, DialError>)
    ensures
        res is Ok <==> unix_path(address@) is Some || uri_parses(address@),
        res matches Ok(endpoint) ==> {
            &&& endpoint_address(endpoint) == address@
            &&& endpoint_unix_path(endpoint) == unix_path(address@)
            &&& endpoint_tls(endpoint) is None
        },
        res matches Err(error) ==> transport_error_display(error) == "invalid URI"@,
{
    Endpoint::from_shared(address)
}

/// `Endpoint::tls_config`: refused for a unix domain socket; for any other
/// endpoint the same endpoint with the settings, or a transport error.
/// Certificates that do not parse, and a name to check that is no server's
/// name, are always errors, and are the only ones where the settings neither
/// trust the platform's roots nor hold an identity. What else comes of those
/// two rests on the machine and on the crypto provider of the process, and
/// nothing is said of it. Left aside is a process that has installed a default
/// crypto provider without cipher suites, on which the call panics.
#[verifier::external_body]
pub(crate) fn endpoint_tls_config(
    endpoint: Endpoint,
    config: ClientTlsConfig,
) -> (res: Result<Endpoint, DialError>)
    ensures
        endpoint_unix_path(endpoint) is Some ==> res is Err,
        res is Ok && tls_domain(config) is None ==> (uri_host(
            endpoint_address(endpoint),
        ) matches Some(host) && is_server_name(host)),
        res is Ok ==> tls_fits(config, endpoint_address(endpoint)),
        endpoint_unix_path(endpoint) is None && tls_is_self_contained(config) && tls_fits(
            config,
            endpoint_address(endpoint),
        ) ==> res is Ok,
        res matches Ok(secured) ==> {
            &&& endpoint_address(secured) == endpoint_address(endpoint)
            &&& endpoint_unix_path(secured) == endpoint_unix_path(endpoint)
            &&& endpoint_tls(secured) == Some(config)
        },
        res matches Err(error) ==> transport_error_display(error) == (
        if endpoint_unix_path(endpoint) is Some {
            "cannot apply TLS config for unix domain socket"@
        } else {
            "transport error"@
        }),
{
    endpoint.tls_config(config)
}

/// `ClientTlsConfig::new`: settings that hold nothing.
#[verifier::external_body]
pub(crate) fn tls_config_new() -> (config: ClientTlsConfig)
    ensures
        tls_domain(config) is None,
        !tls_system_roots(config),
        !tls_identity(config),
        tls_certificates_parse(config),
        tls_nothing_else(config),
{
    ClientTlsConfig::new()
}

/// `ClientTlsConfig::domain_name`: the settings with the given domain.
#[verifier::external_body]
pub(crate) fn tls_config_domain_name(
    config: ClientTlsConfig,
    domain: String,
) -> (named: ClientTlsConfig)
    ensures
        tls_domain(named) == Some(domain@),
        tls_system_roots(named) == tls_system_roots(config),
        tls_identity(named) == tls_identity(config),
        tls_certificates_parse(named) == tls_certificates_parse(config),
        tls_nothing_else(named) == tls_nothing_else(config),
{
    config.domain_name(domain)
}

/// `ClientTlsConfig::with_enabled_roots`: the settings with the roots that
/// tonic was built for, which here are those of the platform.
#[verifier::external_body]
pub(crate) fn tls_config_with_enabled_roots(config: ClientTlsConfig) -> (rooted: ClientTlsConfig)
    ensures
        tls_domain(rooted) == tls_domain(config),
        tls_system_roots(rooted),
        tls_identity(rooted) == tls_identity(config),
        tls_certificates_parse(rooted) == tls_certificates_parse(config),
        tls_nothing_else(rooted) == tls_nothing_else(config),
{
    config.with_enabled_roots()
}

/// `Clone` of `ClientTlsConfig`: the same settings once more.
#[verifier::external_body]
pub(crate) fn tls_config_clone(config: &ClientTlsConfig) -> (copy: ClientTlsConfig)
    ensures
        copy == *config,
{
    config.clone()
}

/// `Clone` of `Channel`: another handle of the same connection.
#[verifier::external_body]
pub(crate) fn channel_clone(channel: &Channel) -> (copy: Channel)
    ensures
        copy == *channel,
{
    channel.clone()
}

/// `Display` of `tonic::transport::Error`.
#[verifier::external_body]
pub(crate) fn transport_error_text(error: &DialError) -> (text: String)
    ensures
        text@ == transport_error_display(*error),
{
    error.to_string()
}

/// The channel that a gRPC client calls through.
pub uninterp spec fn grpc_channel(client: Grpc<Channel>) -> Channel;

/// `Grpc::new`: a gRPC client over the given channel.
#[verifier::external_body]
pub(crate) fn grpc_new(channel: Channel) -> (client: Grpc<Channel>)
    ensures
        grpc_channel(client) == channel,
{
    Grpc::new(channel)
}

/// `Debug` of `Channel`: always the same text.
#[verifier::external_body]
pub(crate) fn channel_debug(channel: &Channel) -> (text: String)
    ensures
        text@ == "Channel"@,
{
    format!("{:?}", channel)
}

// ---------------------------------------------------------------------------
// google-cloud-auth
// ---------------------------------------------------------------------------

/// The scopes that a builder of credentials asks for, where it was given some.
pub uninterp spec fn credentials_scopes(builder: CredentialsBuilder) -> Option<Seq<Seq<char>>>;

/// Whether a builder of credentials was given nothing but scopes: no quota
/// project and no universe domain.
pub uninterp spec fn credentials_nothing_else(builder: CredentialsBuilder) -> bool;

/// The text that the `Display` of an error in loading credentials gives.
pub uninterp spec fn build_error_display(error: CredentialsBuildError) -> Seq<
    char,
>;

/// The text that the `Display` of an error in fetching a token gives.
pub uninterp spec fn credentials_error_display(
    error: google_cloud_auth::errors::CredentialsError,
) -> Seq<char>;

/// `Default` of `google_cloud_auth::credentials::Builder`: nothing given.
#[verifier::external_body]
pub(crate) fn credentials_builder_default() -> (builder: CredentialsBuilder)
    ensures
        credentials_scopes(builder) is None,
        credentials_nothing_else(builder),
{
    CredentialsBuilder::default()
}

/// `google_cloud_auth::credentials::Builder::with_scopes` with one scope: that
/// one takes the place of the scopes given before, and nothing else changes.
#[verifier::external_body]
pub(crate) fn credentials_builder_with_scope(
    builder: CredentialsBuilder,
    scope: &'static str,
) -> (scoped: CredentialsBuilder)
    ensures
        credentials_scopes(scoped) == Some(seq![scope@]),
        credentials_nothing_else(scoped) == credentials_nothing_else(builder),
{
    builder.with_scopes([scope])
}

/// `Display` of `google_cloud_auth::build_errors::Error`.
#[verifier::external_body]
pub(crate) fn build_error_text(error: &CredentialsBuildError) -> (text: String)
    ensures
        text@ == build_error_display(*error),
{
    error.to_string()
}

/// `Display` of `google_cloud_auth::errors::CredentialsError`.
#[verifier::external_body]
pub(crate) fn credentials_error_text(
    error: &google_cloud_auth::errors::CredentialsError,
) -> (text: String)
    ensures
        text@ == credentials_error_display(*error),
{
    error.to_string()
}

/// `Clone` of `Arc`: the same credentials, shared.
#[verifier::external_body]
pub(crate) fn credentials_share(
    credentials: &Arc<AccessTokenCredentials>,
) -> (shared: Arc<AccessTokenCredentials>)
    ensures
        shared == *credentials,
{
    credentials.clone()
}

} // verus!
