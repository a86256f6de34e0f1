//! What holds of the transport as a whole, proved from what its parts promise.

use vstd::prelude::*;

use bytes::Bytes;
use google_cloud_auth::credentials::AccessTokenCredentials;
use google_cloud_auth::errors::CredentialsError;
use tokio::sync::mpsc;
use tonic::codec::{DecodeBuf, EncodeBuf};
use tonic::transport::{Channel, ClientTlsConfig, Endpoint};
use tonic::{Response, Streaming};

use crate::address::{
    bare, before_last, has_scheme, host, https_uri, is_https, is_scheme, is_scheme_char, occurs_at,
    scheme_run, unix_path, up_to_last_colon,
};
use crate::builder::{is_dialable, is_google_tls, BuildStep, TonicTransportBuilder};
use crate::codec::{decodes, encodes};
use crate::error::Error;
use crate::outside::{
    bytes_content, decode_buf_content, encode_buf_content, endpoint_address, endpoint_tls,
    endpoint_unix_path, is_metadata_value, is_server_name, no_metadata, request_message,
    request_stream_source, request_stream_yields, response_message, sender_feeds,
    sender_max_capacity, tls_fits, tls_is_self_contained,
};
use crate::stream::TonicAdsStream;
use crate::transport::{
    authorization, bearer, carries, OpenRequest, StreamStep, TonicTransport,
};

verus! {

// ---------------------------------------------------------------------------
// Addresses
// ---------------------------------------------------------------------------

/// Up to its last colon, `name:port` is `name`, whatever colons `name` itself
/// has.
pub proof fn law_port_is_dropped(name: Seq<char>, port: Seq<char>)
    requires
        !port.contains(':'),
    ensures
        up_to_last_colon(name + seq![':'] + port) == name,
    decreases port.len(),
{
    let text = name + seq![':'] + port;
    if port.len() == 0 {
        assert(text.drop_last() =~= name);
    } else {
        let shorter = port.drop_last();
        assert(port.contains(port.last()));
        assert forall|i: int| 0 <= i < shorter.len() implies shorter[i] != ':' by {
            assert(port.contains(port[i]));
        }
        law_port_is_dropped(name, shorter);
        assert(text.drop_last() =~= name + seq![':'] + shorter);
        assert((name + seq![':'] + shorter).contains(':')) by {
            assert((name + seq![':'] + shorter)[name.len() as int] == ':');
        }
        lemma_before_last_is_found(name + seq![':'] + shorter);
    }
}

/// A scheme makes no difference under `google_default`: what stands behind it
/// is dialed, under `https`, and what stands behind it is the host with its
/// port.
pub proof fn law_scheme_makes_no_difference(scheme: Seq<char>, rest: Seq<char>)
    requires
        is_scheme(scheme),
    ensures
        bare(scheme + "://"@ + rest) == rest,
        https_uri(scheme + "://"@ + rest) == "https://"@ + rest,
        host(scheme + "://"@ + rest) == up_to_last_colon(rest),
{
    reveal_strlit("://");
    let address = scheme + "://"@ + rest;
    assert(address =~= scheme + ("://"@ + rest));
    lemma_scheme_run(scheme, "://"@ + rest);
    assert(address.subrange(scheme.len() as int, scheme.len() as int + 3) =~= "://"@);
    assert(address.skip(scheme.len() as int + 3) =~= rest);
}

/// An address that does not start with a scheme is dialed whole, under `https`,
/// and is the host with its port, also where it has a `://` further on.
pub proof fn law_address_without_scheme(address: Seq<char>)
    requires
        !has_scheme(address),
    ensures
        https_uri(address) == "https://"@ + address,
        host(address) == up_to_last_colon(address),
{
}

/// The host of a server at `name:port` is `name`, with or without a scheme.
pub proof fn law_host_is_the_name(scheme: Seq<char>, name: Seq<char>, port: Seq<char>)
    requires
        is_scheme(scheme),
        !port.contains(':'),
    ensures
        host(scheme + "://"@ + (name + seq![':'] + port)) == name,
        !has_scheme(name + seq![':'] + port) ==> host(name + seq![':'] + port) == name,
{
    law_port_is_dropped(name, port);
    law_scheme_makes_no_difference(scheme, name + seq![':'] + port);
}

/// A name without a colon is its own host, with or without a scheme.
pub proof fn law_host_without_port(scheme: Seq<char>, name: Seq<char>)
    requires
        is_scheme(scheme),
        !name.contains(':'),
    ensures
        host(name) == name,
        host(scheme + "://"@ + name) == name,
{
    reveal_strlit("://");
    let n = scheme_run(name) as int;
    if occurs_at(name, "://"@, n) {
        assert(name.subrange(n, n + 3)[0] == name[n]);
        assert(name.contains(name[n]));
    }
    lemma_before_last_is_missing(name);
    law_scheme_makes_no_difference(scheme, name);
}

/// `google_default` forces `https` on every address, and forcing it once more
/// changes nothing.
pub proof fn law_google_default_forces_https(address: Seq<char>)
    ensures
        occurs_at(https_uri(address), "https://"@, 0),
        is_https(https_uri(address)),
        https_uri(https_uri(address)) == https_uri(address),
{
    reveal_strlit("https://");
    reveal_strlit("://");
    let uri = https_uri(address);
    assert(uri.subrange(0, 8) =~= "https://"@);
    assert(uri.subrange(5, 8) =~= "://"@);
    let scheme = seq!['h', 't', 't', 'p', 's'];
    assert(scheme + "://"@ + bare(address) =~= uri);
    law_scheme_makes_no_difference(scheme, bare(address));
}

// ---------------------------------------------------------------------------
// Endpoints
// ---------------------------------------------------------------------------

/// Default settings dial the server's address as it is, in plaintext, and fail
/// only on what is no address.
pub proof fn law_default_settings_are_plaintext(
    builder: TonicTransportBuilder,
    address: Seq<char>,
    res: Result<Endpoint, Error>,
)
    requires
        builder.tls_config is None,
        !builder.google_default,
        builder.makes(address, res),
    ensures
        res is Ok <==> is_dialable(address),
        res matches Ok(endpoint) ==> endpoint_tls(endpoint) is None,
        res matches Ok(endpoint) ==> endpoint_address(endpoint) == address,
{
}

/// With a TLS configuration every endpoint of a builder is dialed under `https`
/// with that configuration, so with TLS, as long as `google_default` is off.
/// (With it on, the configuration is not used; TLS is.)
pub proof fn law_tls_config_is_used(
    builder: TonicTransportBuilder,
    config: ClientTlsConfig,
    address: Seq<char>,
    endpoint: Endpoint,
)
    requires
        builder.tls_config == Some(config),
        !builder.google_default,
        builder.makes(address, Ok(endpoint)),
    ensures
        endpoint_tls(endpoint) == Some(config),
        endpoint_address(endpoint) == address,
        is_https(endpoint_address(endpoint)),
        endpoint_unix_path(endpoint) is None,
{
}

/// Whether there is an endpoint for an `https` address with a TLS configuration
/// rests on that configuration and the address alone, as long as it neither
/// trusts the platform's roots nor holds an identity: the certificates in it
/// have to parse, and the name to check has to be a server's name.
pub proof fn law_tls_config_decides(
    builder: TonicTransportBuilder,
    config: ClientTlsConfig,
    address: Seq<char>,
    res: Result<Endpoint, Error>,
)
    requires
        builder.tls_config == Some(config),
        !builder.google_default,
        tls_is_self_contained(config),
        is_dialable(address),
        is_https(address),
        builder.makes(address, res),
    ensures
        res is Ok <==> tls_fits(config, address),
{
    reveal_strlit("unix:");
    reveal_strlit("unix://");
    if occurs_at(address, "unix:"@, 0) {
        assert(address.subrange(0, 5)[0] == address[0]);
    }
    if occurs_at(address, "unix://"@, 0) {
        assert(address.subrange(0, 7)[0] == address[0]);
    }
}

/// Where a builder has a TLS configuration or `google_default`, every endpoint
/// it makes is dialed under `https` with TLS settings; no connection of it is
/// plaintext.
pub proof fn law_secure_builders_use_tls(
    builder: TonicTransportBuilder,
    address: Seq<char>,
    endpoint: Endpoint,
)
    requires
        builder.tls_config is Some || builder.google_default,
        builder.makes(address, Ok(endpoint)),
    ensures
        endpoint_tls(endpoint) is Some,
        is_https(endpoint_address(endpoint)),
        endpoint_unix_path(endpoint) is None,
{
}

/// Under `google_default` every endpoint is dialed under `https` with TLS that
/// trusts the system's roots alone, has the certificate checked against the
/// server's host, and is no unix domain socket.
pub proof fn law_google_default_forces_tls(
    builder: TonicTransportBuilder,
    address: Seq<char>,
    endpoint: Endpoint,
)
    requires
        builder.google_default,
        builder.makes(address, Ok(endpoint)),
    ensures
        endpoint_tls(endpoint) matches Some(config) && is_google_tls(config, host(address)),
        endpoint_address(endpoint) == https_uri(address),
        occurs_at(endpoint_address(endpoint), "https://"@, 0),
        is_https(endpoint_address(endpoint)),
        endpoint_unix_path(endpoint) is None,
        is_server_name(host(address)),
{
    law_google_default_forces_https(address);
}

/// Under `google_default` it makes no difference what TLS configuration was
/// set.
pub proof fn law_google_default_ignores_tls_config(
    one: TonicTransportBuilder,
    other: TonicTransportBuilder,
    address: Seq<char>,
    res: Result<Endpoint, Error>,
)
    requires
        one.google_default,
        other.google_default,
    ensures
        one.makes(address, res) <==> other.makes(address, res),
{
}

/// Under `google_default` it makes no difference which scheme an address names,
/// if any.
pub proof fn law_google_default_ignores_the_scheme(
    builder: TonicTransportBuilder,
    one: Seq<char>,
    other: Seq<char>,
    res: Result<Endpoint, Error>,
)
    requires
        builder.google_default,
        bare(one) == bare(other),
    ensures
        builder.makes(one, res) <==> builder.makes(other, res),
{
    assert(host(one) == host(other));
    assert(https_uri(one) == https_uri(other));
}

/// The address of a unix domain socket is dialed as one, by the path behind
/// `unix://`, and is always taken with default settings.
pub proof fn law_unix_addresses_are_sockets(
    builder: TonicTransportBuilder,
    path: Seq<char>,
    res: Result<Endpoint, Error>,
)
    requires
        builder.tls_config is None,
        !builder.google_default,
        builder.makes("unix://"@ + path, res),
    ensures
        res matches Ok(endpoint) && endpoint_unix_path(endpoint) == Some(path),
{
    let address = "unix://"@ + path;
    let prefix = "unix://"@;
    assert(address.subrange(0, prefix.len() as int) =~= prefix);
    assert(address.skip(prefix.len() as int) =~= path);
    assert(unix_path(address) == Some(path));
}

// ---------------------------------------------------------------------------
// Building a transport
// ---------------------------------------------------------------------------

/// A transport is built over the very connection that was made, no other being
/// made after it, and it has credentials exactly where `google_default` is on.
pub proof fn law_credentials_come_with_google_default(
    builder: TonicTransportBuilder,
    connected: Channel,
    step: BuildStep,
    outcome: Result<AccessTokenCredentials, google_cloud_auth::build_errors::Error>,
    res: Result<TonicTransport, Error>,
)
    requires
        builder.follows_connect(Ok(connected), step),
        match step {
            BuildStep::Done(done) => res == done,
            BuildStep::LoadCredentials { channel, .. } =>
                TonicTransportBuilder::follows_credentials(channel, outcome, res),
            BuildStep::Connect(_) => true,
        },
    ensures
        !(step is Connect),
        res matches Ok(transport) ==> transport.channel == connected,
        res matches Ok(transport) ==> (transport.creds is Some <==> builder.google_default),
        res is Ok <==> (!builder.google_default || outcome is Ok),
{
}

/// No transport comes of a connection that failed, and no credentials are
/// loaded for it.
pub proof fn law_failed_connection_ends_the_build(
    builder: TonicTransportBuilder,
    error: tonic::transport::Error,
    step: BuildStep,
)
    requires
        builder.follows_connect(Err(error), step),
    ensures
        step matches BuildStep::Done(Err(Error::Connection(_))),
{
}

// ---------------------------------------------------------------------------
// Streams
// ---------------------------------------------------------------------------

/// What a call sends is the initial requests, in order, then what comes through
/// its channel; so the initial requests are there to send although the channel
/// has delivered nothing yet.
pub proof fn law_initial_requests_come_first(
    open: OpenRequest,
    initial: Seq<Seq<u8>>,
    metadata: Map<Seq<char>, Seq<u8>>,
    queued: Seq<Seq<u8>>,
)
    requires
        open.opens(initial, metadata),
    ensures
        request_stream_yields(request_message(open.request), queued) == initial + queued,
        request_stream_yields(request_message(open.request), Seq::empty()) == initial,
{
    assert(initial + Seq::<Seq<u8>>::empty() =~= initial);
}

/// A stream of a transport without credentials is opened on the ADS method
/// without metadata, starting with its initial requests.
pub proof fn law_stream_without_credentials(
    transport: TonicTransport,
    initial: Seq<Seq<u8>>,
    step: StreamStep<'_>,
)
    requires
        transport.creds is None,
        transport.follows_ready(Ok(()), initial, step),
    ensures
        step matches StreamStep::Open(open) && open.opens(initial, no_metadata()),
{
}

/// A stream of a transport with credentials is opened on the ADS method only
/// with a token from them, which goes as a bearer token in the one metadata
/// entry, and starts with its initial requests. Without a token it is not
/// opened.
pub proof fn law_stream_with_credentials(
    transport: TonicTransport,
    initial: Seq<Seq<u8>>,
    first: StreamStep<'_>,
    outcome: Result<String, CredentialsError>,
    second: StreamStep<'_>,
)
    requires
        transport.creds is Some,
        transport.follows_ready(Ok(()), initial, first),
        first matches StreamStep::FetchToken { pending, .. } ==> pending.follows_token(
            outcome,
            second,
        ),
    ensures
        first matches StreamStep::FetchToken { credentials, .. } && Some(*credentials)
            == transport.creds,
        second matches StreamStep::Open(open) ==> (outcome matches Ok(token) && open.opens(
            initial,
            authorization(token@),
        )),
        outcome is Err ==> second matches StreamStep::Failed(Error::Connection(_)),
{
}

/// What the client sends on an opened stream is what the call sends after the
/// initial requests, and what it receives is the response to that call.
pub proof fn law_opened_stream_belongs_to_its_call(
    open: OpenRequest,
    initial: Seq<Seq<u8>>,
    metadata: Map<Seq<char>, Seq<u8>>,
    response: Response<Streaming<Bytes>>,
    res: Result<TonicAdsStream, Error>,
)
    requires
        open.opens(initial, metadata),
        TonicTransport::follows_call(open.sender, Ok(response), res),
    ensures
        res matches Ok(stream) && carries(stream.sender, request_message(open.request), initial)
            && stream.receiver == response_message(response),
{
}

/// Two streams whose requests are read from different channels are separate:
/// each sends its own initial requests first, and what is sent on one never
/// shows up on the other.
pub proof fn law_streams_of_different_channels_are_separate(
    one: OpenRequest,
    one_initial: Seq<Seq<u8>>,
    one_metadata: Map<Seq<char>, Seq<u8>>,
    other: OpenRequest,
    other_initial: Seq<Seq<u8>>,
    other_metadata: Map<Seq<char>, Seq<u8>>,
    queued: Seq<Seq<u8>>,
)
    requires
        one.opens(one_initial, one_metadata),
        other.opens(other_initial, other_metadata),
        request_stream_source(request_message(one.request)) != request_stream_source(
            request_message(other.request),
        ),
    ensures
        request_stream_yields(request_message(one.request), queued) == one_initial + queued,
        request_stream_yields(request_message(other.request), queued) == other_initial + queued,
        !sender_feeds(one.sender, request_stream_source(request_message(other.request))),
        !sender_feeds(other.sender, request_stream_source(request_message(one.request))),
        one.sender != other.sender,
{
}

/// The channel of a stream has room for 16 requests, however many initial
/// requests there are: those do not go through the channel.
pub proof fn law_initial_requests_take_no_room(
    open: OpenRequest,
    initial: Seq<Seq<u8>>,
    metadata: Map<Seq<char>, Seq<u8>>,
    queued: Seq<Seq<u8>>,
)
    requires
        open.opens(initial, metadata),
    ensures
        sender_max_capacity(open.sender) == 16,
        request_stream_yields(request_message(open.request), queued).skip(initial.len() as int)
            == queued,
{
    assert((initial + queued).skip(initial.len() as int) =~= queued);
}

/// A request side that was closed once stays closed: after a request was
/// refused every later one is refused in the same way, and is not handed to the
/// channel. The response side is as it was.
pub proof fn law_closed_request_side_stays_closed(
    before: TonicAdsStream,
    outcome: Result<(), mpsc::error::SendError<Bytes>>,
    after: TonicAdsStream,
    res: Result<(), Error>,
    request: Bytes,
    handed: Result<Bytes, Error>,
    later_outcome: Result<(), mpsc::error::SendError<Bytes>>,
    later: TonicAdsStream,
    later_res: Result<(), Error>,
)
    requires
        before.follows_send(outcome, after, res),
        res is Err,
        after.starts_send(request, handed),
        after.follows_send(later_outcome, later, later_res),
    ensures
        res matches Err(Error::StreamClosed),
        after.closed,
        handed matches Err(Error::StreamClosed),
        later_res matches Err(Error::StreamClosed),
        later.closed,
        later.receiver == before.receiver,
{
}

/// A stream opens with its request side open, which it stays as long as the
/// channel takes what is sent.
pub proof fn law_request_side_is_open_until_refused(
    sender: mpsc::Sender<Bytes>,
    response: Response<Streaming<Bytes>>,
    stream: TonicAdsStream,
    request: Bytes,
    handed: Result<Bytes, Error>,
    outcome: Result<(), mpsc::error::SendError<Bytes>>,
    after: TonicAdsStream,
    res: Result<(), Error>,
)
    requires
        TonicTransport::follows_call(sender, Ok(response), Ok(stream)),
        stream.starts_send(request, handed),
        stream.follows_send(outcome, after, res),
    ensures
        handed == Ok::<Bytes, Error>(request),
        res is Ok <==> outcome is Ok,
        after.closed <==> outcome is Err,
{
}

/// No stream is opened on a connection that is not ready, and no token is
/// fetched for it.
pub proof fn law_unready_connection_opens_nothing(
    transport: TonicTransport,
    error: tonic::transport::Error,
    initial: Seq<Seq<u8>>,
    step: StreamStep<'_>,
)
    requires
        transport.follows_ready(Err(error), initial, step),
    ensures
        step matches StreamStep::Failed(Error::Connection(_)),
{
}

/// A token of visible ASCII characters can always stand in the metadata.
pub proof fn law_visible_tokens_are_taken(token: Seq<char>)
    requires
        forall|i: int| 0 <= i < token.len() ==> ' ' <= #[trigger] token[i] <= '~',
    ensures
        is_metadata_value(vstd::utf8::encode_utf8(bearer(token))),
{
    reveal_strlit("Bearer ");
    let text = bearer(token);
    assert forall|i: int| 0 <= i < text.len() implies ' ' <= #[trigger] text[i] <= '~' by {
        if i >= 7 {
            assert(text[i] == token[i - 7]);
        }
    }
    vstd::utf8::is_ascii_chars_encode_utf8(text);
}

// ---------------------------------------------------------------------------
// Codec
// ---------------------------------------------------------------------------

/// Bytes pass through the codec unchanged: what one side encodes as a message
/// is what the other side decodes from that message.
pub proof fn law_codec_passes_bytes_through(
    item: Bytes,
    dst: EncodeBuf<'_>,
    dst_after: EncodeBuf<'_>,
    src: DecodeBuf<'_>,
    src_after: DecodeBuf<'_>,
    decoded: Bytes,
)
    requires
        encodes(item, dst, dst_after),
        decode_buf_content(src) == encode_buf_content(dst_after).skip(
            encode_buf_content(dst).len() as int,
        ),
        decodes(src, src_after, decoded),
    ensures
        bytes_content(decoded) == bytes_content(item),
{
    assert(decode_buf_content(src) =~= bytes_content(item));
}

/// Encoding one message and then another leaves the buffer as encoding their
/// concatenation does.
pub proof fn law_encoding_appends(
    first: Bytes,
    second: Bytes,
    both: Bytes,
    dst: EncodeBuf<'_>,
    dst_between: EncodeBuf<'_>,
    dst_after: EncodeBuf<'_>,
    dst_at_once: EncodeBuf<'_>,
)
    requires
        encodes(first, dst, dst_between),
        encodes(second, dst_between, dst_after),
        bytes_content(both) == bytes_content(first) + bytes_content(second),
        encodes(both, dst, dst_at_once),
    ensures
        encode_buf_content(dst_after) == encode_buf_content(dst_at_once),
{
}

/// Encoding an empty message leaves what the buffer holds as it was.
pub proof fn law_encoding_nothing_changes_nothing(
    item: Bytes,
    dst: EncodeBuf<'_>,
    dst_after: EncodeBuf<'_>,
)
    requires
        bytes_content(item).len() == 0,
        encodes(item, dst, dst_after),
    ensures
        encode_buf_content(dst_after) == encode_buf_content(dst),
{
}

// ---------------------------------------------------------------------------
// Lemmas
// ---------------------------------------------------------------------------

proof fn lemma_before_last_is_found(text: Seq<char>)
    requires
        text.contains(':'),
    ensures
        before_last(text, ':') is Some,
    decreases text.len(),
{
    if text.last() != ':' {
        let i = choose|i: int| 0 <= i < text.len() && text[i] == ':';
        assert(text.drop_last()[i] == ':');
        lemma_before_last_is_found(text.drop_last());
    }
}

pub(crate) proof fn lemma_before_last_is_missing(text: Seq<char>)
    requires
        !text.contains(':'),
    ensures
        before_last(text, ':') is None,
    decreases text.len(),
{
    if text.len() > 0 {
        assert(text.contains(text.last()));
        assert forall|i: int| 0 <= i < text.drop_last().len() implies text.drop_last()[i]
            != ':' by {
            assert(text.contains(text[i]));
        }
        lemma_before_last_is_missing(text.drop_last());
    }
}

pub(crate) proof fn lemma_scheme_run(scheme: Seq<char>, rest: Seq<char>)
    requires
        forall|i: int| 0 <= i < scheme.len() ==> is_scheme_char(#[trigger] scheme[i]),
        rest.len() > 0 && !is_scheme_char(rest[0]),
    ensures
        scheme_run(scheme + rest) == scheme.len(),
    decreases scheme.len(),
{
    if scheme.len() == 0 {
        assert(scheme + rest =~= rest);
    } else {
        assert((scheme + rest)[0] == scheme[0]);
        assert((scheme + rest).skip(1) =~= scheme.skip(1) + rest);
        lemma_scheme_run(scheme.skip(1), rest);
    }
}

} // verus!
