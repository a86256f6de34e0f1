//! What calls of the library come to, stated of the calls themselves:
//! `call_ensures(f, args, out)` says that `out` is an outcome of calling `f`
//! with `args`. The statements are written out in full, over what goes into a
//! call, what comes out of it, and what is believed of other crates.

use vstd::prelude::*;

use bytes::Bytes;
use google_cloud_auth::credentials::AccessTokenCredentials;
use google_cloud_auth::errors::CredentialsError;
use tokio::sync::mpsc;
use tonic::client::Grpc;
use tonic::codec::{DecodeBuf, EncodeBuf};
use tonic::transport::{Channel, ClientTlsConfig, Endpoint};
use tonic::{Response, Status, Streaming};

use crate::address::{
    bare_of, before_last, host, host_of, https_uri, https_uri_of, is_https, is_scheme_char,
    names_https, names_scheme, names_unix_socket, occurs_at, scheme_run, unix_path,
};
use crate::builder::{
    is_google_tls, tls_endpoint, tonic_refuses, tonic_refuses_to_dial, BuildStep,
    TonicTransportBuilder,
};
use crate::codec::{BytesDecoder, BytesEncoder};
use crate::config::ServerConfig;
use crate::error::Error;
use crate::laws::{
    law_google_default_forces_https, lemma_before_last_is_missing, lemma_scheme_run,
};
use crate::outside::{
    build_error_display, bytes_content, credentials_error_display, credentials_nothing_else,
    credentials_scopes, decode_buf_content, encode_buf_content, endpoint_address, endpoint_tls,
    endpoint_unix_path, grpc_channel, is_server_name, path_text, request_message,
    request_metadata, request_stream_source, request_stream_yields, response_message,
    sender_feeds, sender_max_capacity, tls_certificates_parse, tls_domain, tls_identity,
    tls_nothing_else, tls_system_roots, transport_error_display, uri_host, uri_parses,
};
use crate::stream::TonicAdsStream;
use crate::transport::{OpenRequest, PendingStream, StreamStep, TonicTransport};

verus! {

// ---------------------------------------------------------------------------
// Addresses
// ---------------------------------------------------------------------------

/// An address is found to name a scheme exactly where it starts with one or
/// more letters, digits, `+`, `-`, `.` or `~`, directly followed by `://`.
pub proof fn law_scheme_is_found(address: &str, found: bool)
    requires
        call_ensures(names_scheme, (address,), found),
    ensures
        found <==> exists|n: int|
            {
                &&& 0 < n && n + 2 < address@.len()
                &&& #[trigger] address@[n] == ':' && address@[n + 1] == '/' && address@[n + 2]
                    == '/'
                &&& forall|i: int|
                    0 <= i < n ==> ('a' <= #[trigger] address@[i] <= 'z' || 'A' <= address@[i]
                        <= 'Z' || '0' <= address@[i] <= '9' || address@[i] == '+' || address@[i]
                        == '-' || address@[i] == '.' || address@[i] == '~')
            },
{
    reveal_strlit("://");
    let text = address@;
    let run = scheme_run(text) as int;
    lemma_run_is_of_scheme_chars(text);
    if found {
        let mark = text.subrange(run, run + 3);
        assert(mark[0] == text[run] && mark[1] == text[run + 1] && mark[2] == text[run + 2]);
        assert(text[run] == ':');
    }
    if exists|n: int|
        {
            &&& 0 < n && n + 2 < text.len()
            &&& #[trigger] text[n] == ':' && text[n + 1] == '/' && text[n + 2] == '/'
            &&& forall|i: int| 0 <= i < n ==> is_scheme_char(#[trigger] text[i])
        } {
        let n = choose|n: int|
            {
                &&& 0 < n && n + 2 < text.len()
                &&& #[trigger] text[n] == ':' && text[n + 1] == '/' && text[n + 2] == '/'
                &&& forall|i: int| 0 <= i < n ==> is_scheme_char(#[trigger] text[i])
            };
        assert(text =~= text.take(n) + text.skip(n));
        assert forall|i: int| 0 <= i < text.take(n).len() implies is_scheme_char(
            #[trigger] text.take(n)[i],
        ) by {
            assert(text.take(n)[i] == text[i]);
        }
        lemma_scheme_run(text.take(n), text.skip(n));
        assert(text.subrange(n, n + 3) =~= "://"@);
    }
}

/// An address is found to be `https` exactly where it starts with `https://`,
/// the letters in either case.
pub proof fn law_https_is_found(address: &str, found: bool)
    requires
        call_ensures(names_https, (address,), found),
    ensures
        found <==> {
            &&& address@.len() >= 8
            &&& address@[0] == 'h' || address@[0] == 'H'
            &&& address@[1] == 't' || address@[1] == 'T'
            &&& address@[2] == 't' || address@[2] == 'T'
            &&& address@[3] == 'p' || address@[3] == 'P'
            &&& address@[4] == 's' || address@[4] == 'S'
            &&& address@[5] == ':' && address@[6] == '/' && address@[7] == '/'
        },
{
    reveal_strlit("://");
    let piece = address@.subrange(5, 8);
    if address@.len() >= 8 {
        assert(piece[0] == address@[5] && piece[1] == address@[6] && piece[2] == address@[7]);
        if address@[5] == ':' && address@[6] == '/' && address@[7] == '/' {
            assert(piece =~= "://"@);
        }
    }
}

/// An address is found to be that of a unix domain socket exactly where it
/// starts with `unix:`.
pub proof fn law_unix_is_found(address: &str, found: bool)
    requires
        call_ensures(names_unix_socket, (address,), found),
    ensures
        found <==> {
            &&& address@.len() >= 5
            &&& address@[0] == 'u' && address@[1] == 'n' && address@[2] == 'i' && address@[3]
                == 'x' && address@[4] == ':'
        },
{
    reveal_strlit("unix:");
    reveal_strlit("unix://");
    let text = address@;
    let piece = text.subrange(0, 5);
    if occurs_at(text, "unix://"@, 0) {
        assert(piece =~= text.subrange(0, 7).subrange(0, 5));
        assert(piece =~= "unix:"@);
    }
    if text.len() >= 5 {
        assert(piece[0] == text[0] && piece[1] == text[1] && piece[2] == text[2] && piece[3]
            == text[3] && piece[4] == text[4]);
        if text[0] == 'u' && text[1] == 'n' && text[2] == 'i' && text[3] == 'x' && text[4]
            == ':' {
            assert(piece =~= "unix:"@);
        }
    }
}

/// What is left of an address without its scheme: all of it where it names
/// none; else what stands behind the first `://`, before which there is no
/// colon.
pub proof fn law_scheme_is_cut_off(address: &str, found: bool, rest: String)
    requires
        call_ensures(names_scheme, (address,), found),
        call_ensures(bare_of, (address,), rest),
    ensures
        !found ==> rest@ == address@,
        found ==> exists|n: int|
            {
                &&& 0 < n && n + 2 < address@.len()
                &&& #[trigger] address@[n] == ':' && address@[n + 1] == '/' && address@[n + 2]
                    == '/'
                &&& forall|i: int| 0 <= i < n ==> #[trigger] address@[i] != ':'
                &&& rest@ == address@.skip(n + 3)
            },
{
    reveal_strlit("://");
    let text = address@;
    let run = scheme_run(text) as int;
    lemma_run_is_of_scheme_chars(text);
    if found {
        let mark = text.subrange(run, run + 3);
        assert(mark[0] == text[run] && mark[1] == text[run + 1] && mark[2] == text[run + 2]);
        assert(text[run] == ':');
    }
}

/// The URI that is dialed under `google_default` is what is left of the address
/// without its scheme, behind `https://`.
pub proof fn law_https_uri_is_https_and_the_rest(address: &str, rest: String, uri: String)
    requires
        call_ensures(bare_of, (address,), rest),
        call_ensures(https_uri_of, (address,), uri),
    ensures
        uri@ == "https://"@ + rest@,
{
}

/// The host is what is left of the address without its scheme, up to its last
/// colon: the rest is the host, a colon, and a port without a colon; or the
/// rest has no colon, and is the host.
pub proof fn law_host_is_the_rest_up_to_its_last_colon(address: &str, rest: String, name: String)
    requires
        call_ensures(bare_of, (address,), rest),
        call_ensures(host_of, (address,), name),
    ensures
        rest@.contains(':') ==> {
            &&& name@.len() < rest@.len()
            &&& rest@.take(name@.len() as int) == name@
            &&& rest@[name@.len() as int] == ':'
            &&& forall|i: int| name@.len() < i < rest@.len() ==> #[trigger] rest@[i] != ':'
        },
        !rest@.contains(':') ==> name@ == rest@,
{
    lemma_before_last_splits(rest@);
    if !rest@.contains(':') {
        lemma_before_last_is_missing(rest@);
    }
}

// ---------------------------------------------------------------------------
// Servers and builders
// ---------------------------------------------------------------------------

/// A server's address is read back as it was given.
pub proof fn law_server_address_is_read_back(uri: String, server: &ServerConfig, address: &str)
    requires
        call_ensures(ServerConfig::new, (uri,), *server),
        call_ensures(ServerConfig::uri, (server,), address),
    ensures
        address@ == uri@,
{
}

/// A new builder has neither a TLS configuration nor `google_default`, by
/// `new` and by `default`.
pub proof fn law_new_builder_has_no_settings(
    fresh: TonicTransportBuilder,
    default: TonicTransportBuilder,
)
    requires
        call_ensures(TonicTransportBuilder::new, (), fresh),
        call_ensures(<TonicTransportBuilder as Default>::default, (), default),
    ensures
        fresh.tls_config is None && !fresh.google_default,
        default.tls_config is None && !default.google_default,
{
}

/// Each setting of a builder is set without touching the other, the last one
/// set counts, and a copy has the settings of its original.
pub proof fn law_settings_are_kept_apart(
    builder: TonicTransportBuilder,
    config: ClientTlsConfig,
    enabled: bool,
    with_config: TonicTransportBuilder,
    with_google: TonicTransportBuilder,
    copied: TonicTransportBuilder,
)
    requires
        call_ensures(TonicTransportBuilder::with_tls_config, (builder, config), with_config),
        call_ensures(TonicTransportBuilder::with_google_default, (builder, enabled), with_google),
        call_ensures(<TonicTransportBuilder as Clone>::clone, (&builder,), copied),
    ensures
        with_config.tls_config == Some(config),
        with_config.google_default == builder.google_default,
        with_google.tls_config == builder.tls_config,
        with_google.google_default == enabled,
        copied.tls_config == builder.tls_config,
        copied.google_default == builder.google_default,
{
}

/// The TLS settings under `google_default` check the certificate against the
/// host of the server's address, trust the platform's roots, and hold nothing
/// else.
pub proof fn law_google_default_settings(
    uri: String,
    server: &ServerConfig,
    address: &str,
    name: String,
    config: ClientTlsConfig,
)
    requires
        call_ensures(ServerConfig::new, (uri,), *server),
        address@ == uri@,
        call_ensures(host_of, (address,), name),
        call_ensures(TonicTransportBuilder::google_default_tls, (server,), config),
    ensures
        tls_domain(config) == Some(name@),
        tls_system_roots(config),
        tls_nothing_else(config),
{
}

/// What tonic makes of TLS settings is passed on: the endpoint itself, or a
/// connection error with the text of tonic's.
pub proof fn law_tonics_outcome_is_passed_on(
    outcome: Result<Endpoint, tonic::transport::Error>,
    res: Result<Endpoint, Error>,
)
    requires
        call_ensures(TonicTransportBuilder::secured, (outcome,), res),
    ensures
        outcome matches Ok(endpoint) ==> (res matches Ok(passed) && passed == endpoint),
        outcome matches Err(error) ==> (res matches Err(Error::Connection(text)) && text@
            == transport_error_display(error)),
{
}

// ---------------------------------------------------------------------------
// Building a transport
// ---------------------------------------------------------------------------

/// A build starts with the endpoint of the builder for the server, and ends
/// where there is none; it never starts with anything else.
pub proof fn law_build_starts_by_dialing(
    builder: &TonicTransportBuilder,
    server: &ServerConfig,
    step: BuildStep,
)
    requires
        call_ensures(TonicTransportBuilder::start_build, (builder, server), step),
    ensures
        step is Connect || (step matches BuildStep::Done(Err(Error::Connection(_)))),
{
}

/// A builder without settings dials the address as it is, in plaintext; text
/// that is neither a URI nor the address of a unix domain socket is an invalid
/// URI.
pub proof fn law_build_without_settings(
    builder: &TonicTransportBuilder,
    uri: String,
    server: &ServerConfig,
    address: &str,
    unix: bool,
    step: BuildStep,
)
    requires
        builder.tls_config is None,
        !builder.google_default,
        call_ensures(ServerConfig::new, (uri,), *server),
        address@ == uri@,
        call_ensures(names_unix_socket, (address,), unix),
        call_ensures(TonicTransportBuilder::start_build, (builder, server), step),
    ensures
        uri_parses(uri@) || unix ==> (step matches BuildStep::Connect(endpoint) && {
            &&& endpoint_address(endpoint) == uri@
            &&& endpoint_tls(endpoint) is None
            &&& endpoint_unix_path(endpoint) is Some <==> unix
        }),
        !uri_parses(uri@) && !unix ==> (step matches BuildStep::Done(
            Err(Error::Connection(text)),
        ) && text@ == "invalid URI"@),
{
}

/// Connecting with default settings starts with a builder without settings,
/// and with what that builder makes of the address.
pub proof fn law_connect_without_settings(
    uri: String,
    address: &str,
    unix: bool,
    start: (TonicTransportBuilder, BuildStep),
)
    requires
        address@ == uri@,
        call_ensures(names_unix_socket, (address,), unix),
        call_ensures(TonicTransport::start_connect, (uri,), start),
    ensures
        start.0.tls_config is None,
        !start.0.google_default,
        uri_parses(uri@) || unix ==> (start.1 matches BuildStep::Connect(endpoint) && {
            &&& endpoint_address(endpoint) == uri@
            &&& endpoint_tls(endpoint) is None
            &&& endpoint_unix_path(endpoint) is Some <==> unix
        }),
        !uri_parses(uri@) && !unix ==> (start.1 matches BuildStep::Done(
            Err(Error::Connection(text)),
        ) && text@ == "invalid URI"@),
{
}

/// A unix domain socket is dialed by the path behind `unix://`, or behind
/// `unix:` where no slashes follow.
pub proof fn law_unix_socket_is_dialed_by_its_path(
    builder: &TonicTransportBuilder,
    uri: String,
    server: &ServerConfig,
    path: Seq<char>,
    step: BuildStep,
)
    requires
        builder.tls_config is None,
        !builder.google_default,
        call_ensures(ServerConfig::new, (uri,), *server),
        uri@ == "unix://"@ + path || (uri@ == "unix:"@ + path && !(path.len() >= 2 && path[0]
            == '/' && path[1] == '/')),
        call_ensures(TonicTransportBuilder::start_build, (builder, server), step),
    ensures
        step matches BuildStep::Connect(endpoint) && endpoint_unix_path(endpoint) == Some(path),
{
    reveal_strlit("unix:");
    reveal_strlit("unix://");
    if uri@ == "unix://"@ + path {
        assert(uri@.subrange(0, 7) =~= "unix://"@);
        assert(uri@.skip(7) =~= path);
    } else {
        assert(uri@.subrange(0, 5) =~= "unix:"@);
        assert(uri@.skip(5) =~= path);
        if occurs_at(uri@, "unix://"@, 0) {
            let piece = uri@.subrange(0, 7);
            assert(piece[5] == path[0] && piece[6] == path[1]);
        }
    }
}

/// With a TLS configuration, and `google_default` off, an endpoint is dialed
/// under `https` with that very configuration, and nothing else is dialed.
pub proof fn law_build_with_tls_config(
    builder: &TonicTransportBuilder,
    config: ClientTlsConfig,
    uri: String,
    server: &ServerConfig,
    address: &str,
    https: bool,
    unix: bool,
    scheme: bool,
    step: BuildStep,
)
    requires
        builder.tls_config == Some(config),
        !builder.google_default,
        call_ensures(ServerConfig::new, (uri,), *server),
        address@ == uri@,
        call_ensures(names_https, (address,), https),
        call_ensures(names_unix_socket, (address,), unix),
        call_ensures(names_scheme, (address,), scheme),
        call_ensures(TonicTransportBuilder::start_build, (builder, server), step),
    ensures
        step matches BuildStep::Connect(endpoint) ==> {
            &&& https && uri_parses(uri@)
            &&& endpoint_address(endpoint) == uri@
            &&& endpoint_tls(endpoint) == Some(config)
            &&& endpoint_unix_path(endpoint) is None
        },
        step matches BuildStep::Done(res) ==> (res matches Err(Error::Connection(text)) && text@
            == (if unix {
            "cannot apply TLS config for unix domain socket"@
        } else if !uri_parses(uri@) {
            "invalid URI"@
        } else if https || !scheme {
            "transport error"@
        } else {
            "TLS needs an https address"@
        })),
{
    lemma_https_is_no_unix_socket(uri@);
}

/// A build with a TLS configuration for an `https` address fails only where
/// tonic refuses that configuration for that address.
pub proof fn law_build_with_tls_config_succeeds(
    builder: &TonicTransportBuilder,
    config: ClientTlsConfig,
    uri: String,
    server: &ServerConfig,
    address: &str,
    step: BuildStep,
)
    requires
        builder.tls_config == Some(config),
        !builder.google_default,
        call_ensures(ServerConfig::new, (uri,), *server),
        address@ == uri@,
        call_ensures(names_https, (address,), true),
        uri_parses(uri@),
        forall|endpoint: Endpoint, error: tonic::transport::Error| #[trigger]
            tonic_refuses(endpoint, config, error) ==> endpoint_address(endpoint) != uri@
                || endpoint_unix_path(endpoint) is Some,
        call_ensures(TonicTransportBuilder::start_build, (builder, server), step),
    ensures
        step is Connect,
{
    lemma_https_is_no_unix_socket(uri@);
    if !(step is Connect) {
        let error = choose|error: tonic::transport::Error| #[trigger]
            tonic_refuses_to_dial(uri@, config, error);
        assert(tonic_refuses_to_dial(uri@, config, error));
    }
}

/// Where a TLS configuration neither trusts the platform's roots nor holds an
/// identity, there is an endpoint for an `https` address exactly where its
/// certificates parse and the name to check, its domain or else the host of the
/// URI, is a server's name.
pub proof fn law_self_contained_tls_config_decides(
    builder: &TonicTransportBuilder,
    config: ClientTlsConfig,
    uri: String,
    server: &ServerConfig,
    address: &str,
    name: Option<Seq<char>>,
    step: BuildStep,
)
    requires
        builder.tls_config == Some(config),
        !builder.google_default,
        !tls_system_roots(config),
        !tls_identity(config),
        call_ensures(ServerConfig::new, (uri,), *server),
        address@ == uri@,
        call_ensures(names_https, (address,), true),
        uri_parses(uri@),
        tls_domain(config) is Some ==> name == tls_domain(config),
        tls_domain(config) is None ==> name == uri_host(uri@),
        call_ensures(TonicTransportBuilder::start_build, (builder, server), step),
    ensures
        step is Connect <==> {
            &&& tls_certificates_parse(config)
            &&& name is Some
            &&& is_server_name(name->0)
        },
{
    lemma_https_is_no_unix_socket(uri@);
}

/// Under `google_default`, whatever TLS configuration is set, what is left of
/// the address without its scheme is dialed under `https`, with TLS that
/// trusts the platform's roots alone and has the certificate checked against
/// the host.
pub proof fn law_build_with_google_default(
    builder: &TonicTransportBuilder,
    uri: String,
    server: &ServerConfig,
    address: &str,
    rest: String,
    name: String,
    step: BuildStep,
)
    requires
        builder.google_default,
        call_ensures(ServerConfig::new, (uri,), *server),
        address@ == uri@,
        call_ensures(bare_of, (address,), rest),
        call_ensures(host_of, (address,), name),
        call_ensures(TonicTransportBuilder::start_build, (builder, server), step),
    ensures
        step matches BuildStep::Connect(endpoint) ==> {
            &&& endpoint_address(endpoint) == "https://"@ + rest@
            &&& endpoint_unix_path(endpoint) is None
            &&& (endpoint_tls(endpoint) matches Some(config) && tls_domain(config) == Some(name@)
                && tls_system_roots(config) && tls_nothing_else(config))
            &&& uri_parses("https://"@ + rest@)
            &&& is_server_name(name@)
        },
        step matches BuildStep::Done(res) ==> (res matches Err(Error::Connection(text)) && text@
            == (if uri_parses("https://"@ + rest@) {
            "transport error"@
        } else {
            "invalid URI"@
        })),
{
    law_google_default_forces_https(uri@);
    lemma_https_is_no_unix_socket(https_uri(uri@));
}

/// A build under `google_default` fails only where what is dialed is no URI, or
/// tonic refuses TLS settings for it that check the certificate against the
/// host, trust the platform's roots and hold nothing else; so wherever tonic
/// takes them there is an endpoint to connect to.
pub proof fn law_build_with_google_default_succeeds(
    builder: &TonicTransportBuilder,
    uri: String,
    server: &ServerConfig,
    address: &str,
    rest: String,
    name: String,
    step: BuildStep,
)
    requires
        builder.google_default,
        call_ensures(ServerConfig::new, (uri,), *server),
        address@ == uri@,
        call_ensures(bare_of, (address,), rest),
        call_ensures(host_of, (address,), name),
        uri_parses("https://"@ + rest@),
        forall|endpoint: Endpoint, config: ClientTlsConfig, error: tonic::transport::Error|
            #[trigger]
            tonic_refuses(endpoint, config, error) ==> {
                ||| endpoint_address(endpoint) != "https://"@ + rest@
                ||| endpoint_unix_path(endpoint) is Some
                ||| tls_domain(config) != Some(name@)
                ||| !tls_system_roots(config)
                ||| !tls_nothing_else(config)
            },
        call_ensures(TonicTransportBuilder::start_build, (builder, server), step),
    ensures
        step is Connect,
{
    law_google_default_forces_https(uri@);
    lemma_https_is_no_unix_socket(https_uri(uri@));
    if !(step is Connect) {
        lemma_google_default_is_refused_by_tonic(builder, uri@, step->Done_0->Err_0);
    }
}

/// The endpoint of a builder without settings is for the address as it is, in
/// plaintext, as is the one that a build starts with.
pub proof fn law_endpoint_without_settings(
    builder: &TonicTransportBuilder,
    uri: String,
    server: &ServerConfig,
    address: &str,
    unix: bool,
    res: Result<Endpoint, Error>,
)
    requires
        builder.tls_config is None,
        !builder.google_default,
        call_ensures(ServerConfig::new, (uri,), *server),
        address@ == uri@,
        call_ensures(names_unix_socket, (address,), unix),
        call_ensures(TonicTransportBuilder::endpoint, (builder, server), res),
    ensures
        res is Ok <==> uri_parses(uri@) || unix,
        res matches Ok(endpoint) ==> {
            &&& endpoint_address(endpoint) == uri@
            &&& endpoint_tls(endpoint) is None
            &&& endpoint_unix_path(endpoint) is Some <==> unix
        },
        res matches Err(error) ==> (error matches Error::Connection(text) && text@
            == "invalid URI"@),
{
}

/// The endpoint of a builder with a TLS configuration, and `google_default` off,
/// is for an `https` address with that very configuration; for such an address
/// there is one unless tonic refuses the configuration for it.
pub proof fn law_endpoint_with_tls_config(
    builder: &TonicTransportBuilder,
    config: ClientTlsConfig,
    uri: String,
    server: &ServerConfig,
    address: &str,
    https: bool,
    unix: bool,
    scheme: bool,
    res: Result<Endpoint, Error>,
)
    requires
        builder.tls_config == Some(config),
        !builder.google_default,
        call_ensures(ServerConfig::new, (uri,), *server),
        address@ == uri@,
        call_ensures(names_https, (address,), https),
        call_ensures(names_unix_socket, (address,), unix),
        call_ensures(names_scheme, (address,), scheme),
        call_ensures(TonicTransportBuilder::endpoint, (builder, server), res),
    ensures
        res matches Ok(endpoint) ==> {
            &&& https && uri_parses(uri@)
            &&& endpoint_address(endpoint) == uri@
            &&& endpoint_tls(endpoint) == Some(config)
            &&& endpoint_unix_path(endpoint) is None
        },
        res matches Err(error) ==> (error matches Error::Connection(text) && text@ == (if unix {
            "cannot apply TLS config for unix domain socket"@
        } else if !uri_parses(uri@) {
            "invalid URI"@
        } else if https || !scheme {
            "transport error"@
        } else {
            "TLS needs an https address"@
        })),
        res is Err && https && uri_parses(uri@) ==> exists|
            endpoint: Endpoint,
            error: tonic::transport::Error,
        | #[trigger]
            tonic_refuses(endpoint, config, error) && endpoint_address(endpoint) == uri@
                && endpoint_unix_path(endpoint) is None,
{
    lemma_https_is_no_unix_socket(uri@);
    if res is Err && https && uri_parses(uri@) {
        let error = choose|error: tonic::transport::Error| #[trigger]
            tonic_refuses_to_dial(uri@, config, error);
        assert(tonic_refuses_to_dial(uri@, config, error));
    }
}

/// The endpoint under `google_default` is for what is left of the address
/// without its scheme, under `https`, with TLS that trusts the platform's roots
/// alone and checks the certificate against the host; where that is a URI there
/// is one unless tonic refuses such settings for it.
pub proof fn law_endpoint_with_google_default(
    builder: &TonicTransportBuilder,
    uri: String,
    server: &ServerConfig,
    address: &str,
    rest: String,
    name: String,
    res: Result<Endpoint, Error>,
)
    requires
        builder.google_default,
        call_ensures(ServerConfig::new, (uri,), *server),
        address@ == uri@,
        call_ensures(bare_of, (address,), rest),
        call_ensures(host_of, (address,), name),
        call_ensures(TonicTransportBuilder::endpoint, (builder, server), res),
    ensures
        res matches Ok(endpoint) ==> {
            &&& endpoint_address(endpoint) == "https://"@ + rest@
            &&& endpoint_unix_path(endpoint) is None
            &&& (endpoint_tls(endpoint) matches Some(config) && tls_domain(config) == Some(name@)
                && tls_system_roots(config) && tls_nothing_else(config))
            &&& uri_parses("https://"@ + rest@)
            &&& is_server_name(name@)
        },
        res matches Err(error) ==> (error matches Error::Connection(text) && text@
            == (if uri_parses("https://"@ + rest@) {
            "transport error"@
        } else {
            "invalid URI"@
        })),
        res is Err && uri_parses("https://"@ + rest@) ==> exists|
            endpoint: Endpoint,
            config: ClientTlsConfig,
            error: tonic::transport::Error,
        | #[trigger]
            tonic_refuses(endpoint, config, error) && endpoint_address(endpoint) == "https://"@
                + rest@ && endpoint_unix_path(endpoint) is None && tls_domain(config) == Some(
                name@,
            ) && tls_system_roots(config) && tls_nothing_else(config),
{
    law_google_default_forces_https(uri@);
    lemma_https_is_no_unix_socket(https_uri(uri@));
    if res is Err && uri_parses("https://"@ + rest@) {
        lemma_google_default_is_refused_by_tonic(builder, uri@, res->Err_0);
    }
}

/// The step after connecting, for every builder: a connection that failed ends
/// the build with the text of its error; one that was made is the transport's,
/// without credentials, or, under `google_default`, is kept while credentials
/// are loaded with the one scope of the cloud platform. No other connection is
/// made.
pub proof fn law_connection_is_used(
    builder: &TonicTransportBuilder,
    outcome: Result<Channel, tonic::transport::Error>,
    step: BuildStep,
)
    requires
        call_ensures(TonicTransportBuilder::connected, (builder, outcome), step),
    ensures
        !(step is Connect),
        outcome matches Err(error) ==> (step matches BuildStep::Done(
            Err(Error::Connection(text)),
        ) && text@ == transport_error_display(error)),
        outcome matches Ok(made) ==> if builder.google_default {
            step matches BuildStep::LoadCredentials { channel, loader } && channel == made
                && credentials_scopes(loader) == Some(
                seq!["https://www.googleapis.com/auth/cloud-platform"@],
            ) && credentials_nothing_else(loader)
        } else {
            step matches BuildStep::Done(Ok(transport)) && transport.channel == made
                && transport.creds is None
        },
{
}

/// Credentials that were loaded go into a transport over the connection they
/// were loaded for; where they were not, the build fails with the reason.
pub proof fn law_loaded_credentials_are_used(
    channel: Channel,
    outcome: Result<AccessTokenCredentials, google_cloud_auth::build_errors::Error>,
    res: Result<TonicTransport, Error>,
)
    requires
        call_ensures(TonicTransportBuilder::credentials_loaded, (channel, outcome), res),
    ensures
        outcome matches Ok(credentials) ==> (res matches Ok(transport) && transport.channel
            == channel && transport.creds is Some && *transport.creds->0 == credentials),
        outcome matches Err(error) ==> (res matches Err(Error::Connection(text)) && text@
            == "google_default credentials: "@ + build_error_display(error)),
{
}

/// A build ends in a transport over the connection that was made, with
/// credentials exactly under `google_default`; it takes no step but loading
/// those.
pub proof fn law_build_ends_in_a_transport(
    builder: &TonicTransportBuilder,
    made: Channel,
    step: BuildStep,
    credentials: AccessTokenCredentials,
    res: Result<TonicTransport, Error>,
)
    requires
        call_ensures(TonicTransportBuilder::connected, (builder, Ok(made)), step),
        step matches BuildStep::Done(done) ==> res == done,
        step matches BuildStep::LoadCredentials { channel, .. } ==> call_ensures(
            TonicTransportBuilder::credentials_loaded,
            (channel, Ok(credentials)),
            res,
        ),
    ensures
        step is Done || step is LoadCredentials,
        res matches Ok(transport) && {
            &&& transport.channel == made
            &&& !builder.google_default ==> transport.creds is None
            &&& builder.google_default ==> transport.creds is Some && *transport.creds->0
                == credentials
        },
{
}

// ---------------------------------------------------------------------------
// Transports
// ---------------------------------------------------------------------------

/// A transport made from a connection is over that connection and has no
/// credentials; a copy of a transport is over the same connection with the
/// same credentials; and a client of it calls over that connection.
pub proof fn law_transport_keeps_its_connection(
    channel: Channel,
    plain: TonicTransport,
    transport: &TonicTransport,
    copied: TonicTransport,
    client: Grpc<Channel>,
)
    requires
        call_ensures(TonicTransport::from_channel, (channel,), plain),
        call_ensures(<TonicTransport as Clone>::clone, (transport,), copied),
        call_ensures(TonicTransport::client, (transport,), client),
    ensures
        plain.channel == channel,
        plain.creds is None,
        copied.channel == transport.channel,
        copied.creds == transport.creds,
        grpc_channel(client) == transport.channel,
{
}

/// What is shown of a transport says whether it has credentials, and nothing
/// more of them.
pub proof fn law_credentials_are_not_shown(transport: &TonicTransport, text: String)
    requires
        call_ensures(TonicTransport::debug_text, (transport,), text),
    ensures
        transport.creds is Some ==> text@
            == "TonicTransport { channel: Channel, google_default_creds: true }"@,
        transport.creds is None ==> text@
            == "TonicTransport { channel: Channel, google_default_creds: false }"@,
{
    reveal_strlit("TonicTransport { channel: Channel, google_default_creds: ");
    reveal_strlit("true");
    reveal_strlit("false");
    reveal_strlit(" }");
    reveal_strlit("TonicTransport { channel: Channel, google_default_creds: true }");
    reveal_strlit("TonicTransport { channel: Channel, google_default_creds: false }");
    assert(transport.creds is Some ==> text@
        =~= "TonicTransport { channel: Channel, google_default_creds: true }"@);
    assert(transport.creds is None ==> text@
        =~= "TonicTransport { channel: Channel, google_default_creds: false }"@);
}

/// The text of an error of tonic's transport is the text of the connection
/// error.
pub proof fn law_transport_error_keeps_its_text(error: tonic::transport::Error, res: Error)
    requires
        call_ensures(Error::from_transport, (error,), res),
    ensures
        res matches Error::Connection(text) && text@ == transport_error_display(error),
{
}

// ---------------------------------------------------------------------------
// Opening streams
// ---------------------------------------------------------------------------

/// A stream of a transport without credentials is opened at once: the call is
/// that of StreamAggregatedResources, without metadata; it sends each of the
/// initial requests, in order, and then what its sender sends, through a
/// channel of 16 that nothing else reads.
pub proof fn law_stream_is_opened_without_credentials(
    transport: &TonicTransport,
    initial: Vec<Bytes>,
    step: StreamStep<'_>,
    queued: Seq<Seq<u8>>,
    i: int,
)
    requires
        transport.creds is None,
        call_ensures(TonicTransport::start_stream, (transport, Ok(()), initial), step),
    ensures
        step matches StreamStep::Open(open) && {
            &&& path_text(open.path)
                == "/envoy.service.discovery.v3.AggregatedDiscoveryService/StreamAggregatedResources"@
            &&& request_metadata(open.request) == Map::<Seq<char>, Seq<u8>>::empty()
            &&& sender_max_capacity(open.sender) == 16
            &&& sender_feeds(open.sender, request_stream_source(request_message(open.request)))
            &&& forall|other: mpsc::Receiver<Bytes>| #[trigger]
                sender_feeds(open.sender, other) ==> other == request_stream_source(
                    request_message(open.request),
                )
            &&& request_stream_yields(request_message(open.request), queued).len()
                == initial@.len() + queued.len()
            &&& 0 <= i < initial@.len() ==> request_stream_yields(
                request_message(open.request),
                queued,
            )[i] == bytes_content(initial@[i])
            &&& 0 <= i < queued.len() ==> request_stream_yields(
                request_message(open.request),
                queued,
            )[initial@.len() + i] == queued[i]
        },
{
}

/// A stream of a transport with credentials waits for a token from those very
/// credentials; what it will call and send is settled by then, the same as
/// without credentials.
pub proof fn law_stream_waits_for_a_token(
    transport: &TonicTransport,
    initial: Vec<Bytes>,
    step: StreamStep<'_>,
    queued: Seq<Seq<u8>>,
    i: int,
)
    requires
        transport.creds is Some,
        call_ensures(TonicTransport::start_stream, (transport, Ok(()), initial), step),
    ensures
        step matches StreamStep::FetchToken { credentials, pending } && {
            &&& Some(*credentials) == transport.creds
            &&& path_text(pending.path)
                == "/envoy.service.discovery.v3.AggregatedDiscoveryService/StreamAggregatedResources"@
            &&& sender_max_capacity(pending.sender) == 16
            &&& sender_feeds(pending.sender, request_stream_source(pending.requests))
            &&& forall|other: mpsc::Receiver<Bytes>| #[trigger]
                sender_feeds(pending.sender, other) ==> other == request_stream_source(
                    pending.requests,
                )
            &&& request_stream_yields(pending.requests, queued).len() == initial@.len()
                + queued.len()
            &&& 0 <= i < initial@.len() ==> request_stream_yields(pending.requests, queued)[i]
                == bytes_content(initial@[i])
            &&& 0 <= i < queued.len() ==> request_stream_yields(
                pending.requests,
                queued,
            )[initial@.len() + i] == queued[i]
        },
{
}

/// On a connection that is not ready no stream is opened and no token fetched;
/// the error keeps its text.
pub proof fn law_stream_needs_a_ready_connection(
    transport: &TonicTransport,
    error: tonic::transport::Error,
    initial: Vec<Bytes>,
    step: StreamStep<'_>,
)
    requires
        call_ensures(TonicTransport::start_stream, (transport, Err(error), initial), step),
    ensures
        step matches StreamStep::Failed(Error::Connection(text)) && text@
            == transport_error_display(error),
{
}

/// With a token, the call is the one that was waiting for it, and its one
/// metadata entry is `authorization` with the bytes of `Bearer `, followed by
/// those of all of the token. A token is refused exactly where those bytes hold
/// a control character other than a tab.
pub proof fn law_whole_token_is_carried(
    pending: PendingStream,
    token: String,
    step: StreamStep<'static>,
    value: Seq<u8>,
)
    requires
        call_ensures(PendingStream::authorize, (pending, Ok(token)), step),
        value == vstd::utf8::encode_utf8("Bearer "@ + token@),
    ensures
        step is Open <==> (forall|i: int|
            0 <= i < value.len() ==> (#[trigger] value[i] >= 32 && value[i] != 127) || value[i]
                == 9),
        step matches StreamStep::Open(open) ==> {
            &&& open.sender == pending.sender
            &&& open.path == pending.path
            &&& request_message(open.request) == pending.requests
            &&& request_metadata(open.request) == Map::<Seq<char>, Seq<u8>>::empty().insert(
                "authorization"@,
                value,
            )
            &&& request_metadata(open.request)["authorization"@] == value
        },
        !(step is Open) ==> (step matches StreamStep::Failed(Error::Connection(text)) && text@
            == "google_default token metadata: failed to parse metadata value"@),
{
}

/// Different tokens are carried as different metadata: none is shortened or
/// changed on the way.
pub proof fn law_different_tokens_differ_on_the_call(
    one_pending: PendingStream,
    one: String,
    one_step: StreamStep<'static>,
    other_pending: PendingStream,
    other: String,
    other_step: StreamStep<'static>,
)
    requires
        call_ensures(PendingStream::authorize, (one_pending, Ok(one)), one_step),
        call_ensures(PendingStream::authorize, (other_pending, Ok(other)), other_step),
        one_step is Open,
        other_step is Open,
        one@ != other@,
    ensures
        request_metadata(one_step->Open_0.request)["authorization"@] != request_metadata(
            other_step->Open_0.request,
        )["authorization"@],
{
    let one_text = "Bearer "@ + one@;
    let other_text = "Bearer "@ + other@;
    vstd::utf8::encode_utf8_decode_utf8(one_text);
    vstd::utf8::encode_utf8_decode_utf8(other_text);
    if one_text == other_text {
        assert(one_text.skip("Bearer "@.len() as int) =~= one@);
        assert(other_text.skip("Bearer "@.len() as int) =~= other@);
    }
}

/// Where no token was fetched the stream is not opened, and the error says why.
pub proof fn law_stream_needs_its_token(
    pending: PendingStream,
    error: CredentialsError,
    step: StreamStep<'static>,
)
    requires
        call_ensures(PendingStream::authorize, (pending, Err(error)), step),
    ensures
        step matches StreamStep::Failed(Error::Connection(text)) && text@
            == "google_default token fetch: "@ + credentials_error_display(error),
{
}

/// Every call that opens a stream of a transport, with credentials or without,
/// is that of StreamAggregatedResources, however many initial requests there
/// are, and sends those and then what its sender sends.
pub proof fn law_every_call_is_of_the_ads_method(
    transport: &TonicTransport,
    initial: Vec<Bytes>,
    first: StreamStep<'_>,
    outcome: Result<String, CredentialsError>,
    second: StreamStep<'static>,
    open: OpenRequest,
    queued: Seq<Seq<u8>>,
)
    requires
        call_ensures(TonicTransport::start_stream, (transport, Ok(()), initial), first),
        first matches StreamStep::FetchToken { pending, .. } ==> call_ensures(
            PendingStream::authorize,
            (pending, outcome),
            second,
        ) && second == StreamStep::<'static>::Open(open),
        !(first is FetchToken) ==> (first matches StreamStep::Open(at_once) && at_once == open),
    ensures
        path_text(open.path)
            == "/envoy.service.discovery.v3.AggregatedDiscoveryService/StreamAggregatedResources"@,
        sender_feeds(open.sender, request_stream_source(request_message(open.request))),
        request_stream_yields(request_message(open.request), queued) == Seq::new(
            initial@.len(),
            |i: int| bytes_content(initial@[i]),
        ) + queued,
        transport.creds is Some ==> (outcome matches Ok(token) && request_metadata(
            open.request,
        )["authorization"@] == vstd::utf8::encode_utf8("Bearer "@ + token@)),
        transport.creds is None ==> request_metadata(open.request) == Map::<
            Seq<char>,
            Seq<u8>,
        >::empty(),
{
    assert(request_stream_yields(request_message(open.request), queued) =~= Seq::new(
        initial@.len(),
        |i: int| bytes_content(initial@[i]),
    ) + queued);
}

/// A call that was answered gives a stream with the sender of the call and the
/// answer to it, open for requests; a call that was refused gives its status.
pub proof fn law_answered_call_gives_its_stream(
    sender: mpsc::Sender<Bytes>,
    outcome: Result<Response<Streaming<Bytes>>, Status>,
    res: Result<TonicAdsStream, Error>,
)
    requires
        call_ensures(TonicTransport::opened, (sender, outcome), res),
    ensures
        outcome matches Ok(response) ==> (res matches Ok(stream) && stream.sender == sender
            && stream.receiver == response_message(response) && !stream.closed),
        outcome matches Err(status) ==> (res matches Err(Error::Stream(passed)) && passed
            == status),
{
}

// ---------------------------------------------------------------------------
// Sending and receiving
// ---------------------------------------------------------------------------

/// A request is handed to the channel as it is while the request side is open,
/// and refused once it is closed.
pub proof fn law_request_is_handed_on(
    stream: &TonicAdsStream,
    request: Bytes,
    res: Result<Bytes, Error>,
)
    requires
        call_ensures(TonicAdsStream::start_send, (stream, request), res),
    ensures
        !stream.closed ==> (res matches Ok(handed) && handed == request),
        stream.closed ==> (res matches Err(Error::StreamClosed)),
{
}

/// Sending leaves the two ends of a stream as they were, whatever came of it.
/// On an open stream it succeeds exactly where the channel took the request,
/// and the stream then stays open; else it is closed for good.
pub proof fn law_sending_keeps_both_ends(
    stream: &mut TonicAdsStream,
    outcome: Result<(), mpsc::error::SendError<Bytes>>,
    res: Result<(), Error>,
)
    requires
        call_ensures(TonicAdsStream::sent, (stream, outcome), res),
    ensures
        final(stream).sender == old(stream).sender,
        final(stream).receiver == old(stream).receiver,
        final(stream).closed <==> old(stream).closed || outcome is Err,
        res is Ok <==> !old(stream).closed && outcome is Ok,
        res is Err ==> (res matches Err(Error::StreamClosed)),
{
}

/// Any number of requests that the channel took leave a stream with the sender
/// that feeds its call, and the receiver of the answer to it, and each send
/// succeeds. `states` are the stream after each send, the opened stream first.
pub proof fn law_stream_stays_with_its_call(
    transport: &TonicTransport,
    initial: Vec<Bytes>,
    first: StreamStep<'_>,
    token: Result<String, CredentialsError>,
    open: OpenRequest,
    response: Response<Streaming<Bytes>>,
    states: Seq<TonicAdsStream>,
    outcomes: Seq<Result<(), mpsc::error::SendError<Bytes>>>,
    results: Seq<Result<(), Error>>,
    queued: Seq<Seq<u8>>,
)
    requires
        call_ensures(TonicTransport::start_stream, (transport, Ok(()), initial), first),
        first matches StreamStep::FetchToken { pending, .. } ==> call_ensures(
            PendingStream::authorize,
            (pending, token),
            StreamStep::<'static>::Open(open),
        ),
        !(first is FetchToken) ==> (first matches StreamStep::Open(at_once) && at_once == open),
        states.len() == outcomes.len() + 1,
        results.len() == outcomes.len(),
        call_ensures(TonicTransport::opened, (open.sender, Ok(response)), Ok(states[0])),
        forall|k: int|
            0 <= k < outcomes.len() ==> (#[trigger] outcomes[k]) is Ok && states[k].follows_send(
                outcomes[k],
                states[k + 1],
                results[k],
            ),
    ensures
        states.last().sender == open.sender,
        states.last().receiver == response_message(response),
        !states.last().closed,
        sender_feeds(
            states.last().sender,
            request_stream_source(request_message(open.request)),
        ),
        sender_max_capacity(states.last().sender) == 16,
        request_stream_yields(request_message(open.request), queued) == Seq::new(
            initial@.len(),
            |i: int| bytes_content(initial@[i]),
        ) + queued,
        forall|k: int| 0 <= k < results.len() ==> #[trigger] results[k] is Ok,
{
    assert(request_stream_yields(request_message(open.request), queued) =~= Seq::new(
        initial@.len(),
        |i: int| bytes_content(initial@[i]),
    ) + queued);
    lemma_taken_sends_change_nothing(states, outcomes, results, outcomes.len());
    assert forall|k: int| 0 <= k < results.len() implies #[trigger] results[k] is Ok by {
        lemma_taken_sends_change_nothing(states, outcomes, results, k as nat);
        assert(outcomes[k] is Ok);
    }
}

/// A response, the end of the stream, and the status that ended it are handed
/// on as they are.
pub proof fn law_responses_are_handed_on(
    outcome: Result<Option<Bytes>, Status>,
    res: Result<Option<Bytes>, Error>,
)
    requires
        call_ensures(TonicAdsStream::received, (outcome,), res),
    ensures
        outcome matches Ok(message) ==> (res matches Ok(passed) && passed == message),
        outcome matches Err(status) ==> (res matches Err(Error::Stream(passed)) && passed
            == status),
{
}

// ---------------------------------------------------------------------------
// Codec
// ---------------------------------------------------------------------------

/// Encoding appends the bytes of the message to the buffer, all of them and
/// nothing else, and succeeds.
pub proof fn law_message_is_appended(
    encoder: &mut BytesEncoder,
    item: Bytes,
    dst: &mut EncodeBuf<'_>,
    res: Result<(), Status>,
)
    requires
        call_ensures(BytesEncoder::encode, (encoder, item, dst), res),
    ensures
        res is Ok,
        encode_buf_content(*final(dst)) == encode_buf_content(*old(dst)) + bytes_content(item),
{
}

/// Encoding where there is room does the same where there is, and else leaves
/// the buffer as it was.
pub proof fn law_message_is_appended_where_there_is_room(
    encoder: &mut BytesEncoder,
    item: Bytes,
    dst: &mut EncodeBuf<'_>,
    res: Option<Result<(), Status>>,
)
    requires
        call_ensures(BytesEncoder::encode_if_room, (encoder, item, dst), res),
    ensures
        encode_buf_content(*old(dst)).len() + bytes_content(item).len() <= isize::MAX ==> {
            &&& res is Some
            &&& res->0 is Ok
            &&& encode_buf_content(*final(dst)) == encode_buf_content(*old(dst))
                + bytes_content(item)
        },
        encode_buf_content(*old(dst)).len() + bytes_content(item).len() > isize::MAX ==> {
            &&& res is None
            &&& *final(dst) == *old(dst)
        },
{
}

/// Decoding takes all the bytes of the buffer as one message, and leaves none.
pub proof fn law_message_is_all_of_the_buffer(
    decoder: &mut BytesDecoder,
    src: &mut DecodeBuf<'_>,
    res: Result<Option<Bytes>, Status>,
)
    requires
        call_ensures(BytesDecoder::decode, (decoder, src), res),
    ensures
        res matches Ok(Some(item)) && bytes_content(item) == decode_buf_content(*old(src)),
        decode_buf_content(*final(src)) == Seq::<u8>::empty(),
{
    assert(decode_buf_content(*final(src)) =~= Seq::<u8>::empty());
}

// ---------------------------------------------------------------------------
// What can be called
// ---------------------------------------------------------------------------

/// Transports can be built and streams opened with every address, setting and
/// outcome.
pub proof fn law_building_and_opening_take_everything(
    address: &str,
    uri: String,
    server: &ServerConfig,
    builder: &TonicTransportBuilder,
    connected: Result<Channel, tonic::transport::Error>,
    channel: Channel,
    loaded: Result<AccessTokenCredentials, google_cloud_auth::build_errors::Error>,
    transport: &TonicTransport,
    ready: Result<(), tonic::transport::Error>,
    initial: Vec<Bytes>,
    pending: PendingStream,
    token: Result<String, CredentialsError>,
    sender: mpsc::Sender<Bytes>,
    answered: Result<Response<Streaming<Bytes>>, Status>,
)
    ensures
        call_requires(bare_of, (address,)),
        call_requires(host_of, (address,)),
        call_requires(https_uri_of, (address,)),
        call_requires(names_https, (address,)),
        call_requires(names_scheme, (address,)),
        call_requires(names_unix_socket, (address,)),
        call_requires(ServerConfig::new, (uri,)),
        call_requires(TonicTransportBuilder::google_default_tls, (server,)),
        call_requires(TonicTransportBuilder::endpoint, (builder, server)),
        call_requires(TonicTransportBuilder::start_build, (builder, server)),
        call_requires(TonicTransportBuilder::connected, (builder, connected)),
        call_requires(TonicTransportBuilder::credentials_loaded, (channel, loaded)),
        call_requires(TonicTransport::from_channel, (channel,)),
        call_requires(TonicTransport::start_connect, (uri,)),
        call_requires(TonicTransport::client, (transport,)),
        call_requires(TonicTransport::debug_text, (transport,)),
        call_requires(TonicTransport::start_stream, (transport, ready, initial)),
        call_requires(PendingStream::authorize, (pending, token)),
        call_requires(TonicTransport::opened, (sender, answered)),
{
}

/// Requests can be sent and responses received at any time and with every
/// outcome; messages can be encoded where there is room, and always decoded.
pub proof fn law_sending_and_receiving_take_everything(
    stream: &TonicAdsStream,
    sending: &mut TonicAdsStream,
    request: Bytes,
    sent: Result<(), mpsc::error::SendError<Bytes>>,
    received: Result<Option<Bytes>, Status>,
    encoder: &mut BytesEncoder,
    dst: &mut EncodeBuf<'_>,
    decoder: &mut BytesDecoder,
    src: &mut DecodeBuf<'_>,
)
    ensures
        call_requires(TonicAdsStream::start_send, (stream, request)),
        call_requires(TonicAdsStream::sent, (sending, sent)),
        call_requires(TonicAdsStream::received, (received,)),
        encode_buf_content(*old(dst)).len() + bytes_content(request).len() <= isize::MAX
            ==> call_requires(BytesEncoder::encode, (encoder, request, dst)),
        call_requires(BytesEncoder::encode_if_room, (encoder, request, dst)),
        call_requires(BytesDecoder::decode, (decoder, src)),
{
}

// ---------------------------------------------------------------------------
// Lemmas
// ---------------------------------------------------------------------------

proof fn lemma_run_is_of_scheme_chars(text: Seq<char>)
    ensures
        scheme_run(text) <= text.len(),
        forall|i: int| 0 <= i < scheme_run(text) ==> is_scheme_char(#[trigger] text[i]),
    decreases text.len(),
{
    if text.len() > 0 && is_scheme_char(text[0]) {
        lemma_run_is_of_scheme_chars(text.skip(1));
        assert forall|i: int| 0 <= i < scheme_run(text) implies is_scheme_char(
            #[trigger] text[i],
        ) by {
            if i > 0 {
                assert(text.skip(1)[i - 1] == text[i]);
            }
        }
    }
}

proof fn lemma_before_last_splits(text: Seq<char>)
    ensures
        before_last(text, ':') matches Some(head) ==> {
            &&& head.len() < text.len()
            &&& text.take(head.len() as int) == head
            &&& text[head.len() as int] == ':'
            &&& forall|i: int| head.len() < i < text.len() ==> #[trigger] text[i] != ':'
        },
        before_last(text, ':') is None ==> !text.contains(':'),
    decreases text.len(),
{
    if text.len() > 0 {
        let shorter = text.drop_last();
        if text.last() == ':' {
            assert(text.take(shorter.len() as int) =~= shorter);
        } else {
            lemma_before_last_splits(shorter);
            if let Some(head) = before_last(shorter, ':') {
                assert(text.take(head.len() as int) =~= shorter.take(head.len() as int));
                assert(text[head.len() as int] == shorter[head.len() as int]);
                assert forall|i: int| head.len() < i < text.len() implies #[trigger] text[i]
                    != ':' by {
                    if i < shorter.len() {
                        assert(shorter[i] == text[i]);
                    }
                }
            } else {
                assert forall|i: int| 0 <= i < text.len() implies #[trigger] text[i] != ':' by {
                    if i < shorter.len() {
                        assert(shorter[i] == text[i]);
                        assert(shorter.contains(shorter[i]));
                    }
                }
            }
        }
    }
}

proof fn lemma_https_is_no_unix_socket(address: Seq<char>)
    ensures
        is_https(address) ==> unix_path(address) is None,
{
    reveal_strlit("unix:");
    reveal_strlit("unix://");
    if occurs_at(address, "unix:"@, 0) {
        assert(address.subrange(0, 5)[0] == address[0]);
    }
    if occurs_at(address, "unix://"@, 0) {
        assert(address.subrange(0, 7)[0] == address[0]);
    }
}

proof fn lemma_google_default_is_refused_by_tonic(
    builder: &TonicTransportBuilder,
    address: Seq<char>,
    failure: Error,
)
    requires
        builder.google_default,
        builder.makes(address, Err(failure)),
        uri_parses(https_uri(address)),
    ensures
        exists|endpoint: Endpoint, config: ClientTlsConfig, error: tonic::transport::Error|
            #[trigger]
            tonic_refuses(endpoint, config, error) && endpoint_address(endpoint) == https_uri(
                address,
            ) && endpoint_unix_path(endpoint) is None && tls_domain(config) == Some(host(address))
                && tls_system_roots(config) && tls_nothing_else(config),
{
    law_google_default_forces_https(address);
    lemma_https_is_no_unix_socket(https_uri(address));
    let config = choose|config: ClientTlsConfig| #[trigger]
        is_google_tls(config, host(address)) && tls_endpoint(
            https_uri(address),
            config,
            Err(failure),
        );
    let error = choose|error: tonic::transport::Error| #[trigger]
        tonic_refuses_to_dial(https_uri(address), config, error);
    assert(tonic_refuses_to_dial(https_uri(address), config, error));
}

proof fn lemma_taken_sends_change_nothing(
    states: Seq<TonicAdsStream>,
    outcomes: Seq<Result<(), mpsc::error::SendError<Bytes>>>,
    results: Seq<Result<(), Error>>,
    n: nat,
)
    requires
        states.len() == outcomes.len() + 1,
        results.len() == outcomes.len(),
        n <= outcomes.len(),
        forall|k: int|
            0 <= k < outcomes.len() ==> (#[trigger] outcomes[k]) is Ok && states[k].follows_send(
                outcomes[k],
                states[k + 1],
                results[k],
            ),
    ensures
        states[n as int].sender == states[0].sender,
        states[n as int].receiver == states[0].receiver,
        states[n as int].closed == states[0].closed,
    decreases n,
{
    if n > 0 {
        lemma_taken_sends_change_nothing(states, outcomes, results, (n - 1) as nat);
        assert(outcomes[n - 1] is Ok);
    }
}

} // verus!
