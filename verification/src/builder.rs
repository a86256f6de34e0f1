//! Building a transport: which endpoint is dialed, and what follows once the
//! connection, and the credentials where they are needed, are there.
//!
//! Dialing and loading credentials are the caller's. [`BuildStep`] says what
//! to do next, and the outcome goes back to the builder.

use vstd::prelude::*;

use google_cloud_auth::credentials::{AccessTokenCredentials, Builder};
use std::sync::Arc;
use tonic::transport::{Channel, ClientTlsConfig, Endpoint};

use crate::address::{
    has_scheme, host, host_of, https_uri, https_uri_of, is_https, names_https, names_scheme,
    names_unix_socket, unix_path,
};
use crate::config::ServerConfig;
use crate::error::Error;
use crate::outside::{
    build_error_display, build_error_text, credentials_builder_default,
    credentials_builder_with_scope, credentials_nothing_else, credentials_scopes,
    endpoint_address, endpoint_from_shared, endpoint_tls, endpoint_tls_config, endpoint_unix_path,
    tls_config_clone, tls_config_domain_name, tls_config_new, tls_config_with_enabled_roots,
    tls_domain, tls_fits, tls_is_self_contained, tls_nothing_else, tls_system_roots,
    transport_error_display, uri_parses,
};
use crate::transport::TonicTransport;

verus! {

/// The scope that `google_default` credentials are loaded with.
pub const GOOGLE_DEFAULT_SCOPE: &'static str = "https://www.googleapis.com/auth/cloud-platform";

/// Builder for [`TonicTransport`].
#[derive(Debug)]
pub struct TonicTransportBuilder {
    /// TLS settings for connections to the xDS server.
    pub tls_config: Option<ClientTlsConfig>,
    /// Whether to use GCP `google_default` credentials: TLS with the system's
    /// roots, and a bearer token on each stream.
    pub google_default: bool,
}

/// What has to be done next to build a transport.
pub enum BuildStep {
    /// Connect to the endpoint, and hand the outcome to
    /// [`TonicTransportBuilder::connected`].
    Connect(Endpoint),
    /// Build access token credentials with `loader`, and hand the outcome to
    /// [`TonicTransportBuilder::credentials_loaded`] with `channel`.
    LoadCredentials { channel: Channel, loader: Builder },
    /// Nothing: this is the outcome.
    Done(Result<TonicTransport, Error>),
}

/// Whether an endpoint can be made from an address.
pub open spec fn is_dialable(address: Seq<char>) -> bool {
    unix_path(address) is Some || uri_parses(address)
}

/// Whether an endpoint dials an address.
pub open spec fn dials(endpoint: Endpoint, address: Seq<char>) -> bool {
    &&& endpoint_address(endpoint) == address
    &&& endpoint_unix_path(endpoint) == unix_path(address)
}

/// Whether TLS settings are those of `google_default` for a server's name.
pub open spec fn is_google_tls(config: ClientTlsConfig, name: Seq<char>) -> bool {
    &&& tls_domain(config) == Some(name)
    &&& tls_system_roots(config)
    &&& tls_nothing_else(config)
}

/// Whether `res` is what comes of an address, dialed without TLS.
pub open spec fn plain_endpoint(address: Seq<char>, res: Result<Endpoint, Error>) -> bool {
    if is_dialable(address) {
        res matches Ok(endpoint) && dials(endpoint, address) && endpoint_tls(endpoint) is None
    } else {
        res matches Err(error) && error.is_connection("invalid URI"@)
    }
}

/// Whether an error of tonic's is an outcome of setting up TLS for an endpoint
/// with the settings. Nothing but that call can show it.
pub closed spec fn tonic_refuses(
    endpoint: Endpoint,
    config: ClientTlsConfig,
    error: tonic::transport::Error,
) -> bool {
    call_ensures(endpoint_tls_config, (endpoint, config), Err(error))
}

/// Whether tonic refuses the settings for an endpoint that dials the address.
pub open spec fn tonic_refuses_to_dial(
    address: Seq<char>,
    config: ClientTlsConfig,
    error: tonic::transport::Error,
) -> bool {
    exists|endpoint: Endpoint| #[trigger]
        tonic_refuses(endpoint, config, error) && endpoint_address(endpoint) == address
            && endpoint_unix_path(endpoint) is None
}

/// Whether `res` is what comes of an address, dialed with the given TLS
/// settings. TLS comes into play only under `https`, so no other address is
/// dialed. An address without a scheme is a transport error, as tonic connects
/// to none. So are settings that TLS cannot be set up with: certificates that do
/// not parse, or a name to check that is no server's name. Where the settings
/// neither trust the platform's roots nor hold an identity, there are no others;
/// else it is tonic that says so.
pub open spec fn tls_endpoint(
    address: Seq<char>,
    config: ClientTlsConfig,
    res: Result<Endpoint, Error>,
) -> bool {
    if !is_dialable(address) {
        res matches Err(error) && error.is_connection("invalid URI"@)
    } else if unix_path(address) is Some {
        res matches Err(error) && error.is_connection(
            "cannot apply TLS config for unix domain socket"@,
        )
    } else if is_https(address) {
        &&& res is Ok ==> tls_fits(config, address)
        &&& tls_is_self_contained(config) && tls_fits(config, address) ==> res is Ok
        &&& match res {
            Ok(endpoint) => dials(endpoint, address) && endpoint_tls(endpoint) == Some(config),
            Err(failure) => {
                &&& failure.is_connection("transport error"@)
                &&& exists|error: tonic::transport::Error| #[trigger]
                    tonic_refuses_to_dial(address, config, error)
            },
        }
    } else if has_scheme(address) {
        res matches Err(error) && error.is_connection("TLS needs an https address"@)
    } else {
        res matches Err(error) && error.is_connection("transport error"@)
    }
}

/// A refusal of tonic's is an outcome of the call that sets up TLS.
proof fn lemma_refusal_is_an_outcome(
    endpoint: Endpoint,
    config: ClientTlsConfig,
    error: tonic::transport::Error,
)
    requires
        tonic_refuses(endpoint, config, error),
    ensures
        call_ensures(endpoint_tls_config, (endpoint, config), Err(error)),
{
}

impl Default for TonicTransportBuilder {
    /// Plaintext settings.
    fn default() -> (builder: Self)
        ensures
            builder.tls_config is None,
            !builder.google_default,
    {
        TonicTransportBuilder { tls_config: None, google_default: false }
    }
}

impl Clone for TonicTransportBuilder {
    /// A builder with the same settings.
    fn clone(&self) -> (copy: Self)
        ensures
            copy == *self,
    {
        let tls_config = match &self.tls_config {
            Some(config) => Some(tls_config_clone(config)),
            None => None,
        };
        TonicTransportBuilder { tls_config, google_default: self.google_default }
    }
}

impl TonicTransportBuilder {
    /// Whether `res` is what this builder makes of a server's address.
    pub open spec fn makes(self, address: Seq<char>, res: Result<Endpoint, Error>) -> bool {
        if self.google_default {
            exists|config: ClientTlsConfig| #[trigger]
                is_google_tls(config, host(address)) && tls_endpoint(
                    https_uri(address),
                    config,
                    res,
                )
        } else {
            match self.tls_config {
                Some(config) => tls_endpoint(address, config, res),
                None => plain_endpoint(address, res),
            }
        }
    }

    /// Creates a builder with default (plaintext) settings.
    pub fn new() -> (builder: Self)
        ensures
            builder.tls_config is None,
            !builder.google_default,
    {
        Self::default()
    }

    /// Sets the TLS settings for connections to the xDS server. Servers whose
    /// address is not `https` are then refused, not dialed in plaintext.
    pub fn with_tls_config(self, tls_config: ClientTlsConfig) -> (builder: Self)
        ensures
            builder.tls_config == Some(tls_config),
            builder.google_default == self.google_default,
    {
        TonicTransportBuilder { tls_config: Some(tls_config), google_default: self.google_default }
    }

    /// Turns GCP `google_default` credentials on or off.
    pub fn with_google_default(self, enabled: bool) -> (builder: Self)
        ensures
            builder.tls_config == self.tls_config,
            builder.google_default == enabled,
    {
        TonicTransportBuilder { tls_config: self.tls_config, google_default: enabled }
    }

    /// What setting up TLS for an endpoint comes to: the endpoint with TLS, or
    /// a connection error with the text of the transport's.
    pub fn secured(
        outcome: Result<Endpoint, tonic::transport::Error>,
    ) -> (res: Result<Endpoint, Error>)
        ensures
            match outcome {
                Ok(endpoint) => res == Ok::<Endpoint, Error>(endpoint),
                Err(error) => res matches Err(failure) && failure.is_connection(
                    transport_error_display(error),
                ),
            },
    {
        match outcome {
            Ok(endpoint) => Ok(endpoint),
            Err(error) => Err(Error::from_transport(error)),
        }
    }

    /// The endpoint with TLS for an address, where TLS would come into play.
    /// A unix domain socket is left to tonic, which refuses it. An address
    /// without a scheme gets the error that connecting to it would end in.
    fn endpoint_with_tls(address: &str, config: ClientTlsConfig) -> (res: Result<Endpoint, Error>)
        ensures
            tls_endpoint(address@, config, res),
    {
        match endpoint_from_shared(address.to_owned()) {
            Ok(endpoint) => if names_https(address) || names_unix_socket(address) {
                let outcome = endpoint_tls_config(endpoint, config);
                proof {
                    if outcome is Err {
                        let error = outcome->Err_0;
                        assert(tonic_refuses(endpoint, config, error));
                        assert(unix_path(address@) is None ==> tonic_refuses_to_dial(
                            address@,
                            config,
                            error,
                        ));
                    }
                }
                Self::secured(outcome)
            } else if names_scheme(address) {
                Err(Error::Connection("TLS needs an https address".to_owned()))
            } else {
                Err(Error::Connection("transport error".to_owned()))
            },
            Err(error) => Err(Error::from_transport(error)),
        }
    }

    /// The TLS settings for a server under `google_default`: the system's
    /// roots, the certificate checked against the server's host.
    pub fn google_default_tls(server: &ServerConfig) -> (config: ClientTlsConfig)
        ensures
            is_google_tls(config, host(server@)),
    {
        tls_config_with_enabled_roots(
            tls_config_domain_name(tls_config_new(), host_of(server.uri())),
        )
    }

    /// The endpoint for a server under `google_default`: `https` with the
    /// settings of [`TonicTransportBuilder::google_default_tls`].
    fn google_default_endpoint(server: &ServerConfig) -> (res: Result<Endpoint, Error>)
        ensures
            exists|config: ClientTlsConfig| #[trigger]
                is_google_tls(config, host(server@)) && tls_endpoint(
                    https_uri(server@),
                    config,
                    res,
                ),
    {
        let config = Self::google_default_tls(server);
        let uri = https_uri_of(server.uri());
        Self::endpoint_with_tls(uri.as_str(), config)
    }

    /// The endpoint that this builder dials for a server. Addresses of unix
    /// domain sockets (`unix:///etc/istio/proxy/XDS`) are dialed as such. With
    /// a TLS configuration only `https` addresses are dialed.
    pub fn endpoint(&self, server: &ServerConfig) -> (res: Result<Endpoint, Error>)
        ensures
            self.makes(server@, res),
    {
        if self.google_default {
            return Self::google_default_endpoint(server);
        }
        match &self.tls_config {
            Some(config) => Self::endpoint_with_tls(server.uri(), tls_config_clone(config)),
            None => match endpoint_from_shared(server.uri().to_owned()) {
                Ok(endpoint) => Ok(endpoint),
                Err(error) => Err(Error::from_transport(error)),
            },
        }
    }

    /// The first step of building a transport to a server: dial its endpoint,
    /// or fail where there is none.
    pub fn start_build(&self, server: &ServerConfig) -> (step: BuildStep)
        ensures
            match step {
                BuildStep::Connect(endpoint) => self.makes(server@, Ok(endpoint)),
                BuildStep::Done(Err(error)) => self.makes(server@, Err(error)),
                _ => false,
            },
    {
        match self.endpoint(server) {
            Ok(endpoint) => BuildStep::Connect(endpoint),
            Err(error) => BuildStep::Done(Err(error)),
        }
    }

    /// Whether `step` is what follows on the outcome of connecting.
    pub open spec fn follows_connect(
        self,
        outcome: Result<Channel, tonic::transport::Error>,
        step: BuildStep,
    ) -> bool {
        match outcome {
            Err(error) => step matches BuildStep::Done(Err(failure)) && failure.is_connection(
                transport_error_display(error),
            ),
            Ok(connected) => if self.google_default {
                step matches BuildStep::LoadCredentials { channel, loader } && channel == connected
                    && credentials_scopes(loader) == Some(seq![GOOGLE_DEFAULT_SCOPE@])
                    && credentials_nothing_else(loader)
            } else {
                step matches BuildStep::Done(Ok(transport)) && transport.channel == connected
                    && transport.creds is None
            },
        }
    }

    /// The step after connecting: without `google_default` the transport is
    /// there, with it credentials have to be loaded.
    pub fn connected(
        &self,
        outcome: Result<Channel, tonic::transport::Error>,
    ) -> (step: BuildStep)
        ensures
            self.follows_connect(outcome, step),
    {
        match outcome {
            Err(error) => BuildStep::Done(Err(Error::from_transport(error))),
            Ok(channel) => if self.google_default {
                let loader = credentials_builder_with_scope(
                    credentials_builder_default(),
                    GOOGLE_DEFAULT_SCOPE,
                );
                BuildStep::LoadCredentials { channel, loader }
            } else {
                BuildStep::Done(Ok(TonicTransport::from_channel(channel)))
            },
        }
    }

    /// Whether `res` is what follows on the outcome of loading credentials for
    /// a connection.
    pub open spec fn follows_credentials(
        channel: Channel,
        outcome: Result<AccessTokenCredentials, google_cloud_auth::build_errors::Error>,
        res: Result<TonicTransport, Error>,
    ) -> bool {
        match outcome {
            Err(error) => res matches Err(failure) && failure.is_connection(
                "google_default credentials: "@ + build_error_display(error),
            ),
            Ok(credentials) => res matches Ok(transport) && transport.channel == channel
                && (transport.creds matches Some(shared) && *shared == credentials),
        }
    }

    /// The transport over a connection, once its credentials are loaded.
    pub fn credentials_loaded(
        channel: Channel,
        outcome: Result<AccessTokenCredentials, google_cloud_auth::build_errors::Error>,
    ) -> (res: Result<TonicTransport, Error>)
        ensures
            Self::follows_credentials(channel, outcome, res),
    {
        match outcome {
            Err(error) => {
                let text = build_error_text(&error);
                Err(
                    Error::Connection(
                        "google_default credentials: ".to_owned().concat(text.as_str()),
                    ),
                )
            },
            Ok(credentials) => Ok(
                TonicTransport { channel, creds: Some(Arc::new(credentials)) },
            ),
        }
    }
}

} // verus!
