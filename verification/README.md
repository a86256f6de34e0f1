# xds_transport

A verified transport for xDS clients over tonic. Messages are raw bytes; the
xDS client layer serializes them.

- `src/` is the library, verified with Verus. It decides what to dial, with
  which TLS settings and credentials, what a stream sends first and what comes
  of each outcome. `src/outside.rs` holds everything that is believed of other
  crates without proof; `src/laws.rs` states what holds of the transport as a
  whole.
- `app/` awaits the network around the library: it connects, loads credentials,
  fetches tokens, makes the call and implements tonic's codec traits.
- `tests/` runs the library against the real crates.

Opening a stream:

1. `TonicTransportBuilder::start_build` gives the endpoint to connect to.
2. `TonicTransportBuilder::connected` gives the transport or, under
   `google_default`, asks for credentials, which go to `credentials_loaded`.
3. `TonicTransport::start_stream` gives the call to make or asks for an access
   token first, which goes to `PendingStream::authorize`.
4. `TonicTransport::opened` gives the stream.

Sending on it: `TonicAdsStream::start_send` gives the request to hand to the
channel, and the outcome goes to `TonicAdsStream::sent`. Responses go to
`TonicAdsStream::received`.
