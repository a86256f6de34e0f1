//! A transport for xDS clients over tonic: how ADS streams to an xDS server are
//! configured, authorized, opened and read.
//!
//! The library decides; it awaits nothing. Building a transport and opening a
//! stream are sequences of steps ([`builder::BuildStep`],
//! [`transport::StreamStep`]): each says what to do next, and the outcome goes
//! back in. Messages are raw bytes ([`codec`]), so that the xDS client layer
//! handles serialization.
//!
//! What is believed of the crates underneath stands in [`outside`]; what holds
//! of the transport as a whole is proved in [`laws`], and what each call comes
//! to in [`calls`].

pub mod address;
pub mod builder;
pub mod calls;
pub mod codec;
pub mod config;
pub mod error;
pub mod laws;
pub mod outside;
pub mod stream;
pub mod transport;

pub use builder::TonicTransportBuilder;
pub use config::ServerConfig;
pub use error::Error;
pub use stream::TonicAdsStream;
pub use transport::TonicTransport;
