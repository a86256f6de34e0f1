//! Configuration of an xDS server.

use vstd::prelude::*;

verus! {

/// An xDS server that a client can connect to. Its view is its address.
#[derive(Debug)]
pub struct ServerConfig {
    uri: String,
}

impl View for ServerConfig {
    type V = Seq<char>;

    closed spec fn view(&self) -> Seq<char> {
        self.uri@
    }
}

impl ServerConfig {
    /// The server at the given address.
    pub fn new(uri: String) -> (server: ServerConfig)
        ensures
            server@ == uri@,
    {
        ServerConfig { uri }
    }

    /// The address of the server, as it was given.
    pub fn uri(&self) -> (uri: &str)
        ensures
            uri@ == self@,
    {
        self.uri.as_str()
    }
}

} // verus!
