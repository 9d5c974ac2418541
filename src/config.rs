//! The saved client configuration.

use vstd::prelude::*;

verus! {

/// Name of the file that holds the saved configuration.
pub const CONFIG_FILE_NAME: &'static str = "pocket-relay-client.json";

/// The saved configuration: the connection URL last used.
#[derive(Debug, Clone)]
pub struct ClientConfig {
    /// The saved connection URL
    pub connection_url: String,
}

impl ClientConfig {
    /// A configuration that saves `connection_url`.
    pub fn new(connection_url: String) -> (r: ClientConfig)
        ensures
            r.connection_url@ == connection_url@,
    {
        ClientConfig { connection_url }
    }
}

} // verus!
