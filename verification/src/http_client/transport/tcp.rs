//! Plain TCP.

use super::Transport;
use vstd::prelude::*;
use vstd::string::StringExecFns;

verus! {

/// A daemon listening on a TCP host, addressed as `scheme://host:port`.
#[derive(Debug, Clone)]
pub struct Tcp {
    host: String,
}

impl Tcp {
    /// A transport to the daemon at `host`.
    pub fn new(host: &str) -> (transport: Tcp)
        ensures
            transport.host() == host@,
    {
        Tcp { host: host.to_owned() }
    }

    /// The host that requests go to.
    pub closed spec fn host(&self) -> Seq<char> {
        self.host@
    }
}

impl Transport for Tcp {
    open spec fn address(&self, endpoint: Seq<char>) -> Seq<char> {
        self.host() + endpoint
    }

    fn uri(&self, endpoint: &str) -> (uri: String) {
        self.host.clone().concat(endpoint)
    }
}

} // verus!
