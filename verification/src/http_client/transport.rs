//! The three ways to reach the daemon, and the address each of them gives an
//! endpoint.

use vstd::prelude::*;

pub mod tcp;
pub mod tls;
pub mod uds;

pub use tcp::Tcp;
pub use tls::Tls;
pub use uds::Uds;

verus! {

/// What every transport knows: how to turn an endpoint path into the
/// absolute address that a request for it goes to.
pub trait Transport {
    /// The address of `endpoint` over this transport.
    spec fn address(&self, endpoint: Seq<char>) -> Seq<char>;

    /// Computes the address of `endpoint`.
    fn uri(&self, endpoint: &str) -> (uri: String)
        ensures
            uri@ == self.address(endpoint@),
    ;
}

} // verus!
