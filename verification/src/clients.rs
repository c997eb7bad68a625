//! Clients for the daemon's resources. Each of them stages the requests of
//! its resource; sending them is up to the caller's runtime.

use crate::http_client::HttpClient;
use std::sync::Arc;
use vstd::prelude::*;
use vstd::string::StringExecFns;

pub mod containers;
pub mod docker;
pub mod images;
pub mod networks;
pub mod volumes;

pub use containers::{Container, Containers};
pub use docker::Docker;
pub use images::{Image, Images};
pub use networks::{Network, Networks};
pub use volumes::{Volume, Volumes};

verus! {

/// `Arc::clone`: another handle on the same shared client.
#[verifier::external_body]
pub(crate) fn share(http_client: &Arc<HttpClient>) -> (shared: Arc<HttpClient>)
    ensures
        *shared == **http_client,
{
    Arc::clone(http_client)
}

/// The view of an optional string slice.
pub open spec fn opt_str_view(text: Option<&str>) -> Option<Seq<char>> {
    match text {
        Some(text) => Some(text@),
        None => None,
    }
}

/// A path, followed by `?` and a query that was written out beforehand, if
/// there is one.
pub open spec fn path_with_query(path: Seq<char>, query: Option<Seq<char>>) -> Seq<char> {
    match query {
        Some(query) => path + "?"@ + query,
        None => path,
    }
}

/// Puts a query that was written out beforehand behind a path.
pub fn with_query(path: String, query: Option<&str>) -> (full: String)
    ensures
        full@ == path_with_query(path@, opt_str_view(query)),
{
    match query {
        Some(query) => path.concat("?").concat(query),
        None => path,
    }
}

} // verus!
