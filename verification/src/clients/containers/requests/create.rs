//! The request that creates a container.

use crate::http_client::HttpClient;
use vstd::prelude::*;

verus! {

/// Builder of the request that creates a container.
pub struct Builder<'a> {
    http_client: &'a HttpClient,
}

impl<'a> Builder<'a> {
    /// The client that the request goes through.
    pub closed spec fn client(&self) -> HttpClient {
        *self.http_client
    }

    /// A builder for a request through `http_client`.
    pub fn new(http_client: &'a HttpClient) -> (builder: Builder<'a>)
        ensures
            builder.client() == *http_client,
    {
        Builder { http_client }
    }
}

} // verus!
