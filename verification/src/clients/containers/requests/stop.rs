//! The request that stops a container.

use crate::clients::containers::container_path;
use crate::clients::containers::requests::start::{timed_request, wait_text};
use crate::http_client::request::{form_pairs, fresh, present_one, RequestBuilder, Staged};
use crate::http_client::{HttpClient, Method};
use vstd::prelude::*;

verus! {

/// Builder of the request that stops a container.
pub struct Builder<'a> {
    http_client: &'a HttpClient,
    id: &'a str,
    t: Option<u64>,
}

impl<'a> Builder<'a> {
    /// The client that the request goes through.
    pub closed spec fn client(&self) -> HttpClient {
        *self.http_client
    }

    /// The id of the container.
    pub closed spec fn container(&self) -> Seq<char> {
        self.id@
    }

    /// The seconds to wait, if a wait was chosen.
    pub closed spec fn timeout(&self) -> Option<u64> {
        self.t
    }

    /// A builder for the request that stops the container `id` at once.
    pub fn new(http_client: &'a HttpClient, id: &'a str) -> (builder: Builder<'a>)
        ensures
            builder.client() == *http_client,
            builder.container() == id@,
            builder.timeout() is None,
    {
        Builder { http_client, id, t: None }
    }

    /// Chooses the time to wait before the container is killed, in whole
    /// seconds.
    pub fn wait(self, seconds: u64) -> (builder: Builder<'a>)
        ensures
            builder.client() == self.client(),
            builder.container() == self.container(),
            builder.timeout() == Some(seconds),
    {
        let mut builder = self;
        builder.t = Some(seconds);
        builder
    }

    /// The request. Its query names the wait if one was chosen and is empty
    /// if none was.
    pub fn send(self) -> (request: RequestBuilder<'a>)
        ensures
            request@ == (Staged {
                method: Method::Post,
                query: Some(form_pairs(present_one("t"@, wait_text(self.timeout())))),
                ..fresh(self.client(), container_path(self.container(), "/stop"@))
            }),
    {
        timed_request(self.http_client, self.id, "/stop", self.t)
    }
}

} // verus!
