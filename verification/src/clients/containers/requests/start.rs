//! The request that starts a container.

use crate::clients::containers::container_path;
use crate::http_client::request::{
    form_pairs, fresh, present_one, single_field, RequestBuilder, Staged,
};
use crate::http_client::{HttpClient, Method};
use crate::text::{decimal, decimal_string};
use vstd::prelude::*;
use vstd::string::StringExecFns;

verus! {

/// A wait as the query writes it: its seconds in decimal.
pub open spec fn wait_text(seconds: Option<u64>) -> Option<Seq<char>> {
    match seconds {
        Some(seconds) => Some(decimal(seconds as nat)),
        None => None,
    }
}

/// The request that starts, stops or restarts the container `id`, as the
/// path segment `what` says, after a wait if one is given.
pub(crate) fn timed_request<'a>(
    http_client: &'a HttpClient,
    id: &str,
    what: &str,
    t: Option<u64>,
) -> (request: RequestBuilder<'a>)
    ensures
        request@ == (Staged {
            method: Method::Post,
            query: Some(form_pairs(present_one("t"@, wait_text(t)))),
            ..fresh(*http_client, container_path(id@, what@))
        }),
{
    let path = String::from_str("/containers/").concat(id).concat(what);
    let value = match t {
        Some(seconds) => Some(decimal_string(seconds)),
        None => None,
    };
    let fields = single_field("t", value);
    http_client.post(path.as_str()).query(fields)
}

/// Builder of the request that starts a container.
pub struct Builder<'a> {
    http_client: &'a HttpClient,
    id: &'a str,
    t: Option<u64>,
}

impl<'a> Builder<'a> {
    /// The client that the request goes through.
    pub closed spec fn client(&self) -> HttpClient {
        *self.http_client
    }

    /// The id of the container.
    pub closed spec fn container(&self) -> Seq<char> {
        self.id@
    }

    /// The seconds to wait, if a wait was chosen.
    pub closed spec fn timeout(&self) -> Option<u64> {
        self.t
    }

    /// A builder for the request that starts the container `id` at once.
    pub fn new(http_client: &'a HttpClient, id: &'a str) -> (builder: Builder<'a>)
        ensures
            builder.client() == *http_client,
            builder.container() == id@,
            builder.timeout() is None,
    {
        Builder { http_client, id, t: None }
    }

    /// Chooses the time to wait, in whole seconds.
    pub fn wait(self, seconds: u64) -> (builder: Builder<'a>)
        ensures
            builder.client() == self.client(),
            builder.container() == self.container(),
            builder.timeout() == Some(seconds),
    {
        let mut builder = self;
        builder.t = Some(seconds);
        builder
    }

    /// The request. Its query names the wait if one was chosen and is empty
    /// if none was.
    pub fn send(self) -> (request: RequestBuilder<'a>)
        ensures
            request@ == (Staged {
                method: Method::Post,
                query: Some(form_pairs(present_one("t"@, wait_text(self.timeout())))),
                ..fresh(self.client(), container_path(self.container(), "/start"@))
            }),
    {
        timed_request(self.http_client, self.id, "/start", self.t)
    }
}

} // verus!
