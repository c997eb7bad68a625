//! The request that kills a container.

use crate::clients::containers::container_path;
use crate::http_client::request::{
    form_pairs, fresh, present_one, single_field, RequestBuilder, Staged,
};
use crate::http_client::{HttpClient, Method};
use crate::text::opt_view;
use vstd::prelude::*;
use vstd::string::StringExecFns;

verus! {

/// Builder of the request that kills a container.
pub struct Builder<'a> {
    http_client: &'a HttpClient,
    id: &'a str,
    signal: Option<String>,
}

impl<'a> Builder<'a> {
    /// The client that the request goes through.
    pub closed spec fn client(&self) -> HttpClient {
        *self.http_client
    }

    /// The id of the container.
    pub closed spec fn container(&self) -> Seq<char> {
        self.id@
    }

    /// The signal to send, if one was chosen.
    pub closed spec fn chosen_signal(&self) -> Option<Seq<char>> {
        opt_view(self.signal)
    }

    /// A builder for the request that kills the container `id`, with the
    /// signal left to the daemon.
    pub fn new(http_client: &'a HttpClient, id: &'a str) -> (builder: Builder<'a>)
        ensures
            builder.client() == *http_client,
            builder.container() == id@,
            builder.chosen_signal() is None,
    {
        Builder { http_client, id, signal: None }
    }

    /// Chooses the signal to send.
    pub fn signal(self, signal: String) -> (builder: Builder<'a>)
        ensures
            builder.client() == self.client(),
            builder.container() == self.container(),
            builder.chosen_signal() == Some(signal@),
    {
        let mut builder = self;
        builder.signal = Some(signal);
        builder
    }

    /// The request. Its query names the signal if one was chosen and is
    /// empty if none was.
    pub fn send(self) -> (request: RequestBuilder<'a>)
        ensures
            request@ == (Staged {
                method: Method::Post,
                query: Some(form_pairs(present_one("signal"@, self.chosen_signal()))),
                ..fresh(self.client(), container_path(self.container(), "/kill"@))
            }),
    {
        let path = String::from_str("/containers/").concat(self.id).concat("/kill");
        let fields = single_field("signal", self.signal);
        self.http_client.post(path.as_str()).query(fields)
    }
}

} // verus!
