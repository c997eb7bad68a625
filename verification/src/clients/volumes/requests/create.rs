//! The request that creates a volume.

use crate::http_client::request::{fresh, RequestBuilder, Staged};
use crate::http_client::{Body, BodyKind, HttpClient, Method};
use crate::options::Labels;
use vstd::prelude::*;

verus! {

/// The driver that stores a volume.
#[derive(Debug, Clone, Copy, PartialEq, Eq, Structural)]
pub enum Driver {
    Local,
}

/// Builder of the request that creates a volume.
pub struct Builder<'a> {
    http_client: &'a HttpClient,
    name: Option<&'a str>,
    driver: Option<Driver>,
    driver_opts: Labels,
    labels: Labels,
}

impl<'a> Builder<'a> {
    /// The client that the request goes through.
    pub closed spec fn client(&self) -> HttpClient {
        *self.http_client
    }

    /// The name chosen for the volume, if any.
    pub closed spec fn chosen_name(&self) -> Option<Seq<char>> {
        match self.name {
            Some(name) => Some(name@),
            None => None,
        }
    }

    /// The labels chosen for the volume.
    pub closed spec fn labels(&self) -> Map<Seq<char>, Seq<char>> {
        self.labels@
    }

    /// A builder that leaves everything to the daemon.
    pub fn new(http_client: &'a HttpClient) -> (builder: Builder<'a>)
        ensures
            builder.client() == *http_client,
            builder.chosen_name() is None,
            builder.labels() == Map::<Seq<char>, Seq<char>>::empty(),
    {
        Builder {
            http_client,
            name: None,
            driver: None,
            driver_opts: Labels::new(),
            labels: Labels::new(),
        }
    }

    /// Sets the name of the volume.
    pub fn name(self, name: &'a str) -> (builder: Builder<'a>)
        ensures
            builder.client() == self.client(),
            builder.chosen_name() == Some(name@),
            builder.labels() == self.labels(),
    {
        let mut builder = self;
        builder.name = Some(name);
        builder
    }

    /// Sets the label `key` to `value`.
    pub fn label(self, key: &'a str, value: &'a str) -> (builder: Builder<'a>)
        ensures
            builder.client() == self.client(),
            builder.chosen_name() == self.chosen_name(),
            builder.labels() == self.labels().insert(key@, value@),
    {
        let mut builder = self;
        builder.labels = builder.labels.insert(key, value);
        builder
    }

    /// The labels as applied so far, for whoever writes the request's body.
    pub fn label_entries(&self) -> (labels: &Labels)
        ensures
            labels@ == self.labels(),
    {
        &self.labels
    }

    /// The request that creates the volume, given the builder's choices
    /// written as JSON.
    pub fn send(self, body: Vec<u8>) -> (request: RequestBuilder<'a>)
        ensures
            request@ == (Staged {
                method: Method::Post,
                body: Some(Body { kind: BodyKind::Json, data: body@ }),
                ..fresh(self.client(), "/volumes/create"@)
            }),
    {
        self.http_client.post("/volumes/create").json_body(body)
    }
}

} // verus!
