//! Networks.

use crate::clients::{opt_str_view, path_with_query, share, with_query};
use crate::http_client::request::{fresh, RequestBuilder, Staged};
use crate::http_client::{Body, BodyKind, HttpClient, Method};
use std::sync::Arc;
use vstd::prelude::*;
use vstd::string::StringExecFns;

verus! {

/// Interface for the daemon's networks.
pub struct Networks {
    http_client: Arc<HttpClient>,
}

impl Networks {
    /// The client that requests go through.
    pub closed spec fn client(&self) -> HttpClient {
        *self.http_client
    }

    /// An interface to the networks of the daemon behind `http_client`.
    pub fn new(http_client: Arc<HttpClient>) -> (networks: Networks)
        ensures
            networks.client() == *http_client,
    {
        Networks { http_client }
    }

    /// The request that lists the networks, narrowed by a query that was
    /// written out beforehand, if one is given.
    pub fn list(&self, query: Option<&str>) -> (request: RequestBuilder<'_>)
        ensures
            request@ == fresh(self.client(), path_with_query("/networks"@, opt_str_view(query))),
    {
        let path = with_query(String::from_str("/networks"), query);
        self.http_client.get(path.as_str())
    }

    /// The operations on the network `id`.
    pub fn get<'a>(&self, id: &'a str) -> (network: Network<'a>)
        ensures
            network.client() == self.client(),
            network.name() == id@,
    {
        Network::new(share(&self.http_client), id)
    }

    /// The request that creates a network from options written as JSON.
    pub fn create(&self, options: Vec<u8>) -> (request: RequestBuilder<'_>)
        ensures
            request@ == (Staged {
                method: Method::Post,
                body: Some(Body { kind: BodyKind::Json, data: options@ }),
                ..fresh(self.client(), "/networks/create"@)
            }),
    {
        self.http_client.post("/networks/create").json_body(options)
    }
}

/// Interface for one network.
pub struct Network<'a> {
    http_client: Arc<HttpClient>,
    id: &'a str,
}

impl<'a> Network<'a> {
    /// The client that requests go through.
    pub closed spec fn client(&self) -> HttpClient {
        *self.http_client
    }

    /// The network's id.
    pub closed spec fn name(&self) -> Seq<char> {
        self.id@
    }

    /// The operations on the network `id` of the daemon behind
    /// `http_client`.
    pub fn new(http_client: Arc<HttpClient>, id: &'a str) -> (network: Network<'a>)
        ensures
            network.client() == *http_client,
            network.name() == id@,
    {
        Network { http_client, id }
    }

    /// The network's id.
    pub fn id(&self) -> (id: &str)
        ensures
            id@ == self.name(),
    {
        self.id
    }

    /// The request for the network's details.
    pub fn inspect(&self) -> (request: RequestBuilder<'_>)
        ensures
            request@ == fresh(self.client(), "/networks/"@ + self.name()),
    {
        let path = String::from_str("/networks/").concat(self.id);
        self.http_client.get(path.as_str())
    }

    /// The request that deletes the network.
    pub fn delete(&self) -> (request: RequestBuilder<'_>)
        ensures
            request@ == (Staged {
                method: Method::Delete,
                ..fresh(self.client(), "/networks/"@ + self.name())
            }),
    {
        let path = String::from_str("/networks/").concat(self.id);
        self.http_client.delete(path.as_str())
    }
}

/// The path of something that is done to the network `id`.
pub open spec fn network_path(id: Seq<char>, segment: Seq<char>) -> Seq<char> {
    "/networks/"@ + id + "/"@ + segment
}

impl<'a> Network<'a> {
    /// The request that connects a container to the network, from options
    /// written as JSON.
    pub fn connect(&self, options: Vec<u8>) -> (request: RequestBuilder<'_>)
        ensures
            request@ == (Staged {
                method: Method::Post,
                body: Some(Body { kind: BodyKind::Json, data: options@ }),
                ..fresh(self.client(), network_path(self.name(), "connect"@))
            }),
    {
        self.do_connection("connect", options)
    }

    /// The request that disconnects a container from the network, from
    /// options written as JSON.
    pub fn disconnect(&self, options: Vec<u8>) -> (request: RequestBuilder<'_>)
        ensures
            request@ == (Staged {
                method: Method::Post,
                body: Some(Body { kind: BodyKind::Json, data: options@ }),
                ..fresh(self.client(), network_path(self.name(), "disconnect"@))
            }),
    {
        self.do_connection("disconnect", options)
    }

    fn do_connection(&self, segment: &str, options: Vec<u8>) -> (request: RequestBuilder<'_>)
        ensures
            request@ == (Staged {
                method: Method::Post,
                body: Some(Body { kind: BodyKind::Json, data: options@ }),
                ..fresh(self.client(), network_path(self.name(), segment@))
            }),
    {
        let path = String::from_str("/networks/").concat(self.id).concat("/").concat(segment);
        self.http_client.post(path.as_str()).json_body(options)
    }
}

} // verus!
