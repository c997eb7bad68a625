//! Volumes.

use crate::clients::share;
use crate::http_client::request::{fresh, RequestBuilder, Staged};
use crate::http_client::{HttpClient, Method};
use std::sync::Arc;
use vstd::prelude::*;
use vstd::string::StringExecFns;

pub mod requests;

pub use requests::create::Builder as Create;

verus! {

/// Interface for the daemon's volumes.
pub struct Volumes {
    http_client: Arc<HttpClient>,
}

impl Volumes {
    /// The client that requests go through.
    pub closed spec fn client(&self) -> HttpClient {
        *self.http_client
    }

    /// An interface to the volumes of the daemon behind `http_client`.
    pub fn new(http_client: Arc<HttpClient>) -> (volumes: Volumes)
        ensures
            volumes.client() == *http_client,
    {
        Volumes { http_client }
    }

    /// A builder for the request that creates a volume.
    pub fn create(&self) -> (builder: Create<'_>)
        ensures
            builder.client() == self.client(),
            builder.chosen_name() is None,
            builder.labels() == Map::<Seq<char>, Seq<char>>::empty(),
    {
        Create::new(&self.http_client)
    }

    /// The request that lists the volumes.
    pub fn list(&self) -> (request: RequestBuilder<'_>)
        ensures
            request@ == fresh(self.client(), "/volumes"@),
    {
        self.http_client.get("/volumes")
    }

    /// The operations on the volume `name`.
    pub fn get<'a>(&self, name: &'a str) -> (volume: Volume<'a>)
        ensures
            volume.client() == self.client(),
            volume.name() == name@,
    {
        Volume::new(share(&self.http_client), name)
    }
}

/// Interface for one named volume.
pub struct Volume<'a> {
    http_client: Arc<HttpClient>,
    name: &'a str,
}

impl<'a> Volume<'a> {
    /// The client that requests go through.
    pub closed spec fn client(&self) -> HttpClient {
        *self.http_client
    }

    /// The volume's name.
    pub closed spec fn name(&self) -> Seq<char> {
        self.name@
    }

    /// The operations on the volume `name` of the daemon behind
    /// `http_client`.
    pub fn new(http_client: Arc<HttpClient>, name: &'a str) -> (volume: Volume<'a>)
        ensures
            volume.client() == *http_client,
            volume.name() == name@,
    {
        Volume { http_client, name }
    }

    /// The request that deletes the volume.
    pub fn delete(&self) -> (request: RequestBuilder<'_>)
        ensures
            request@ == (Staged {
                method: Method::Delete,
                ..fresh(self.client(), "/volumes/"@ + self.name())
            }),
    {
        let path = String::from_str("/volumes/").concat(self.name);
        self.http_client.delete(path.as_str())
    }
}

} // verus!
