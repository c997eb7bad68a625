//! The requests on images that are built up step by step.

use crate::http_client::HttpClient;
use vstd::prelude::*;

verus! {

/// Builder of the request that builds an image from a directory.
pub struct Build<'a> {
    http_client: &'a HttpClient,
    path: &'a str,
}

impl<'a> Build<'a> {
    /// The client that the request goes through.
    pub closed spec fn client(&self) -> HttpClient {
        *self.http_client
    }

    /// The directory that the image is built from.
    pub closed spec fn directory(&self) -> Seq<char> {
        self.path@
    }

    /// A builder for the request that builds an image from the directory at
    /// `path`.
    pub fn new(http_client: &'a HttpClient, path: &'a str) -> (builder: Build<'a>)
        ensures
            builder.client() == *http_client,
            builder.directory() == path@,
    {
        Build { http_client, path }
    }

    /// The directory that the image is built from.
    pub fn path(&self) -> (path: &'a str)
        ensures
            path@ == self.directory(),
    {
        self.path
    }
}

} // verus!
