//! Images.

use crate::clients::{opt_str_view, path_with_query, share, with_query};
use crate::http_client::request::{form_pairs, fresh, single_field, RequestBuilder, Staged};
use crate::http_client::{Body, BodyKind, HttpClient, Method};
use std::sync::Arc;
use vstd::prelude::*;
use vstd::string::StringExecFns;

pub mod requests;

verus! {

/// Names joined by commas.
pub open spec fn comma_joined(names: Seq<String>) -> Seq<char>
    decreases names.len(),
{
    if names.len() == 0 {
        Seq::empty()
    } else if names.len() == 1 {
        names[0]@
    } else {
        comma_joined(names.drop_last()) + ","@ + names.last()@
    }
}

fn join_with_commas(names: &Vec<String>) -> (joined: String)
    ensures
        joined@ == comma_joined(names@),
{
    let mut joined = String::new();
    let mut i: usize = 0;
    while i < names.len()
        invariant
            i <= names.len(),
            joined@ == comma_joined(names@.subrange(0, i as int)),
        decreases names.len() - i,
    {
        assert(names@.subrange(0, i + 1).drop_last() =~= names@.subrange(0, i as int));
        if i > 0 {
            joined.append(",");
        }
        joined.append(names[i].as_str());
        i = i + 1;
    }
    assert(names@.subrange(0, i as int) =~= names@);
    joined
}

/// Interface for the daemon's images.
pub struct Images {
    http_client: Arc<HttpClient>,
}

impl Images {
    /// The client that requests go through.
    pub closed spec fn client(&self) -> HttpClient {
        *self.http_client
    }

    /// An interface to the images of the daemon behind `http_client`.
    pub fn new(http_client: Arc<HttpClient>) -> (images: Images)
        ensures
            images.client() == *http_client,
    {
        Images { http_client }
    }

    /// A builder for the request that builds an image from the directory
    /// at `path`.
    pub fn build<'a>(&'a self, path: &'a str) -> (builder: requests::Build<'a>)
        ensures
            builder.client() == self.client(),
            builder.directory() == path@,
    {
        requests::Build::new(&self.http_client, path)
    }

    /// The request that lists the images, narrowed by a query that was
    /// written out beforehand, if one is given.
    pub fn list(&self, query: Option<&str>) -> (request: RequestBuilder<'_>)
        ensures
            request@ == fresh(
                self.client(),
                path_with_query("/images/json"@, opt_str_view(query)),
            ),
    {
        let path = with_query(String::from_str("/images/json"), query);
        self.http_client.get(path.as_str())
    }

    /// The operations on the image `name`.
    pub fn get<'a>(&self, name: &'a str) -> (image: Image<'a>)
        ensures
            image.client() == self.client(),
            image.label() == name@,
    {
        Image::new(share(&self.http_client), name)
    }

    /// The request that searches the registry for `term`.
    pub fn search(&self, term: &str) -> (request: RequestBuilder<'_>)
        ensures
            request@ == (Staged {
                query: Some(form_pairs(seq![("term"@, term@)])),
                ..fresh(self.client(), "/images/search"@)
            }),
    {
        let fields = single_field("term", Some(term.to_owned()));
        self.http_client.get("/images/search").query(fields)
    }

    /// The request for the named images as one tarball. An image is named
    /// by its name, by name and tag, or by its id.
    pub fn export(&self, names: Vec<String>) -> (request: RequestBuilder<'_>)
        ensures
            request@ == (Staged {
                query: Some(form_pairs(seq![("names"@, comma_joined(names@))])),
                ..fresh(self.client(), "/images/get"@)
            }),
    {
        let fields = single_field("names", Some(join_with_commas(&names)));
        self.http_client.get("/images/get").query(fields)
    }

    /// The request that loads images from a tarball.
    pub fn import(&self, tarball: Vec<u8>) -> (request: RequestBuilder<'_>)
        ensures
            request@ == (Staged {
                method: Method::Post,
                body: Some(Body { kind: BodyKind::Tar, data: tarball@ }),
                ..fresh(self.client(), "/images/load"@)
            }),
    {
        self.http_client.post("/images/load").tar_body(tarball)
    }
}

/// Interface for one named image.
pub struct Image<'a> {
    transport: Arc<HttpClient>,
    name: &'a str,
}

/// The path of something that belongs to the image `name`.
pub open spec fn image_path(name: Seq<char>, what: Seq<char>) -> Seq<char> {
    "/images/"@ + name + what
}

impl<'a> Image<'a> {
    /// The client that requests go through.
    pub closed spec fn client(&self) -> HttpClient {
        *self.transport
    }

    /// The image's name.
    pub closed spec fn label(&self) -> Seq<char> {
        self.name@
    }

    /// The operations on the image `name` of the daemon behind `transport`.
    pub fn new(transport: Arc<HttpClient>, name: &'a str) -> (image: Image<'a>)
        ensures
            image.client() == *transport,
            image.label() == name@,
    {
        Image { transport, name }
    }

    fn path(&self, what: &str) -> (path: String)
        ensures
            path@ == image_path(self.label(), what@),
    {
        String::from_str("/images/").concat(self.name).concat(what)
    }

    /// The request for the image's details.
    pub fn inspect(&self) -> (request: RequestBuilder<'_>)
        ensures
            request@ == fresh(self.client(), image_path(self.label(), "/json"@)),
    {
        self.transport.get(self.path("/json").as_str())
    }

    /// The request for the image's history.
    pub fn history(&self) -> (request: RequestBuilder<'_>)
        ensures
            request@ == fresh(self.client(), image_path(self.label(), "/history"@)),
    {
        self.transport.get(self.path("/history").as_str())
    }

    /// The request that deletes the image.
    pub fn delete(&self) -> (request: RequestBuilder<'_>)
        ensures
            request@ == (Staged {
                method: Method::Delete,
                ..fresh(self.client(), image_path(self.label(), ""@))
            }),
    {
        self.transport.delete(self.path("").as_str())
    }

    /// The request that tags the image, with the tag written out as a query
    /// beforehand, if one is given.
    pub fn tag(&self, query: Option<&str>) -> (request: RequestBuilder<'_>)
        ensures
            request@ == (Staged {
                method: Method::Post,
                ..fresh(
                    self.client(),
                    path_with_query(image_path(self.label(), "/tag"@), opt_str_view(query)),
                )
            }),
    {
        let path = with_query(self.path("/tag"), query);
        self.transport.post(path.as_str())
    }

    /// The request for the image as a tarball.
    pub fn export(&self) -> (request: RequestBuilder<'_>)
        ensures
            request@ == fresh(self.client(), image_path(self.label(), "/get"@)),
    {
        self.transport.get(self.path("/get").as_str())
    }
}

} // verus!
