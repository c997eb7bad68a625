//! The client that requests go through: a transport picked once, and the
//! staged request builder on top of it.

use crate::http_client::request::RequestBuilder;
use crate::http_client::transport::{Tcp, Tls, Transport, Uds};
use vstd::prelude::*;
use vstd::string::StringExecFns;

pub mod compat;
pub mod request;
pub mod response;
pub mod transport;

verus! {

/// The method of a request.
#[derive(Debug, Clone, Copy, PartialEq, Eq, Structural)]
pub enum Method {
    Get,
    Post,
    Put,
    Delete,
    Head,
    Options,
    Patch,
}

impl Method {
    /// The method's name on the wire.
    pub open spec fn name(self) -> Seq<char> {
        match self {
            Method::Get => "GET"@,
            Method::Post => "POST"@,
            Method::Put => "PUT"@,
            Method::Delete => "DELETE"@,
            Method::Head => "HEAD"@,
            Method::Options => "OPTIONS"@,
            Method::Patch => "PATCH"@,
        }
    }

    /// The method's name on the wire.
    pub fn as_str(&self) -> (name: &'static str)
        ensures
            name@ == self.name(),
    {
        match self {
            Method::Get => "GET",
            Method::Post => "POST",
            Method::Put => "PUT",
            Method::Delete => "DELETE",
            Method::Head => "HEAD",
            Method::Options => "OPTIONS",
            Method::Patch => "PATCH",
        }
    }
}

/// The two kinds of payload a request can carry.
#[derive(Debug, Clone, Copy, PartialEq, Eq, Structural)]
pub enum BodyKind {
    Json,
    Tar,
}

impl BodyKind {
    /// The content type that announces a payload of this kind.
    pub open spec fn mime(self) -> Seq<char> {
        match self {
            BodyKind::Json => "application/json"@,
            BodyKind::Tar => "application/x-tar"@,
        }
    }
}

/// A payload as a mathematical value: its kind and its bytes.
pub struct Body {
    pub kind: BodyKind,
    pub data: Seq<u8>,
}

/// The payload of a request, tagged with what it is.
#[derive(Debug, Clone)]
pub enum BodyType {
    Json(Vec<u8>),
    Tar(Vec<u8>),
}

impl View for BodyType {
    type V = Body;

    open spec fn view(&self) -> Body {
        match *self {
            BodyType::Json(data) => Body { kind: BodyKind::Json, data: data@ },
            BodyType::Tar(data) => Body { kind: BodyKind::Tar, data: data@ },
        }
    }
}

/// `mime::APPLICATION_JSON`, written out: the media type of JSON.
#[verifier::external_body]
fn application_json() -> (s: String)
    ensures
        s@ == "application/json"@,
{
    mime::APPLICATION_JSON.to_string()
}

impl BodyType {
    /// A payload of JSON text.
    pub fn json(data: Vec<u8>) -> (body: BodyType)
        ensures
            body@ == (Body { kind: BodyKind::Json, data: data@ }),
    {
        BodyType::Json(data)
    }

    /// A payload that is a tar archive.
    pub fn tar(data: Vec<u8>) -> (body: BodyType)
        ensures
            body@ == (Body { kind: BodyKind::Tar, data: data@ }),
    {
        BodyType::Tar(data)
    }

    /// What the payload is.
    pub fn kind(&self) -> (kind: BodyKind)
        ensures
            kind == self@.kind,
    {
        match self {
            BodyType::Json(_) => BodyKind::Json,
            BodyType::Tar(_) => BodyKind::Tar,
        }
    }

    /// The content type that announces this payload.
    pub fn mime(&self) -> (mime: String)
        ensures
            mime@ == self@.kind.mime(),
    {
        match self {
            BodyType::Json(_) => application_json(),
            BodyType::Tar(_) => String::from_str("application/x-tar"),
        }
    }

    /// The bytes of the payload.
    pub fn into_data(self) -> (data: Vec<u8>)
        ensures
            data@ == self@.data,
    {
        match self {
            BodyType::Json(data) => data,
            BodyType::Tar(data) => data,
        }
    }
}

/// The two content types never coincide, so a content type tells the kind
/// of the payload it announces.
pub proof fn mime_tells_kind(a: BodyKind, b: BodyKind)
    ensures
        a.mime() == b.mime() <==> a == b,
{
    reveal_strlit("application/json");
    reveal_strlit("application/x-tar");
    assert("application/json"@.len() != "application/x-tar"@.len());
}

/// A client bound to one transport. The transport is picked when the client
/// is made and never changes afterwards.
#[derive(Debug, Clone)]
pub enum HttpClient {
    Tcp(Tcp),
    Tls(Tls),
    Uds(Uds),
}

impl HttpClient {
    /// A client that talks plain TCP to `host`.
    pub fn tcp(host: &str) -> (client: HttpClient)
        ensures
            client matches HttpClient::Tcp(transport) && transport.host() == host@,
    {
        HttpClient::Tcp(Tcp::new(host))
    }

    /// A client that talks to the Unix domain socket at `path`.
    pub fn unix(path: &str) -> (client: HttpClient)
        ensures
            client matches HttpClient::Uds(transport) && transport.path() == path@,
    {
        HttpClient::Uds(Uds::new(path))
    }

    /// A client that talks TLS to `host`.
    pub fn tls(host: &str) -> (client: HttpClient)
        ensures
            client matches HttpClient::Tls(transport) && transport.host() == host@,
    {
        HttpClient::Tls(Tls::new(host))
    }

    /// The address of `endpoint` over this client's transport.
    pub open spec fn address(&self, endpoint: Seq<char>) -> Seq<char> {
        match *self {
            HttpClient::Tcp(transport) => transport.address(endpoint),
            HttpClient::Tls(transport) => transport.address(endpoint),
            HttpClient::Uds(transport) => transport.address(endpoint),
        }
    }

    /// Computes the address of `endpoint`.
    pub fn uri(&self, endpoint: &str) -> (uri: String)
        ensures
            uri@ == self.address(endpoint@),
    {
        match self {
            HttpClient::Tcp(transport) => transport.uri(endpoint),
            HttpClient::Tls(transport) => transport.uri(endpoint),
            HttpClient::Uds(transport) => transport.uri(endpoint),
        }
    }

    /// Starts a request for `endpoint`. Its method is GET until another is
    /// set.
    pub fn request<'a>(&'a self, endpoint: &str) -> (builder: RequestBuilder<'a>)
        ensures
            builder@ == request::fresh(*self, endpoint@),
    {
        RequestBuilder::new(self, endpoint)
    }

    /// Starts a GET request for `endpoint`.
    pub fn get<'a>(&'a self, endpoint: &str) -> (builder: RequestBuilder<'a>)
        ensures
            builder@ == request::fresh(*self, endpoint@),
    {
        RequestBuilder::new(self, endpoint).method(Method::Get)
    }

    /// Starts a POST request for `endpoint`.
    pub fn post<'a>(&'a self, endpoint: &str) -> (builder: RequestBuilder<'a>)
        ensures
            builder@ == (request::Staged { method: Method::Post, ..request::fresh(*self, endpoint@) }),
    {
        RequestBuilder::new(self, endpoint).method(Method::Post)
    }

    /// Starts a PUT request for `endpoint`.
    pub fn put<'a>(&'a self, endpoint: &str) -> (builder: RequestBuilder<'a>)
        ensures
            builder@ == (request::Staged { method: Method::Put, ..request::fresh(*self, endpoint@) }),
    {
        RequestBuilder::new(self, endpoint).method(Method::Put)
    }

    /// Starts a DELETE request for `endpoint`.
    pub fn delete<'a>(&'a self, endpoint: &str) -> (builder: RequestBuilder<'a>)
        ensures
            builder@ == (request::Staged {
                method: Method::Delete,
                ..request::fresh(*self, endpoint@)
            }),
    {
        RequestBuilder::new(self, endpoint).method(Method::Delete)
    }
}

} // verus!
