//! The entry point: a daemon, reached over one transport.

use crate::clients::{opt_str_view, path_with_query, share, with_query};
use crate::clients::{Containers, Images, Networks, Volumes};
use crate::http_client::request::{fresh, RequestBuilder};
use crate::http_client::HttpClient;
use crate::text::{decimal, decimal_string};
use std::sync::Arc;
use vstd::prelude::*;
use vstd::string::StringExecFns;

verus! {

/// The parts of a daemon's URL that decide how it is reached.
#[derive(Debug, Clone)]
pub struct HostUrl {
    pub scheme: String,
    pub host: String,
    pub port: Option<u16>,
    pub path: String,
}

/// The address that TCP and TLS transports are given for a daemon's URL:
/// scheme, host and port, the port being 80 where the URL names none.
pub open spec fn tcp_host(scheme: Seq<char>, host: Seq<char>, port: Option<u16>) -> Seq<char> {
    scheme + "://"@ + host + ":"@ + decimal(
        match port {
            Some(port) => port as nat,
            None => 80,
        },
    )
}

/// Entrypoint interface for communicating with a daemon.
#[derive(Clone)]
pub struct Docker {
    http_client: Arc<HttpClient>,
}

impl Docker {
    /// The client that this daemon is reached through.
    pub closed spec fn client(&self) -> HttpClient {
        *self.http_client
    }

    /// The client that this daemon is reached through.
    pub fn http_client(&self) -> (http_client: &HttpClient)
        ensures
            *http_client == self.client(),
    {
        &self.http_client
    }

    /// A daemon listening on the Unix socket at `socket_path`.
    pub fn unix(socket_path: &str) -> (docker: Docker)
        ensures
            docker.client() matches HttpClient::Uds(transport) && transport.path()
                == socket_path@,
    {
        Docker { http_client: Arc::new(HttpClient::unix(socket_path)) }
    }

    /// A daemon listening on the TCP host `host`.
    pub fn tcp(host: &str) -> (docker: Docker)
        ensures
            docker.client() matches HttpClient::Tcp(transport) && transport.host() == host@,
    {
        Docker { http_client: Arc::new(HttpClient::tcp(host)) }
    }

    /// A daemon listening behind TLS on the host `host`.
    pub fn tls(host: &str) -> (docker: Docker)
        ensures
            docker.client() matches HttpClient::Tls(transport) && transport.host() == host@,
    {
        Docker { http_client: Arc::new(HttpClient::tls(host)) }
    }

    /// A daemon at the given URL. A URL of the scheme `unix` names a socket
    /// by its path. Any other names a host, which is reached over TLS if
    /// `tls` is set and over plain TCP if not.
    pub fn host(url: &HostUrl, tls: bool) -> (docker: Docker)
        ensures
            match docker.client() {
                HttpClient::Uds(transport) => url.scheme@ == "unix"@ && transport.path()
                    == url.path@,
                HttpClient::Tls(transport) => url.scheme@ != "unix"@ && tls && transport.host()
                    == tcp_host(url.scheme@, url.host@, url.port),
                HttpClient::Tcp(transport) => url.scheme@ != "unix"@ && !tls && transport.host()
                    == tcp_host(url.scheme@, url.host@, url.port),
            },
    {
        if url.scheme == String::from_str("unix") {
            return Docker::unix(url.path.as_str());
        }
        let port: u16 = match url.port {
            Some(port) => port,
            None => 80,
        };
        let tcp_host_str = url.scheme.clone().concat("://").concat(url.host.as_str()).concat(
            ":",
        ).concat(decimal_string(port as u64).as_str());
        if tls {
            Docker::tls(tcp_host_str.as_str())
        } else {
            Docker::tcp(tcp_host_str.as_str())
        }
    }

    /// An interface to the daemon's images.
    pub fn images(&self) -> (images: Images)
        ensures
            images.client() == self.client(),
    {
        Images::new(share(&self.http_client))
    }

    /// An interface to the daemon's containers.
    pub fn containers(&self) -> (containers: Containers)
        ensures
            containers.client() == self.client(),
    {
        Containers::new(share(&self.http_client))
    }

    /// An interface to the daemon's networks.
    pub fn networks(&self) -> (networks: Networks)
        ensures
            networks.client() == self.client(),
    {
        Networks::new(share(&self.http_client))
    }

    /// An interface to the daemon's volumes.
    pub fn volumes(&self) -> (volumes: Volumes)
        ensures
            volumes.client() == self.client(),
    {
        Volumes::new(share(&self.http_client))
    }

    /// The request for the daemon's version.
    pub fn version(&self) -> (request: RequestBuilder<'_>)
        ensures
            request@ == fresh(self.client(), "/version"@),
    {
        self.http_client.get("/version")
    }

    /// The request for information on the daemon.
    pub fn info(&self) -> (request: RequestBuilder<'_>)
        ensures
            request@ == fresh(self.client(), "/info"@),
    {
        self.http_client.get("/info")
    }

    /// The request for the stream of the daemon's events, narrowed by a
    /// query that was written out beforehand, if one is given.
    pub fn events(&self, query: Option<&str>) -> (request: RequestBuilder<'_>)
        ensures
            request@ == fresh(self.client(), path_with_query("/events"@, opt_str_view(query))),
    {
        let path = with_query(String::from_str("/events"), query);
        self.http_client.get(path.as_str())
    }

    /// The request that shows whether the daemon can be reached.
    pub fn ping(&self) -> (request: RequestBuilder<'_>)
        ensures
            request@ == fresh(self.client(), "/_ping"@),
    {
        self.http_client.get("/_ping")
    }
}

} // verus!
