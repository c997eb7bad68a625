//! Containers.

use crate::archive::{file_archive, single_file};
use crate::clients::{opt_str_view, path_with_query, share, with_query};
use crate::http_client::request::{
    field_views, form_pairs, fresh, present, single_field, RequestBuilder, Staged,
};
use crate::http_client::{Body, BodyKind, HttpClient, Method};
use std::sync::Arc;
use vstd::prelude::*;
use vstd::string::StringExecFns;

pub mod requests;

pub use requests::{Create, Kill, List, Restart, Start, Stop};

verus! {

/// Interface for the daemon's containers.
pub struct Containers {
    http_client: Arc<HttpClient>,
}

impl Containers {
    /// The client that requests go through.
    pub closed spec fn client(&self) -> HttpClient {
        *self.http_client
    }

    /// An interface to the containers of the daemon behind `http_client`.
    pub fn new(http_client: Arc<HttpClient>) -> (containers: Containers)
        ensures
            containers.client() == *http_client,
    {
        Containers { http_client }
    }

    /// The operations on the container `id`.
    pub fn get<'a>(&self, id: &'a str) -> (container: Container<'a>)
        ensures
            container.client() == self.client(),
            container.name() == id@,
    {
        Container::new(share(&self.http_client), id)
    }

    /// A builder for the request that lists the containers.
    pub fn list(&self) -> (builder: List<'_>)
        ensures
            builder.client() == self.client(),
            builder@ == requests::list::Query::unset(),
    {
        List::new(&self.http_client)
    }

    /// A builder for the request that creates a container.
    pub fn create(&self) -> (builder: Create<'_>)
        ensures
            builder.client() == self.client(),
    {
        Create::new(&self.http_client)
    }
}

/// Interface for one container.
pub struct Container<'a> {
    http_client: Arc<HttpClient>,
    id: &'a str,
}

/// The path of something that belongs to the container `id`.
pub open spec fn container_path(id: Seq<char>, what: Seq<char>) -> Seq<char> {
    "/containers/"@ + id + what
}

/// `url::form_urlencoded::Serializer`, started on an empty string, given one
/// pair and finished: the pair as `name=value`, name and value in form
/// encoding.
#[verifier::external_body]
fn form_pair(name: &str, value: &str) -> (encoded: String)
    ensures
        encoded@ == form_pairs(seq![(name@, value@)]),
{
    url::form_urlencoded::Serializer::new(String::new()).append_pair(name, value).finish()
}

/// The query that asks for all four streams of an attached container.
pub open spec fn attach_fields() -> Seq<(Seq<char>, Option<Seq<char>>)> {
    seq![
        ("stream"@, Some("true"@)),
        ("stdout"@, Some("true"@)),
        ("stderr"@, Some("true"@)),
        ("stdin"@, Some("true"@)),
    ]
}

impl<'a> Container<'a> {
    /// The client that requests go through.
    pub closed spec fn client(&self) -> HttpClient {
        *self.http_client
    }

    /// The container's id.
    pub closed spec fn name(&self) -> Seq<char> {
        self.id@
    }

    /// The operations on the container `id` of the daemon behind
    /// `http_client`.
    pub fn new(http_client: Arc<HttpClient>, id: &'a str) -> (container: Container<'a>)
        ensures
            container.client() == *http_client,
            container.name() == id@,
    {
        Container { http_client, id }
    }

    /// The container's id.
    pub fn id(&self) -> (id: &str)
        ensures
            id@ == self.name(),
    {
        self.id
    }

    fn path(&self, what: &str) -> (path: String)
        ensures
            path@ == container_path(self.name(), what@),
    {
        String::from_str("/containers/").concat(self.id).concat(what)
    }

    /// The request for the container's details.
    pub fn inspect(&self) -> (request: RequestBuilder<'_>)
        ensures
            request@ == fresh(self.client(), container_path(self.name(), "/json"@)),
    {
        self.http_client.get(self.path("/json").as_str())
    }

    /// The request for the processes that run in the container, with the
    /// arguments for `ps` if any are given.
    pub fn top(&self, psargs: Option<&str>) -> (request: RequestBuilder<'_>)
        ensures
            request@ == (Staged {
                query: match psargs {
                    Some(psargs) => Some(form_pairs(seq![("ps_args"@, psargs@)])),
                    None => None,
                },
                ..fresh(self.client(), container_path(self.name(), "/top"@))
            }),
    {
        let request = self.http_client.get(self.path("/top").as_str());
        match psargs {
            Some(psargs) => {
                let fields = single_field("ps_args", Some(psargs.to_owned()));
                request.query(fields)
            },
            None => request,
        }
    }

    /// The request that attaches to the container's stdin, stdout and
    /// stderr, and asks for the connection to be handed over raw.
    pub fn attach_raw(&self) -> (request: RequestBuilder<'_>)
        ensures
            request@ == (Staged {
                method: Method::Post,
                query: Some(form_pairs(present(attach_fields()))),
                headers: seq![("connection"@, "Upgrade"@), ("upgrade"@, "tcp"@)],
                ..fresh(self.client(), container_path(self.name(), "/attach"@))
            }),
    {
        let mut fields: Vec<(String, Option<String>)> = Vec::new();
        fields.push((String::from_str("stream"), Some(String::from_str("true"))));
        fields.push((String::from_str("stdout"), Some(String::from_str("true"))));
        fields.push((String::from_str("stderr"), Some(String::from_str("true"))));
        fields.push((String::from_str("stdin"), Some(String::from_str("true"))));
        assert(field_views(fields@) =~= attach_fields());
        let request = self.http_client.post(self.path("/attach").as_str()).query(fields).upgrade();
        assert(request@.headers =~= seq![("connection"@, "Upgrade"@), ("upgrade"@, "tcp"@)]);
        request
    }

    /// The request for the changes made to the container's files.
    pub fn changes(&self) -> (request: RequestBuilder<'_>)
        ensures
            request@ == fresh(self.client(), container_path(self.name(), "/changes"@)),
    {
        self.http_client.get(self.path("/changes").as_str())
    }

    /// The request for the container's files as a tarball.
    pub fn export(&self) -> (request: RequestBuilder<'_>)
        ensures
            request@ == fresh(self.client(), container_path(self.name(), "/export"@)),
    {
        self.http_client.get(self.path("/export").as_str())
    }

    /// The request for the stream of the container's statistics.
    pub fn stats(&self) -> (request: RequestBuilder<'_>)
        ensures
            request@ == fresh(self.client(), container_path(self.name(), "/stats"@)),
    {
        self.http_client.get(self.path("/stats").as_str())
    }

    /// A builder for the request that starts the container.
    pub fn start(&self) -> (builder: Start<'_>)
        ensures
            builder.client() == self.client(),
            builder.container() == self.name(),
            builder.timeout() is None,
    {
        Start::new(&self.http_client, self.id)
    }

    /// A builder for the request that stops the container.
    pub fn stop(&self) -> (builder: Stop<'_>)
        ensures
            builder.client() == self.client(),
            builder.container() == self.name(),
            builder.timeout() is None,
    {
        Stop::new(&self.http_client, self.id)
    }

    /// A builder for the request that restarts the container.
    pub fn restart(&self) -> (builder: Restart<'_>)
        ensures
            builder.client() == self.client(),
            builder.container() == self.name(),
            builder.timeout() is None,
    {
        Restart::new(&self.http_client, self.id)
    }

    /// A builder for the request that kills the container.
    pub fn kill(&self) -> (builder: Kill<'_>)
        ensures
            builder.client() == self.client(),
            builder.container() == self.name(),
            builder.chosen_signal() is None,
    {
        Kill::new(&self.http_client, self.id)
    }

    /// The request that gives the container the name `name`.
    pub fn rename(&self, name: &str) -> (request: RequestBuilder<'_>)
        ensures
            request@ == (Staged {
                method: Method::Post,
                query: Some(form_pairs(seq![("name"@, name@)])),
                ..fresh(self.client(), container_path(self.name(), "/rename"@))
            }),
    {
        let fields = single_field("name", Some(name.to_owned()));
        self.http_client.post(self.path("/rename").as_str()).query(fields)
    }

    /// The request that pauses the container.
    pub fn pause(&self) -> (request: RequestBuilder<'_>)
        ensures
            request@ == (Staged {
                method: Method::Post,
                ..fresh(self.client(), container_path(self.name(), "/pause"@))
            }),
    {
        self.http_client.post(self.path("/pause").as_str())
    }

    /// The request that lets the paused container go on.
    pub fn unpause(&self) -> (request: RequestBuilder<'_>)
        ensures
            request@ == (Staged {
                method: Method::Post,
                ..fresh(self.client(), container_path(self.name(), "/unpause"@))
            }),
    {
        self.http_client.post(self.path("/unpause").as_str())
    }

    /// The request that waits until the container stops.
    pub fn wait(&self) -> (request: RequestBuilder<'_>)
        ensures
            request@ == (Staged {
                method: Method::Post,
                ..fresh(self.client(), container_path(self.name(), "/wait"@))
            }),
    {
        self.http_client.post(self.path("/wait").as_str())
    }

    /// The request that deletes the container.
    pub fn delete(&self) -> (request: RequestBuilder<'_>)
        ensures
            request@ == (Staged {
                method: Method::Delete,
                ..fresh(self.client(), container_path(self.name(), ""@))
            }),
    {
        self.http_client.delete(self.path("").as_str())
    }

    /// The request that removes the container, with options that were
    /// written out as a query beforehand, if any are given.
    pub fn remove(&self, query: Option<&str>) -> (request: RequestBuilder<'_>)
        ensures
            request@ == (Staged {
                method: Method::Delete,
                ..fresh(
                    self.client(),
                    path_with_query(container_path(self.name(), ""@), opt_str_view(query)),
                )
            }),
    {
        let path = with_query(self.path(""), query);
        self.http_client.delete(path.as_str())
    }

    /// The request that sets up a command to run in the container, from
    /// options written as JSON.
    pub fn exec_create(&self, options: Vec<u8>) -> (request: RequestBuilder<'_>)
        ensures
            request@ == (Staged {
                method: Method::Post,
                body: Some(Body { kind: BodyKind::Json, data: options@ }),
                ..fresh(self.client(), container_path(self.name(), "/exec"@))
            }),
    {
        self.http_client.post(self.path("/exec").as_str()).json_body(options)
    }

    /// The request that starts the command that was set up under `id`. Its
    /// payload is the JSON value `null`.
    pub fn exec_start(&self, id: &str) -> (request: RequestBuilder<'_>)
        ensures
            request@ == (Staged {
                method: Method::Post,
                body: Some(Body { kind: BodyKind::Json, data: seq![110u8, 117u8, 108u8, 108u8] }),
                ..fresh(self.client(), "/exec/"@ + id@ + "/start"@)
            }),
    {
        let path = String::from_str("/exec/").concat(id).concat("/start");
        let mut null: Vec<u8> = Vec::new();
        null.push(110);
        null.push(117);
        null.push(108);
        null.push(108);
        assert(null@ =~= seq![110u8, 117u8, 108u8, 108u8]);
        self.http_client.post(path.as_str()).json_body(null)
    }

    /// The request for a file or directory of the container as a tarball.
    /// A relative `path` is taken from the container's root directory.
    pub fn copy_from(&self, path: &str) -> (request: RequestBuilder<'_>)
        ensures
            request@ == fresh(
                self.client(),
                container_path(self.name(), "/archive?"@) + form_pairs(seq![("path"@, path@)]),
            ),
    {
        let path_arg = form_pair("path", path);
        let endpoint = self.path("/archive?").concat(path_arg.as_str());
        self.http_client.get(endpoint.as_str())
    }

    /// The request that copies an archive into the container's root
    /// directory. `archive` is a tar archive of the files to copy.
    pub fn copy_archive_into(&self, archive: Vec<u8>) -> (request: RequestBuilder<'_>)
        ensures
            request@ == (Staged {
                method: Method::Put,
                query: Some(form_pairs(seq![("path"@, "/"@)])),
                body: Some(Body { kind: BodyKind::Tar, data: archive@ }),
                ..fresh(self.client(), container_path(self.name(), "/archive"@))
            }),
    {
        let fields = single_field("path", Some(String::from_str("/")));
        self.http_client.put(self.path("/archive").as_str()).query(fields).tar_body(archive)
    }

    /// The request that copies `bytes` as a file into the container, to the
    /// place that `path` names. The file will belong to root and have the
    /// access mode 644. There is no request where the path cannot stand in
    /// an archive.
    pub fn copy_file_into(&self, path: &str, bytes: &[u8]) -> (request: Option<RequestBuilder<'_>>)
        ensures
            match request {
                Some(request) => file_archive(path@, bytes@) is Some && request@ == (Staged {
                    method: Method::Put,
                    query: Some(form_pairs(seq![("path"@, "/"@)])),
                    body: Some(
                        Body { kind: BodyKind::Tar, data: file_archive(path@, bytes@).unwrap() },
                    ),
                    ..fresh(self.client(), container_path(self.name(), "/archive"@))
                }),
                None => file_archive(path@, bytes@) is None,
            },
    {
        match single_file(path, bytes) {
            Some(archive) => Some(self.copy_archive_into(archive)),
            None => None,
        }
    }
}

} // verus!
