use shiplift::clients::containers::requests::list::Query;
use shiplift::clients::docker::HostUrl;
use shiplift::http_client::compat::Compat;
use shiplift::http_client::{HttpClient, Method};
use shiplift::options::{Labels, NetworkCreateOptions, NetworkDriver, ShipliftOption, VolumeCreateOptions};
use shiplift::Docker;
use std::sync::Arc;

fn uri_of(request: shiplift::http_client::request::RequestBuilder<'_>) -> (Method, String) {
    let (request, _) = request.into_request().unwrap();
    (request.method, request.uri)
}

fn header(name: &str, value: &str) -> (String, String) {
    (name.to_string(), value.to_string())
}

#[test]
fn info_over_a_unix_socket() {
    let docker = Docker::unix("/var/run/x.sock");
    let (request, client) = docker.info().into_request().unwrap();
    assert_eq!(request.method, Method::Get);
    assert_eq!(request.uri, format!("unix://{}:0/info", hex::encode("/var/run/x.sock")));
    assert!(matches!(client, HttpClient::Uds(_)));
}

#[test]
fn daemon_requests() {
    let docker = Docker::tcp("http://localhost:2375");
    assert_eq!(uri_of(docker.version()), (Method::Get, "http://localhost:2375/version".into()));
    assert_eq!(uri_of(docker.info()), (Method::Get, "http://localhost:2375/info".into()));
    assert_eq!(uri_of(docker.ping()), (Method::Get, "http://localhost:2375/_ping".into()));
    let docker = Docker::tls("https://d:2376");
    assert_eq!(uri_of(docker.ping()), (Method::Get, "https://d:2376/_ping".into()));
}

#[test]
fn host_url_picks_the_transport() {
    let url = |scheme: &str, host: &str, port: Option<u16>, path: &str| HostUrl {
        scheme: scheme.to_string(),
        host: host.to_string(),
        port,
        path: path.to_string(),
    };
    let docker = Docker::host(&url("tcp", "example.org", Some(2375), "/"), false);
    assert_eq!(uri_of(docker.ping()).1, "tcp://example.org:2375/_ping");
    let docker = Docker::host(&url("http", "example.org", None, "/"), false);
    assert_eq!(uri_of(docker.ping()).1, "http://example.org:80/_ping");
    let docker = Docker::host(&url("https", "example.org", Some(65535), ""), true);
    let (_, client) = docker.ping().into_request().unwrap();
    assert!(matches!(client, HttpClient::Tls(_)));
    assert_eq!(client.uri("/x"), "https://example.org:65535/x");
    let docker = Docker::host(&url("unix", "", None, "/var/run/docker.sock"), true);
    let (request, client) = docker.ping().into_request().unwrap();
    assert!(matches!(client, HttpClient::Uds(_)));
    assert_eq!(
        request.uri,
        format!("unix://{}:0/_ping", hex::encode("/var/run/docker.sock"))
    );
}

#[test]
fn clients_share_the_daemon() {
    let docker = Docker::tcp("http://h");
    let containers = docker.containers();
    let images = docker.images();
    let networks = docker.networks();
    let volumes = docker.volumes();
    assert_eq!(uri_of(containers.get("c1").inspect()).1, "http://h/containers/c1/json");
    assert_eq!(uri_of(images.get("busybox").inspect()).1, "http://h/images/busybox/json");
    assert_eq!(uri_of(networks.get("n1").inspect()).1, "http://h/networks/n1");
    assert_eq!(uri_of(volumes.list()).1, "http://h/volumes");
    let again = docker.clone();
    assert_eq!(uri_of(again.info()).1, "http://h/info");
}

#[test]
fn container_requests() {
    let docker = Docker::tcp("http://h");
    let containers = docker.containers();
    let c = containers.get("abc");
    assert_eq!(c.id(), "abc");
    assert_eq!(uri_of(c.inspect()), (Method::Get, "http://h/containers/abc/json".into()));
    assert_eq!(uri_of(c.top(None)), (Method::Get, "http://h/containers/abc/top".into()));
    assert_eq!(
        uri_of(c.top(Some("-e f"))),
        (Method::Get, "http://h/containers/abc/top?ps_args=-e+f".into())
    );
    assert_eq!(uri_of(c.changes()), (Method::Get, "http://h/containers/abc/changes".into()));
    assert_eq!(uri_of(c.export()), (Method::Get, "http://h/containers/abc/export".into()));
    assert_eq!(uri_of(c.stats()), (Method::Get, "http://h/containers/abc/stats".into()));
    assert_eq!(
        uri_of(c.rename("new name")),
        (Method::Post, "http://h/containers/abc/rename?name=new+name".into())
    );
    assert_eq!(uri_of(c.pause()), (Method::Post, "http://h/containers/abc/pause".into()));
    assert_eq!(uri_of(c.unpause()), (Method::Post, "http://h/containers/abc/unpause".into()));
    assert_eq!(uri_of(c.wait()), (Method::Post, "http://h/containers/abc/wait".into()));
    assert_eq!(uri_of(c.delete()), (Method::Delete, "http://h/containers/abc".into()));
}

#[test]
fn attach_asks_for_all_streams_and_an_upgrade() {
    let docker = Docker::tcp("http://h");
    let containers = docker.containers();
    let c = containers.get("abc");
    let (request, _) = c.attach_raw().into_request().unwrap();
    assert_eq!(request.method, Method::Post);
    assert_eq!(
        request.uri,
        "http://h/containers/abc/attach?stream=true&stdout=true&stderr=true&stdin=true"
    );
    assert_eq!(
        request.headers,
        vec![header("connection", "Upgrade"), header("upgrade", "tcp")]
    );
}

#[test]
fn copying_a_file_puts_a_tar_archive() {
    let docker = Docker::tcp("http://h");
    let containers = docker.containers();
    let c = containers.get("abc");
    let (request, _) = c.copy_archive_into(vec![1, 2, 3]).into_request().unwrap();
    assert_eq!(request.method, Method::Put);
    assert_eq!(request.uri, "http://h/containers/abc/archive?path=%2F");
    assert_eq!(request.headers, vec![header("content-type", "application/x-tar")]);
    assert_eq!(request.body, vec![1, 2, 3]);
}

#[test]
fn start_and_kill_builders() {
    let docker = Docker::tcp("http://h");
    let containers = docker.containers();
    let c = containers.get("abc");
    assert_eq!(uri_of(c.start().send()), (Method::Post, "http://h/containers/abc/start?".into()));
    assert_eq!(
        uri_of(c.start().wait(10).send()),
        (Method::Post, "http://h/containers/abc/start?t=10".into())
    );
    assert_eq!(uri_of(c.kill().send()), (Method::Post, "http://h/containers/abc/kill?".into()));
    assert_eq!(
        uri_of(c.kill().signal("SIGINT".to_string()).send()),
        (Method::Post, "http://h/containers/abc/kill?signal=SIGINT".into())
    );
}

#[test]
fn listing_containers() {
    let docker = Docker::tcp("http://h");
    let containers = docker.containers();
    assert_eq!(uri_of(containers.list().send()), (Method::Get, "http://h/containers/json?".into()));
    let _create = containers.create();
    let query = Query {
        all: true,
        limit: Some(3),
        since: None,
        before: Some("b c".to_string()),
        size: false,
    };
    let fields = query.fields();
    let expected: Vec<(String, Option<String>)> = vec![
        ("all".to_string(), Some("true".to_string())),
        ("limit".to_string(), Some("3".to_string())),
        ("since".to_string(), None),
        ("before".to_string(), Some("b c".to_string())),
        ("size".to_string(), None),
    ];
    assert_eq!(fields, expected);
    let client = HttpClient::tcp("http://h");
    assert_eq!(
        uri_of(client.get("/containers/json").query(fields)).1,
        "http://h/containers/json?all=true&limit=3&before=b+c"
    );
}

#[test]
fn image_requests() {
    let docker = Docker::tcp("http://h");
    let images = docker.images();
    let image = images.get("busybox");
    assert_eq!(uri_of(image.inspect()), (Method::Get, "http://h/images/busybox/json".into()));
    assert_eq!(uri_of(image.history()), (Method::Get, "http://h/images/busybox/history".into()));
    assert_eq!(uri_of(image.delete()), (Method::Delete, "http://h/images/busybox".into()));
    assert_eq!(uri_of(image.export()), (Method::Get, "http://h/images/busybox/get".into()));
    assert_eq!(
        uri_of(images.search("rust lang")),
        (Method::Get, "http://h/images/search?term=rust+lang".into())
    );
    let (request, _) = images.import(vec![5, 6]).into_request().unwrap();
    assert_eq!(request.method, Method::Post);
    assert_eq!(request.uri, "http://h/images/load");
    assert_eq!(request.headers, vec![header("content-type", "application/x-tar")]);
    assert_eq!(request.body, vec![5, 6]);
    assert_eq!(images.build("/src/app").path(), "/src/app");
}

#[test]
fn network_requests() {
    let docker = Docker::tcp("http://h");
    let networks = docker.networks();
    let network = networks.get("n1");
    assert_eq!(network.id(), "n1");
    assert_eq!(uri_of(network.inspect()), (Method::Get, "http://h/networks/n1".into()));
    assert_eq!(uri_of(network.delete()), (Method::Delete, "http://h/networks/n1".into()));
    let (request, _) = networks.create(b"{\"Name\":\"n\"}".to_vec()).into_request().unwrap();
    assert_eq!(request.method, Method::Post);
    assert_eq!(request.uri, "http://h/networks/create");
    assert_eq!(request.headers, vec![header("content-type", "application/json")]);
    assert_eq!(request.body, b"{\"Name\":\"n\"}".to_vec());
}

#[test]
fn volume_requests() {
    let docker = Docker::tcp("http://h");
    let volumes = docker.volumes();
    assert_eq!(uri_of(volumes.list()), (Method::Get, "http://h/volumes".into()));
    assert_eq!(uri_of(volumes.get("v1").delete()), (Method::Delete, "http://h/volumes/v1".into()));
    let builder = volumes.create().name("v").label("k", "1").label("k", "2").label("j", "3");
    let expected: Vec<(String, String)> = vec![header("k", "2"), header("j", "3")];
    assert_eq!(builder.label_entries().entries(), &expected);
    let (request, _) = builder.send(b"{}".to_vec()).into_request().unwrap();
    assert_eq!(request.method, Method::Post);
    assert_eq!(request.uri, "http://h/volumes/create");
    assert_eq!(request.body, b"{}".to_vec());
}

#[test]
fn labels_hold_each_key_once() {
    let labels = Labels::new();
    assert!(labels.entries().is_empty());
    let labels = labels.insert("a", "1").insert("b", "2").insert("a", "3");
    let copy = labels.clone();
    let labels = labels.insert("", "").insert("b", "4");
    let earlier: Vec<(String, String)> = vec![header("a", "3"), header("b", "2")];
    assert_eq!(copy.entries(), &earlier);
    let expected: Vec<(String, String)> = vec![header("a", "3"), header("b", "4"), header("", "")];
    assert_eq!(labels.entries(), &expected);
}

#[test]
fn network_create_options() {
    let options = NetworkCreateOptions::new("net");
    assert_eq!(options.name(), "net");
    assert!(!options.check_duplicate());
    assert_eq!(options.chosen_driver(), NetworkDriver::Bridge);
    assert!(options.labels().entries().is_empty());
    let options = options.label("a", "1").driver(NetworkDriver::Bridge).label("a", "2");
    let expected: Vec<(String, String)> = vec![header("a", "2")];
    assert_eq!(options.labels().entries(), &expected);
    assert_eq!(options.method(), Method::Post);
    assert_eq!(options.endpoint(), "/networks/create");
}

#[test]
fn volume_create_options() {
    let options = VolumeCreateOptions::new();
    assert_eq!(options.chosen_name(), None);
    let options = options.name("vol").label("com.github.softprops", "shiplift");
    assert_eq!(options.chosen_name(), Some("vol"));
    let expected: Vec<(String, String)> = vec![header("com.github.softprops", "shiplift")];
    assert_eq!(options.labels().entries(), &expected);
    assert_eq!(options.method(), Method::Post);
    assert_eq!(options.endpoint(), "/volumes/create");
}

#[test]
fn compat_wraps_and_unwraps() {
    assert_eq!(Compat::new(5u8).into_inner(), 5);
    assert_eq!(Compat::new(String::from("io")).into_inner(), "io");
}

#[test]
fn clients_from_a_shared_http_client() {
    let shared = Arc::new(HttpClient::tcp("http://h"));
    let containers = shiplift::clients::Containers::new(Arc::clone(&shared));
    let images = shiplift::clients::Images::new(Arc::clone(&shared));
    let networks = shiplift::clients::Networks::new(Arc::clone(&shared));
    let volumes = shiplift::clients::Volumes::new(shared);
    assert_eq!(uri_of(containers.get("x").inspect()).1, "http://h/containers/x/json");
    assert_eq!(uri_of(images.get("x").history()).1, "http://h/images/x/history");
    assert_eq!(uri_of(networks.get("x").delete()).1, "http://h/networks/x");
    assert_eq!(uri_of(volumes.get("x").delete()).1, "http://h/volumes/x");
}

#[test]
fn requests_with_a_query_written_out_beforehand() {
    let docker = Docker::tcp("http://h");
    assert_eq!(uri_of(docker.events(None)), (Method::Get, "http://h/events".into()));
    assert_eq!(
        uri_of(docker.events(Some("since=1&until=2"))),
        (Method::Get, "http://h/events?since=1&until=2".into())
    );
    let containers = docker.containers();
    let c = containers.get("abc");
    assert_eq!(uri_of(c.remove(None)), (Method::Delete, "http://h/containers/abc".into()));
    assert_eq!(
        uri_of(c.remove(Some("force=true&v=true"))),
        (Method::Delete, "http://h/containers/abc?force=true&v=true".into())
    );
    let images = docker.images();
    assert_eq!(uri_of(images.list(None)), (Method::Get, "http://h/images/json".into()));
    assert_eq!(
        uri_of(images.list(Some("all=true"))),
        (Method::Get, "http://h/images/json?all=true".into())
    );
    assert_eq!(
        uri_of(images.get("busybox").tag(Some("repo=r&tag=t"))),
        (Method::Post, "http://h/images/busybox/tag?repo=r&tag=t".into())
    );
    assert_eq!(
        uri_of(images.get("busybox").tag(None)),
        (Method::Post, "http://h/images/busybox/tag".into())
    );
    let networks = docker.networks();
    assert_eq!(uri_of(networks.list(None)), (Method::Get, "http://h/networks".into()));
    assert_eq!(
        uri_of(networks.list(Some(""))),
        (Method::Get, "http://h/networks?".into())
    );
    assert_eq!(
        shiplift::clients::with_query("/p".to_string(), Some("a=b")),
        "/p?a=b"
    );
    assert_eq!(shiplift::clients::with_query("/p".to_string(), None), "/p");
}

#[test]
fn exec_requests() {
    let docker = Docker::tcp("http://h");
    let containers = docker.containers();
    let c = containers.get("abc");
    let (request, _) = c.exec_create(b"{\"Cmd\":[\"ls\"]}".to_vec()).into_request().unwrap();
    assert_eq!(request.method, Method::Post);
    assert_eq!(request.uri, "http://h/containers/abc/exec");
    assert_eq!(request.headers, vec![header("content-type", "application/json")]);
    assert_eq!(request.body, b"{\"Cmd\":[\"ls\"]}".to_vec());
    let (request, _) = c.exec_start("e1").into_request().unwrap();
    assert_eq!(request.method, Method::Post);
    assert_eq!(request.uri, "http://h/exec/e1/start");
    assert_eq!(request.headers, vec![header("content-type", "application/json")]);
    assert_eq!(request.body, b"null".to_vec());
}

#[test]
fn copying_from_a_container_and_exporting_images() {
    let docker = Docker::tcp("http://h");
    let containers = docker.containers();
    let c = containers.get("abc");
    assert_eq!(
        uri_of(c.copy_from("/etc/my file")),
        (Method::Get, "http://h/containers/abc/archive?path=%2Fetc%2Fmy+file".into())
    );
    let images = docker.images();
    assert_eq!(
        uri_of(images.export(vec!["a".to_string(), "b:1".to_string(), "c".to_string()])),
        (Method::Get, "http://h/images/get?names=a%2Cb%3A1%2Cc".into())
    );
    assert_eq!(
        uri_of(images.export(vec!["solo".to_string()])),
        (Method::Get, "http://h/images/get?names=solo".into())
    );
    assert_eq!(uri_of(images.export(vec![])), (Method::Get, "http://h/images/get?names=".into()));
}

#[test]
fn connecting_containers_to_networks() {
    let docker = Docker::tcp("http://h");
    let networks = docker.networks();
    let network = networks.get("n1");
    let (request, _) = network.connect(b"{\"Container\":\"c\"}".to_vec()).into_request().unwrap();
    assert_eq!(request.method, Method::Post);
    assert_eq!(request.uri, "http://h/networks/n1/connect");
    assert_eq!(request.body, b"{\"Container\":\"c\"}".to_vec());
    let (request, _) = network.disconnect(b"{}".to_vec()).into_request().unwrap();
    assert_eq!(request.uri, "http://h/networks/n1/disconnect");
    assert_eq!(request.headers, vec![header("content-type", "application/json")]);
}

#[test]
fn stop_and_restart_builders() {
    let docker = Docker::tcp("http://h");
    let containers = docker.containers();
    let c = containers.get("abc");
    assert_eq!(uri_of(c.stop().send()), (Method::Post, "http://h/containers/abc/stop?".into()));
    assert_eq!(
        uri_of(c.stop().wait(5).send()),
        (Method::Post, "http://h/containers/abc/stop?t=5".into())
    );
    assert_eq!(
        uri_of(c.restart().send()),
        (Method::Post, "http://h/containers/abc/restart?".into())
    );
    assert_eq!(
        uri_of(c.restart().wait(0).send()),
        (Method::Post, "http://h/containers/abc/restart?t=0".into())
    );
}

fn archive_of(path: &str, bytes: &[u8]) -> Vec<u8> {
    let mut ar = tar::Builder::new(Vec::new());
    let mut header = tar::Header::new_gnu();
    header.set_size(bytes.len() as u64);
    header.set_mode(0o644);
    ar.append_data(&mut header, path, bytes).unwrap();
    ar.into_inner().unwrap()
}

#[test]
fn a_file_is_archived_under_its_path_less_the_root() {
    let archive = shiplift::archive::single_file("/etc/motd", b"hello").unwrap();
    assert_eq!(archive, archive_of("etc/motd", b"hello"));
    assert_eq!(&archive[..8], b"etc/motd");
    assert_eq!(&archive[100..107], b"0000644");
    assert_eq!(&archive[512..517], b"hello");
    assert_eq!(archive.len(), 2048);
    let archive = shiplift::archive::single_file("dir/sub/file", b"").unwrap();
    assert_eq!(archive, archive_of("sub/file", b""));
    let archive = shiplift::archive::single_file("/a//b/./c", &[7; 600]).unwrap();
    assert_eq!(archive, archive_of("a/b/c", &[7; 600]));
}

#[test]
fn a_path_without_a_file_name_makes_no_archive() {
    assert_eq!(shiplift::archive::single_file("/", b"x"), None);
    assert_eq!(shiplift::archive::single_file("", b"x"), None);
    assert_eq!(shiplift::archive::single_file("only", b"x"), None);
    assert_eq!(shiplift::archive::single_file("/a/../b", b"x"), None);
}

#[test]
fn copying_a_file_into_a_container() {
    let docker = Docker::tcp("http://h");
    let containers = docker.containers();
    let c = containers.get("abc");
    let (request, _) = c.copy_file_into("/tmp/f.txt", b"data").unwrap().into_request().unwrap();
    assert_eq!(request.method, Method::Put);
    assert_eq!(request.uri, "http://h/containers/abc/archive?path=%2F");
    assert_eq!(request.headers, vec![header("content-type", "application/x-tar")]);
    assert_eq!(request.body, archive_of("tmp/f.txt", b"data"));
    assert!(c.copy_file_into("/", b"data").is_none());
}
