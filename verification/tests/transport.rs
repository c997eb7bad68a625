use shiplift::http_client::transport::uds::{parse_socket_path, unix_uri};
use shiplift::http_client::transport::tls::TlsMaterial;
use shiplift::http_client::transport::{Tcp, Tls, Transport, Uds};
use shiplift::http_client::HttpClient;
use shiplift::errors::IoKind;
use shiplift::Error;

#[test]
fn tcp_address_is_host_then_endpoint() {
    let tcp = Tcp::new("http://localhost:2375");
    assert_eq!(tcp.uri("/info"), "http://localhost:2375/info");
    assert_eq!(HttpClient::tcp("http://h:1").uri("/version"), "http://h:1/version");
}

#[test]
fn tls_address_is_host_then_endpoint() {
    let tls = Tls::new("https://docker.example:2376");
    assert_eq!(tls.uri("/_ping"), "https://docker.example:2376/_ping");
    assert_eq!(HttpClient::tls("https://h:2").uri("/x"), "https://h:2/x");
}

#[test]
fn unix_address_hex_encodes_the_socket_path() {
    let expected = format!("unix://{}:0/info", hex::encode("/var/run/x.sock"));
    assert_eq!(Uds::new("/var/run/x.sock").uri("/info"), expected);
    assert_eq!(HttpClient::unix("/var/run/x.sock").uri("/info"), expected);
    assert_eq!(unix_uri("/var/run/x.sock", "/info"), expected);
    assert_eq!(
        expected,
        "unix://2f7661722f72756e2f782e736f636b:0/info"
    );
}

#[test]
fn unix_address_encodes_non_ascii_paths_by_their_bytes() {
    assert_eq!(unix_uri("/é", "/a"), "unix://2fc3a9:0/a");
    assert_eq!(unix_uri("", ""), "unix://:0");
}

#[test]
fn socket_path_is_read_back_from_the_address() {
    let host = hex::encode("/var/run/docker.sock");
    let path = parse_socket_path(Some("unix"), Some(&host)).unwrap();
    assert_eq!(path, "/var/run/docker.sock");
    let path = parse_socket_path(Some("unix"), Some("2F7661722F72756E")).unwrap();
    assert_eq!(path, "/var/run");
    let path = parse_socket_path(Some("unix"), Some("2fc3A9")).unwrap();
    assert_eq!(path, "/é");
    assert_eq!(parse_socket_path(Some("unix"), Some("")).unwrap(), "");
}

#[test]
fn socket_path_with_invalid_utf8_is_read_lossily() {
    let path = parse_socket_path(Some("unix"), Some("2fff")).unwrap();
    assert_eq!(path, "/\u{fffd}");
}

#[test]
fn socket_path_needs_the_unix_scheme() {
    for scheme in [Some("http"), Some("UNIX"), Some(""), None] {
        match parse_socket_path(scheme, Some("2f")) {
            Err(Error::IO(IoKind::InvalidInput, cause)) => assert_eq!(cause, "invalid URL, scheme must be unix"),
            other => panic!("expected an IO error, got {:?}", other),
        }
    }
}

#[test]
fn socket_path_needs_a_host() {
    match parse_socket_path(Some("unix"), None) {
        Err(Error::IO(IoKind::InvalidInput, cause)) => assert_eq!(cause, "invalid URL, host must be present"),
        other => panic!("expected an IO error, got {:?}", other),
    }
}

#[test]
fn socket_path_needs_a_hex_host() {
    for host in ["2", "zz", "2f7", "2f 7a", "é0", "-1"] {
        match parse_socket_path(Some("unix"), Some(host)) {
            Err(Error::IO(IoKind::InvalidInput, cause)) => {
                assert_eq!(cause, "invalid URL, host must be a hex-encoded path")
            }
            other => panic!("expected an IO error for {:?}, got {:?}", host, other),
        }
    }
}

#[test]
fn tls_material_without_verification_has_no_ca() {
    let material = TlsMaterial::from_cert_path("/certs", false);
    assert_eq!(material.ciphers, "DEFAULT");
    assert_eq!(material.cert, "/certs/cert.pem");
    assert_eq!(material.key, "/certs/key.pem");
    assert_eq!(material.ca, None);
}

#[test]
fn tls_material_with_verification_has_a_ca() {
    let material = TlsMaterial::from_cert_path("/home/me/.docker", true);
    assert_eq!(material.cert, "/home/me/.docker/cert.pem");
    assert_eq!(material.key, "/home/me/.docker/key.pem");
    assert_eq!(material.ca, Some("/home/me/.docker/ca.pem".to_string()));
}
