use shiplift::text::decimal_string;
use shiplift::errors::IoKind;
use shiplift::Error;

#[test]
fn errors_from_below_show_their_cause() {
    assert_eq!(
        Error::SerdeJsonError("expected value at line 1 column 1".to_string()).to_string(),
        "Docker Error: expected value at line 1 column 1"
    );
    assert_eq!(Error::Hyper("connection refused".to_string()).to_string(),
        "Docker Error: connection refused");
    assert_eq!(Error::Http("invalid uri character".to_string()).to_string(),
        "Docker Error: invalid uri character");
    assert_eq!(Error::IO(IoKind::Other, "broken pipe".to_string()).to_string(), "Docker Error: broken pipe");
    assert_eq!(Error::Encoding("invalid utf-8".to_string()).to_string(),
        "Docker Error: invalid utf-8");
    assert_eq!(Error::IO(IoKind::InvalidData, String::new()).to_string(), "Docker Error: ");
}

#[test]
fn invalid_response_shows_its_cause() {
    assert_eq!(
        Error::InvalidResponse("no id".to_string()).to_string(),
        "Docker Error: Response doesn't have the expected format: no id"
    );
}

#[test]
fn fault_shows_its_status() {
    let fault = |code: u16| Error::Fault { code, message: "ignored".to_string() };
    assert_eq!(fault(404).to_string(), "Docker Error: 404 Not Found");
    assert_eq!(fault(500).to_string(), "Docker Error: 500 Internal Server Error");
    assert_eq!(fault(101).to_string(), "Docker Error: 101 Switching Protocols");
    assert_eq!(fault(599).to_string(), "Docker Error: 599 <unknown status code>");
}

#[test]
fn plain_errors_have_fixed_texts() {
    assert_eq!(
        Error::ConnectionNotUpgraded.to_string(),
        "Docker Error: expected the docker host to upgrade the HTTP connection but it did not"
    );
    assert_eq!(Error::Decode.to_string(), "Docker Error: failed to decode bytes");
}

#[test]
fn decimal_strings() {
    assert_eq!(decimal_string(0), "0");
    assert_eq!(decimal_string(7), "7");
    assert_eq!(decimal_string(10), "10");
    assert_eq!(decimal_string(404), "404");
    assert_eq!(decimal_string(65535), "65535");
    assert_eq!(decimal_string(u64::MAX), "18446744073709551615");
}
