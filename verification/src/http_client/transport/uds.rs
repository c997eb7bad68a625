//! A Unix domain socket. The socket's path travels in the host part of the
//! address, written in hexadecimal, so that machinery keyed by URIs can route
//! every request to "the socket".

use super::Transport;
use crate::errors::{Error, IoKind};
use vstd::prelude::*;
use vstd::string::StringExecFns;
use vstd::string::StringSliceAdditionalSpecFns;
use vstd::utf8::{decode_utf8, encode_utf8, valid_utf8};

verus! {

/// The lower-case hexadecimal digit for `n`.
pub open spec fn hex_digit(n: nat) -> char
    recommends
        n < 16,
{
    if n < 10 {
        ('0' as u8 + n) as u8 as char
    } else {
        ('a' as u8 + (n - 10)) as u8 as char
    }
}

/// `data` in hexadecimal: two lower-case digits per byte, high half first.
pub open spec fn hex_string(data: Seq<u8>) -> Seq<char> {
    Seq::new(
        2 * data.len(),
        |i: int| if i % 2 == 0 {
            hex_digit(data[i / 2] as nat / 16)
        } else {
            hex_digit(data[i / 2] as nat % 16)
        },
    )
}

/// What a hexadecimal digit of either case stands for.
pub open spec fn hex_value(c: char) -> Option<nat> {
    if '0' <= c <= '9' {
        Some((c as u8 - '0' as u8) as nat)
    } else if 'a' <= c <= 'f' {
        Some((c as u8 - 'a' as u8 + 10) as nat)
    } else if 'A' <= c <= 'F' {
        Some((c as u8 - 'A' as u8 + 10) as nat)
    } else {
        None
    }
}

/// An even number of hexadecimal digits and nothing else.
pub open spec fn is_hex(s: Seq<char>) -> bool {
    &&& s.len() % 2 == 0
    &&& forall|i: int| 0 <= i < s.len() ==> hex_value(#[trigger] s[i]) is Some
}

/// The bytes that a hexadecimal string stands for.
pub open spec fn unhex(s: Seq<char>) -> Seq<u8>
    recommends
        is_hex(s),
{
    Seq::new(
        s.len() / 2,
        |i: int| (hex_value(s[2 * i]).unwrap() * 16 + hex_value(s[2 * i + 1]).unwrap()) as u8,
    )
}

/// Reading back what was written in hexadecimal gives the bytes again.
pub proof fn unhex_inverts_hex(data: Seq<u8>)
    ensures
        is_hex(hex_string(data)),
        unhex(hex_string(data)) == data,
{
    let s = hex_string(data);
    assert forall|i: int| 0 <= i < s.len() implies hex_value(#[trigger] s[i]) is Some by {
        let b = data[i / 2] as nat;
        assert(b / 16 < 16 && b % 16 < 16);
    }
    assert forall|i: int| 0 <= i < data.len() implies unhex(s)[i] == data[i] by {
        let b = data[i] as nat;
        assert((2 * i) / 2 == i && (2 * i + 1) / 2 == i);
        assert((2 * i) % 2 == 0 && (2 * i + 1) % 2 == 1);
        assert(s[2 * i] == hex_digit(b / 16));
        assert(s[2 * i + 1] == hex_digit(b % 16));
        assert(hex_value(hex_digit(b / 16)) == Some(b / 16));
        assert(hex_value(hex_digit(b % 16)) == Some(b % 16));
    }
    assert(unhex(s) =~= data);
}

/// `hex::encode`: writes each byte as two lower-case hexadecimal digits.
#[verifier::external_body]
fn hex_encode(data: &[u8]) -> (s: String)
    ensures
        s@ == hex_string(data@),
{
    hex::encode(data)
}

/// `hex::decode`: reads a string of hexadecimal digits, of either case, two
/// to a byte. It refuses a string of odd length and one that holds anything
/// but hexadecimal digits.
#[verifier::external_body]
fn hex_decode(s: &str) -> (data: Option<Vec<u8>>)
    ensures
        match data {
            Some(bytes) => is_hex(s@) && bytes@ == unhex(s@),
            None => !is_hex(s@),
        },
{
    hex::decode(s).ok()
}

/// What `String::from_utf8_lossy` makes of `bytes`.
pub uninterp spec fn utf8_lossy(bytes: Seq<u8>) -> Seq<char>;

/// `String::from_utf8_lossy`: the text that the bytes encode in UTF-8, with
/// a replacement character in place of what is no valid UTF-8. Bytes that are
/// valid UTF-8 come back as the text they encode.
#[verifier::external_body]
fn string_from_utf8_lossy(bytes: &[u8]) -> (s: String)
    ensures
        s@ == utf8_lossy(bytes@),
        valid_utf8(bytes@) ==> s@ == decode_utf8(bytes@),
{
    String::from_utf8_lossy(bytes).into_owned()
}

/// A daemon listening on a Unix domain socket.
#[derive(Debug, Clone)]
pub struct Uds {
    path: String,
}

impl Uds {
    /// A transport to the daemon behind the socket at `path`.
    pub fn new(path: &str) -> (transport: Uds)
        ensures
            transport.path() == path@,
    {
        Uds { path: path.to_owned() }
    }

    /// The path of the socket.
    pub closed spec fn path(&self) -> Seq<char> {
        self.path@
    }
}

/// The address of `endpoint` behind the socket at `socket`:
/// `unix://<hex of the path>:0<endpoint>`.
pub open spec fn unix_address(socket: Seq<char>, endpoint: Seq<char>) -> Seq<char> {
    "unix://"@ + hex_string(encode_utf8(socket)) + ":0"@ + endpoint
}

/// Computes the address of `endpoint` behind the socket at `socket`.
pub fn unix_uri(socket: &str, endpoint: &str) -> (uri: String)
    ensures
        uri@ == unix_address(socket@, endpoint@),
{
    let host = hex_encode(socket.as_bytes());
    String::from_str("unix://").concat(host.as_str()).concat(":0").concat(endpoint)
}

impl Transport for Uds {
    open spec fn address(&self, endpoint: Seq<char>) -> Seq<char> {
        unix_address(self.path(), endpoint)
    }

    fn uri(&self, endpoint: &str) -> (uri: String) {
        unix_uri(self.path.as_str(), endpoint)
    }
}

/// Why an address names no socket, if it names none.
pub enum SocketAddressFault {
    /// Its scheme is not `unix`.
    Scheme,
    /// It has no host part.
    NoHost,
    /// Its host part is not a path written in hexadecimal.
    NotHex,
}

/// What is wrong with an address of the given scheme and host, if anything.
pub open spec fn socket_address_fault(
    scheme: Option<Seq<char>>,
    host: Option<Seq<char>>,
) -> Option<SocketAddressFault> {
    if scheme != Some("unix"@) {
        Some(SocketAddressFault::Scheme)
    } else if host is None {
        Some(SocketAddressFault::NoHost)
    } else if !is_hex(host.unwrap()) {
        Some(SocketAddressFault::NotHex)
    } else {
        None
    }
}

fn invalid_input(cause: &str) -> (e: Error)
    ensures
        e matches Error::IO(IoKind::InvalidInput, message) && message@ == cause@,
{
    Error::IO(IoKind::InvalidInput, cause.to_owned())
}

/// The path of the socket that an address of the `unix` scheme names, from
/// the scheme and the host part of the address.
///
/// Fails with an `Error::IO` of the kind `InvalidInput` if the scheme is not
/// `unix`, if there is no host, or if the host is not a path written in
/// hexadecimal. Otherwise the path
/// is the text that the bytes behind the hexadecimal digits encode in UTF-8,
/// with a replacement character in place of what is no valid UTF-8.
pub fn parse_socket_path(scheme: Option<&str>, host: Option<&str>) -> (r: Result<String, Error>)
    ensures
        match socket_address_fault(
            match scheme {
                Some(s) => Some(s@),
                None => None,
            },
            match host {
                Some(h) => Some(h@),
                None => None,
            },
        ) {
            None => r matches Ok(path) && path@ == utf8_lossy(unhex(host.unwrap()@)) && (
            valid_utf8(unhex(host.unwrap()@)) ==> path@ == decode_utf8(unhex(host.unwrap()@))),
            Some(SocketAddressFault::Scheme) => r matches Err(
                Error::IO(IoKind::InvalidInput, cause),
            ) && cause@
                == "invalid URL, scheme must be unix"@,
            Some(SocketAddressFault::NoHost) => r matches Err(
                Error::IO(IoKind::InvalidInput, cause),
            ) && cause@
                == "invalid URL, host must be present"@,
            Some(SocketAddressFault::NotHex) => r matches Err(
                Error::IO(IoKind::InvalidInput, cause),
            ) && cause@
                == "invalid URL, host must be a hex-encoded path"@,
        },
{
    let is_unix = match scheme {
        Some(s) => s.to_owned() == String::from_str("unix"),
        None => false,
    };
    if !is_unix {
        return Err(invalid_input("invalid URL, scheme must be unix"));
    }
    match host {
        Some(host) => match hex_decode(host) {
            Some(bytes) => Ok(string_from_utf8_lossy(bytes.as_slice())),
            None => Err(invalid_input("invalid URL, host must be a hex-encoded path")),
        },
        None => Err(invalid_input("invalid URL, host must be present")),
    }
}

/// The address of an endpoint behind a socket names that socket again.
///
/// The host part that `unix_uri` writes for a socket is accepted as the host
/// of a `unix` address, the bytes behind its digits are valid UTF-8, and
/// the text they encode is the socket's path. So `parse_socket_path` on that
/// host gives back the path exactly, whatever the endpoint was.
pub proof fn socket_path_survives_address(socket: Seq<char>)
    ensures
        socket_address_fault(Some("unix"@), Some(hex_string(encode_utf8(socket)))) is None,
        valid_utf8(unhex(hex_string(encode_utf8(socket)))),
        decode_utf8(unhex(hex_string(encode_utf8(socket)))) == socket,
{
    broadcast use vstd::utf8::encode_utf8_valid_utf8, vstd::utf8::encode_utf8_decode_utf8;

    unhex_inverts_hex(encode_utf8(socket));
}

} // verus!
