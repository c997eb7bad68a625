//! The staged construction of a request, and its finalisation into the one
//! concrete request that is handed to a transport.

use crate::errors::Error;
use crate::http_client::{Body, BodyKind, BodyType, HttpClient, Method};
use crate::text::opt_view;
use vstd::prelude::*;
use vstd::string::StringExecFns;
use vstd::utf8::encode_utf8;

verus! {

/// A header as a mathematical value: name and value.
pub type Header = (Seq<char>, Seq<char>);

/// The views of a list of headers.
pub open spec fn header_views(headers: Seq<(String, String)>) -> Seq<Header> {
    headers.map_values(|h: (String, String)| (h.0@, h.1@))
}

/// A request under construction, as a mathematical value.
pub struct Staged {
    pub client: HttpClient,
    pub uri_base: Seq<char>,
    pub method: Method,
    pub query: Option<Seq<char>>,
    pub body: Option<Body>,
    pub headers: Seq<Header>,
}

/// The request that `client.request(endpoint)` starts: a GET for the
/// endpoint's address, with no query, no body and no headers.
pub open spec fn fresh(client: HttpClient, endpoint: Seq<char>) -> Staged {
    Staged {
        client,
        uri_base: client.address(endpoint),
        method: Method::Get,
        query: None,
        body: None,
        headers: Seq::empty(),
    }
}

/// A finished request as a mathematical value.
pub struct Wire {
    pub method: Method,
    pub uri: Seq<char>,
    pub headers: Seq<Header>,
    pub body: Seq<u8>,
}

/// A finished request: what goes on the wire.
#[derive(Debug, Clone)]
pub struct Request {
    pub method: Method,
    pub uri: String,
    pub headers: Vec<(String, String)>,
    pub body: Vec<u8>,
}

impl View for Request {
    type V = Wire;

    open spec fn view(&self) -> Wire {
        Wire {
            method: self.method,
            uri: self.uri@,
            headers: header_views(self.headers@),
            body: self.body@,
        }
    }
}

/// A byte that may stand in the value of a header.
pub open spec fn header_value_byte(b: u8) -> bool {
    (b >= 32 && b != 127) || b == 9
}

/// A text that may be the value of a header: in UTF-8, it holds no control
/// byte but the tab.
pub open spec fn valid_header_value(value: Seq<char>) -> bool {
    forall|i: int|
        0 <= i < encode_utf8(value).len() ==> header_value_byte(#[trigger] encode_utf8(value)[i])
}

/// A byte that may stand in the name of a header.
pub open spec fn header_name_byte(b: u8) -> bool {
    ||| 33 <= b <= 39
    ||| b == 42
    ||| b == 43
    ||| b == 45
    ||| b == 46
    ||| 48 <= b <= 57
    ||| 65 <= b <= 90
    ||| 94 <= b <= 122
    ||| b == 124
    ||| b == 126
}

/// A text that may be the name of a header: between 1 and 65535 bytes, all
/// of them letters, digits or one of a few signs.
pub open spec fn valid_header_name(name: Seq<char>) -> bool {
    &&& 1 <= encode_utf8(name).len() <= 65535
    &&& forall|i: int|
        0 <= i < encode_utf8(name).len() ==> header_name_byte(#[trigger] encode_utf8(name)[i])
}

/// Whether `http::Uri` accepts the text as a URI.
pub uninterp spec fn uri_parses(uri: Seq<char>) -> bool;

/// `http::header::HeaderValue::from_str`: accepts a text as the value of a
/// header if each of its bytes is a tab or is neither below 32 nor 127. In
/// case of refusal the outside error's message comes back.
#[verifier::external_body]
fn check_header_value(value: &str) -> (r: Result<(), String>)
    ensures
        r.is_ok() == valid_header_value(value@),
{
    http::header::HeaderValue::from_str(value).map(|_| ()).map_err(|e| e.to_string())
}

/// `http::header::HeaderName::from_bytes`: accepts between 1 and 65535 bytes
/// as the name of a header if each of them is a letter, a digit or one of
/// ``!"#$%&'*+-.^_`|~``. In case of refusal the outside error's message comes
/// back.
#[verifier::external_body]
fn check_header_name(name: &str) -> (r: Result<(), String>)
    ensures
        r.is_ok() == valid_header_name(name@),
{
    http::header::HeaderName::from_bytes(name.as_bytes()).map(|_| ()).map_err(|e| e.to_string())
}

/// `FromStr` of `http::Uri`: parses a text as a URI. In case of refusal the
/// outside error's message comes back.
#[verifier::external_body]
fn check_uri(uri: &str) -> (r: Result<(), String>)
    ensures
        r.is_ok() == uri_parses(uri@),
{
    uri.parse::<http::Uri>().map(|_| ()).map_err(|e| e.to_string())
}

/// A byte that form encoding leaves as it is.
pub open spec fn form_byte_unchanged(b: u8) -> bool {
    ||| b == 42
    ||| b == 45
    ||| b == 46
    ||| 48 <= b <= 57
    ||| 65 <= b <= 90
    ||| b == 95
    ||| 97 <= b <= 122
}

/// The upper-case hexadecimal digit for `n`.
pub open spec fn upper_hex_digit(n: nat) -> char
    recommends
        n < 16,
{
    if n < 10 {
        ('0' as u8 + n) as u8 as char
    } else {
        ('A' as u8 + (n - 10)) as u8 as char
    }
}

/// One byte in form encoding: itself, `+` for a space, or `%` and two
/// upper-case hexadecimal digits.
pub open spec fn form_encode_byte(b: u8) -> Seq<char> {
    if form_byte_unchanged(b) {
        seq![b as char]
    } else if b == 32 {
        seq!['+']
    } else {
        seq!['%', upper_hex_digit(b as nat / 16), upper_hex_digit(b as nat % 16)]
    }
}

/// Bytes in form encoding.
pub open spec fn form_encode_bytes(bytes: Seq<u8>) -> Seq<char>
    decreases bytes.len(),
{
    if bytes.len() == 0 {
        Seq::empty()
    } else {
        form_encode_bytes(bytes.drop_last()) + form_encode_byte(bytes.last())
    }
}

/// Name/value pairs as an `application/x-www-form-urlencoded` query string:
/// `name=value` for each pair, joined by `&`, names and values in form
/// encoding of their UTF-8 bytes.
pub open spec fn form_pairs(pairs: Seq<Header>) -> Seq<char>
    decreases pairs.len(),
{
    if pairs.len() == 0 {
        Seq::empty()
    } else {
        let pair = form_encode_bytes(encode_utf8(pairs.last().0)) + seq!['='] + form_encode_bytes(
            encode_utf8(pairs.last().1),
        );
        if pairs.len() == 1 {
            pair
        } else {
            form_pairs(pairs.drop_last()) + seq!['&'] + pair
        }
    }
}

/// `serde_urlencoded::to_string` on a list of pairs of strings: the pairs as
/// an `application/x-www-form-urlencoded` query string. Pairs of strings are
/// always accepted, so there is always a result.
#[verifier::external_body]
fn url_encode(pairs: &Vec<(String, String)>) -> (r: Option<String>)
    ensures
        r.is_some(),
        r.unwrap()@ == form_pairs(header_views(pairs@)),
{
    serde_urlencoded::to_string(pairs).ok()
}

/// A query field as a mathematical value: its name, and its value if it has
/// one.
pub type Field = (Seq<char>, Option<Seq<char>>);

/// The views of a list of query fields.
pub open spec fn field_views(fields: Seq<(String, Option<String>)>) -> Seq<Field> {
    fields.map_values(
        |f: (String, Option<String>)|
            (
                f.0@,
                match f.1 {
                    Some(value) => Some(value@),
                    None => None,
                },
            ),
    )
}

/// The fields that have a value, in order, with their values.
pub open spec fn present(fields: Seq<Field>) -> Seq<Header>
    decreases fields.len(),
{
    if fields.len() == 0 {
        Seq::empty()
    } else {
        match fields.last().1 {
            Some(value) => present(fields.drop_last()).push((fields.last().0, value)),
            None => present(fields.drop_last()),
        }
    }
}

/// Of a single field, what is present: the field with its value if it has
/// one, and nothing if it has none.
pub open spec fn present_one(name: Seq<char>, value: Option<Seq<char>>) -> Seq<Header> {
    match value {
        Some(value) => seq![(name, value)],
        None => Seq::empty(),
    }
}

/// A list of one field holds what `present_one` says.
pub proof fn present_of_one(name: Seq<char>, value: Option<Seq<char>>)
    ensures
        present(seq![(name, value)]) == present_one(name, value),
{
    let fields = seq![(name, value)];
    assert(fields.drop_last() =~= Seq::<Field>::empty());
    assert(present(fields.drop_last()) =~= Seq::<Header>::empty());
    assert(present(fields) =~= present_one(name, value));
}

/// A list of the one field `name`, with or without a value.
pub fn single_field(name: &str, value: Option<String>) -> (fields: Vec<(String, Option<String>)>)
    ensures
        field_views(fields@) == seq![(name@, opt_view(value))],
        present(field_views(fields@)) == present_one(name@, opt_view(value)),
{
    let mut fields: Vec<(String, Option<String>)> = Vec::new();
    fields.push((name.to_owned(), value));
    assert(field_views(fields@) =~= seq![(name@, opt_view(value))]);
    proof {
        present_of_one(name@, opt_view(value));
    }
    fields
}

/// The address a staged request goes to: its base, and behind a `?` its
/// query, if it has one.
pub open spec fn full_uri(staged: Staged) -> Seq<char> {
    match staged.query {
        Some(query) => staged.uri_base + "?"@ + query,
        None => staged.uri_base,
    }
}

/// The headers a staged request goes out with: those that were set, and
/// behind them the content type of its body, if it has one.
pub open spec fn final_headers(staged: Staged) -> Seq<Header> {
    match staged.body {
        Some(body) => staged.headers.push(("content-type"@, body.kind.mime())),
        None => staged.headers,
    }
}

/// The request that a staged request becomes.
pub open spec fn finalized(staged: Staged) -> Wire {
    Wire {
        method: staged.method,
        uri: full_uri(staged),
        headers: final_headers(staged),
        body: match staged.body {
            Some(body) => body.data,
            None => Seq::empty(),
        },
    }
}

/// Every header has a valid name and a valid value.
pub open spec fn valid_headers(headers: Seq<Header>) -> bool {
    forall|i: int|
        0 <= i < headers.len() ==> valid_header_name((#[trigger] headers[i]).0)
            && valid_header_value(headers[i].1)
}

/// A request that can go on the wire: its address is a URI, and its headers
/// are valid.
pub open spec fn well_formed(wire: Wire) -> bool {
    uri_parses(wire.uri) && valid_headers(wire.headers)
}

/// A request under construction: transport-agnostic, built up step by step
/// and consumed once.
pub struct RequestBuilder<'a> {
    http_client: &'a HttpClient,
    uri_base: String,
    method: Method,
    query: Option<String>,
    body: Option<BodyType>,
    headers: Vec<(String, String)>,
}

impl<'a> View for RequestBuilder<'a> {
    type V = Staged;

    closed spec fn view(&self) -> Staged {
        Staged {
            client: *self.http_client,
            uri_base: self.uri_base@,
            method: self.method,
            query: match self.query {
                Some(query) => Some(query@),
                None => None,
            },
            body: match self.body {
                Some(body) => Some(body@),
                None => None,
            },
            headers: header_views(self.headers@),
        }
    }
}

fn check_headers(headers: &Vec<(String, String)>) -> (r: Result<(), String>)
    ensures
        r.is_ok() == valid_headers(header_views(headers@)),
{
    let mut i: usize = 0;
    while i < headers.len()
        invariant
            i <= headers.len(),
            valid_headers(header_views(headers@).subrange(0, i as int)),
        decreases headers.len() - i,
    {
        let ghost views = header_views(headers@);
        match check_header_name(headers[i].0.as_str()) {
            Ok(()) => {},
            Err(e) => {
                assert(!valid_header_name(views[i as int].0));
                return Err(e);
            },
        }
        match check_header_value(headers[i].1.as_str()) {
            Ok(()) => {},
            Err(e) => {
                assert(!valid_header_value(views[i as int].1));
                return Err(e);
            },
        }
        assert forall|j: int| 0 <= j < i + 1 implies valid_header_name(
            (#[trigger] views.subrange(0, i + 1)[j]).0,
        ) && valid_header_value(views.subrange(0, i + 1)[j].1) by {
            if j < i {
                assert(views.subrange(0, i + 1)[j] == views.subrange(0, i as int)[j]);
            }
        }
        i = i + 1;
    }
    assert(header_views(headers@).subrange(0, i as int) =~= header_views(headers@));
    Ok(())
}

impl<'a> RequestBuilder<'a> {
    /// Starts a GET request for `endpoint` over `http_client`.
    pub fn new(http_client: &'a HttpClient, endpoint: &str) -> (builder: RequestBuilder<'a>)
        ensures
            builder@ == fresh(*http_client, endpoint@),
    {
        let builder = RequestBuilder {
            http_client,
            uri_base: http_client.uri(endpoint),
            method: Method::Get,
            query: None,
            body: None,
            headers: Vec::new(),
        };
        assert(header_views(builder.headers@) =~= Seq::<Header>::empty());
        builder
    }

    /// Sets the method.
    pub fn method(self, method: Method) -> (builder: RequestBuilder<'a>)
        ensures
            builder@ == (Staged { method, ..self@ }),
    {
        let mut builder = self;
        builder.method = method;
        builder
    }

    /// Adds a header behind those already set. Whether name and value are
    /// fit for a header is decided when the request is finalised.
    pub fn header(self, key: &str, value: &str) -> (builder: RequestBuilder<'a>)
        ensures
            builder@ == (Staged { headers: self@.headers.push((key@, value@)), ..self@ }),
    {
        let mut builder = self;
        let ghost before = builder.headers@;
        builder.headers.push((key.to_owned(), value.to_owned()));
        assert(header_views(builder.headers@) =~= header_views(before).push((key@, value@)));
        builder
    }

    /// Sets the query string from a list of fields, replacing any earlier
    /// one. A field without a value is left out entirely. The others are
    /// written as `name=value`, URL-encoded and joined by `&`.
    pub fn query(self, fields: Vec<(String, Option<String>)>) -> (builder: RequestBuilder<'a>)
        ensures
            builder@ == (Staged {
                query: Some(form_pairs(present(field_views(fields@)))),
                ..self@
            }),
    {
        let mut pairs: Vec<(String, String)> = Vec::new();
        let ghost all = field_views(fields@);
        assert(header_views(pairs@) =~= present(all.subrange(0, 0)));
        let mut i: usize = 0;
        while i < fields.len()
            invariant
                i <= fields.len(),
                all == field_views(fields@),
                header_views(pairs@) == present(all.subrange(0, i as int)),
            decreases fields.len() - i,
        {
            let ghost before = pairs@;
            assert(all.subrange(0, i + 1).drop_last() =~= all.subrange(0, i as int));
            assert(all.subrange(0, i + 1).last() == all[i as int]);
            match &fields[i].1 {
                Some(value) => {
                    pairs.push((fields[i].0.clone(), value.clone()));
                    assert(header_views(pairs@) =~= header_views(before).push(
                        (fields[i as int].0@, value@),
                    ));
                },
                None => {},
            }
            i = i + 1;
        }
        assert(all.subrange(0, i as int) =~= all);
        let mut builder = self;
        builder.query = Some(url_encode(&pairs).unwrap());
        builder
    }

    /// Attaches a JSON payload, given as its bytes, replacing any earlier
    /// payload.
    pub fn json_body(self, data: Vec<u8>) -> (builder: RequestBuilder<'a>)
        ensures
            builder@ == (Staged {
                body: Some(Body { kind: BodyKind::Json, data: data@ }),
                ..self@
            }),
    {
        let mut builder = self;
        builder.body = Some(BodyType::json(data));
        builder
    }

    /// Attaches a tar archive as payload, replacing any earlier payload.
    pub fn tar_body(self, data: Vec<u8>) -> (builder: RequestBuilder<'a>)
        ensures
            builder@ == (Staged {
                body: Some(Body { kind: BodyKind::Tar, data: data@ }),
                ..self@
            }),
    {
        let mut builder = self;
        builder.body = Some(BodyType::tar(data));
        builder
    }

    /// Asks for the connection to be handed over as a raw byte stream: adds
    /// the headers `connection: Upgrade` and `upgrade: tcp`.
    pub fn upgrade(self) -> (builder: RequestBuilder<'a>)
        ensures
            builder@ == (Staged {
                headers: self@.headers.push(("connection"@, "Upgrade"@)).push(
                    ("upgrade"@, "tcp"@),
                ),
                ..self@
            }),
    {
        self.header("connection", "Upgrade").header("upgrade", "tcp")
    }

    /// Finalises the request, and hands it out with the client it is to be
    /// sent through.
    ///
    /// The address is the base address, followed by `?` and the query if
    /// one was set. A payload brings its content type as the last header.
    /// Fails with `Error::Http` exactly if the address is no URI or a
    /// header's name or value is not fit for a header.
    pub fn into_request(self) -> (r: Result<(Request, &'a HttpClient), Error>)
        ensures
            match r {
                Ok((request, client)) => {
                    &&& well_formed(finalized(self@))
                    &&& request@ == finalized(self@)
                    &&& *client == self@.client
                },
                Err(e) => !well_formed(finalized(self@)) && e is Http,
            },
    {
        let uri = match &self.query {
            Some(query) => self.uri_base.clone().concat("?").concat(query.as_str()),
            None => self.uri_base.clone(),
        };
        let client = self.http_client;
        let method = self.method;
        let mut headers = self.headers;
        let ghost staged = self@;
        let body = match self.body {
            Some(body_type) => {
                let ghost before = headers@;
                headers.push((String::from_str("content-type"), body_type.mime()));
                assert(header_views(headers@) =~= header_views(before).push(
                    ("content-type"@, body_type@.kind.mime()),
                ));
                body_type.into_data()
            },
            None => Vec::new(),
        };
        match check_uri(uri.as_str()) {
            Ok(()) => {},
            Err(cause) => {
                return Err(Error::Http(cause));
            },
        }
        match check_headers(&headers) {
            Ok(()) => {},
            Err(cause) => {
                return Err(Error::Http(cause));
            },
        }
        let request = Request { method, uri, headers, body };
        assert(request@.body =~= finalized(staged).body);
        Ok((request, client))
    }
}

/// A finalised request announces its payload, and only its own.
///
/// A payload is of exactly one kind, JSON or tar. If one is attached, the
/// last header of the finished request is the content type of that kind,
/// which is not the content type of the other kind, and the bytes on the
/// wire are the payload's. Without a payload, finalisation adds no header.
pub proof fn content_type_matches_body(staged: Staged)
    ensures
        match staged.body {
            Some(body) => {
                let wire = finalized(staged);
                &&& wire.headers.len() == staged.headers.len() + 1
                &&& wire.headers.last() == ("content-type"@, body.kind.mime())
                &&& (body.kind == BodyKind::Json <==> wire.headers.last().1 == "application/json"@)
                &&& (body.kind == BodyKind::Tar <==> wire.headers.last().1 == "application/x-tar"@)
                &&& wire.body == body.data
            },
            None => finalized(staged).headers == staged.headers,
        },
{
    crate::http_client::mime_tells_kind(BodyKind::Json, BodyKind::Tar);
}

} // verus!
