//! The request that lists containers.

use crate::http_client::request::{
    field_views, form_pairs, fresh, present, Field, RequestBuilder, Staged,
};
use crate::http_client::HttpClient;
use crate::text::{decimal, decimal_string, opt_view};
use vstd::prelude::*;
use vstd::string::StringExecFns;

verus! {

/// What a listing can be narrowed by.
#[derive(Debug, Clone)]
pub struct Query {
    /// Stopped containers too.
    pub all: bool,
    /// At most so many containers.
    pub limit: Option<u32>,
    /// Only containers created since this one.
    pub since: Option<String>,
    /// Only containers created before this one.
    pub before: Option<String>,
    /// With their sizes.
    pub size: bool,
}

/// A listing's query as a mathematical value.
pub struct Narrowing {
    pub all: bool,
    pub limit: Option<u32>,
    pub since: Option<Seq<char>>,
    pub before: Option<Seq<char>>,
    pub size: bool,
}

impl View for Query {
    type V = Narrowing;

    open spec fn view(&self) -> Narrowing {
        Narrowing {
            all: self.all,
            limit: self.limit,
            since: opt_view(self.since),
            before: opt_view(self.before),
            size: self.size,
        }
    }
}

/// The value of a switch in a query: `true` when it is on, and no value at
/// all when it is off.
pub open spec fn switch(on: bool) -> Option<Seq<char>> {
    if on {
        Some("true"@)
    } else {
        None
    }
}

impl Query {
    /// The query that narrows a listing by nothing.
    pub open spec fn unset() -> Narrowing {
        Narrowing { all: false, limit: None, since: None, before: None, size: false }
    }

    /// The fields of a query, in the order in which they are written.
    pub open spec fn fields_of(query: Narrowing) -> Seq<Field> {
        seq![
            ("all"@, switch(query.all)),
            (
                "limit"@,
                match query.limit {
                    Some(limit) => Some(decimal(limit as nat)),
                    None => None,
                },
            ),
            ("since"@, query.since),
            ("before"@, query.before),
            ("size"@, switch(query.size)),
        ]
    }

    /// The fields of the query: a switch that is off and a choice that was
    /// not made have no value.
    pub fn fields(&self) -> (fields: Vec<(String, Option<String>)>)
        ensures
            field_views(fields@) == Query::fields_of(self@),
    {
        let all = if self.all {
            Some(String::from_str("true"))
        } else {
            None
        };
        let size = if self.size {
            Some(String::from_str("true"))
        } else {
            None
        };
        let limit = match self.limit {
            Some(limit) => Some(decimal_string(limit as u64)),
            None => None,
        };
        let mut fields: Vec<(String, Option<String>)> = Vec::new();
        fields.push((String::from_str("all"), all));
        fields.push((String::from_str("limit"), limit));
        fields.push((String::from_str("since"), self.since.clone()));
        fields.push((String::from_str("before"), self.before.clone()));
        fields.push((String::from_str("size"), size));
        assert(field_views(fields@) =~= Query::fields_of(self@));
        fields
    }
}

/// Builder of the request that lists containers.
pub struct Builder<'a> {
    http_client: &'a HttpClient,
    query: Query,
}

impl<'a> View for Builder<'a> {
    type V = Narrowing;

    closed spec fn view(&self) -> Narrowing {
        self.query@
    }
}

impl<'a> Builder<'a> {
    /// The client that the request goes through.
    pub closed spec fn client(&self) -> HttpClient {
        *self.http_client
    }

    /// A builder for a listing that is narrowed by nothing.
    pub fn new(http_client: &'a HttpClient) -> (builder: Builder<'a>)
        ensures
            builder.client() == *http_client,
            builder@ == Query::unset(),
    {
        Builder {
            http_client,
            query: Query { all: false, limit: None, since: None, before: None, size: false },
        }
    }

    /// The request: a GET for the containers, with the query's fields.
    pub fn send(self) -> (request: RequestBuilder<'a>)
        ensures
            request@ == (Staged {
                query: Some(form_pairs(present(Query::fields_of(self@)))),
                ..fresh(self.client(), "/containers/json"@)
            }),
    {
        let fields = self.query.fields();
        self.http_client.get("/containers/json").query(fields)
    }
}

} // verus!
