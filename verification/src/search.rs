//! Searching cases by a rendered query: the request builder that folds
//! a query into its wire string, and the response pass-through.
//!
//! A search response is handed back as JSON: the caller inspects the
//! payload itself. Only the error split is decided here: a non-success
//! status always becomes a service error carrying the body.

use crate::columns::Column;
use crate::json::JsonValue;
use crate::list_cases::cols_value_ok;
use crate::query::{spec_render_query, IntoQuery, Query};
use crate::{FogbugzApi, ResponseError};
use vstd::prelude::*;

verus! {

/// One case-history entry as a search returns it.
#[derive(Debug, PartialEq)]
pub struct Event {
    pub description: String,
    pub person_id: u64,
    pub person: String,
    pub content: String,
}

/// A found case with its history entries.
#[derive(Debug, PartialEq)]
pub struct CaseDetails {
    pub ticket_number: u64,
    pub title: String,
    pub events: Vec<Event>,
}

/// A ready search request: the rendered query string, the selected
/// columns, and the token the body carries.
#[derive(Debug)]
pub struct SearchRequest {
    pub query: String,
    pub cols: Option<Vec<String>>,
    pub token: String,
    pub api: FogbugzApi,
}

/// Builder for [`SearchRequest`]; the query and the API handle must be
/// supplied before `build`.
#[derive(Debug)]
pub struct SearchRequestBuilder {
    query: Option<Query>,
    cols: Option<Vec<String>>,
    api: Option<FogbugzApi>,
}

/// A required field was missing when a [`SearchRequestBuilder`] was
/// finalized.
#[derive(Debug, Clone, Copy, PartialEq, Eq, Structural)]
pub enum SearchRequestBuilderError {
    QueryNotSpecified,
    ApiNotSpecified,
}

/// The columns a search selects when the caller names none.
pub open spec fn default_search_columns() -> Seq<Seq<char>> {
    seq!["ixBug"@, "sTitle"@]
}

impl SearchRequestBuilder {
    pub closed spec fn spec_query(&self) -> Option<Query> {
        self.query
    }

    pub closed spec fn spec_cols(&self) -> Option<Seq<Seq<char>>> {
        match self.cols {
            Some(cs) => Some(cs@.map_values(|s: String| s@)),
            None => None,
        }
    }

    pub closed spec fn spec_api(&self) -> Option<FogbugzApi> {
        self.api
    }

    /// A fresh builder selects the default column set.
    pub fn new() -> (r: Self)
        ensures
            r.spec_query() is None,
            r.spec_api() is None,
            r.spec_cols() == Some(default_search_columns()),
    {
        let cols: Vec<String> = vec!["ixBug".to_owned(), "sTitle".to_owned()];
        let b = SearchRequestBuilder { query: None, cols: Some(cols), api: None };
        proof {
            assert(b.spec_cols() matches Some(cs) && cs =~= default_search_columns());
        }
        b
    }

    /// Set the query, collapsing a builder when one is handed in.
    pub fn query<Q: IntoQuery>(self, query: Q) -> (r: Self)
        ensures
            r.spec_query() == Some(query.spec_into_query()),
            r.spec_cols() == self.spec_cols(),
            r.spec_api() == self.spec_api(),
    {
        let mut b = self;
        b.query = Some(query.into_query());
        b
    }

    /// Replace the column selection.
    pub fn cols(self, cols: Vec<Column>) -> (r: Self)
        ensures
            r.spec_cols() == Some(cols@.map_values(|c: Column| c.spec_wire_name())),
            r.spec_query() == self.spec_query(),
            r.spec_api() == self.spec_api(),
    {
        let mut names: Vec<String> = Vec::new();
        let n = cols.len();
        let mut i: usize = 0;
        while i < n
            invariant
                n == cols@.len(),
                0 <= i <= n,
                names@.len() == i,
                forall|k: int| 0 <= k < i ==> (#[trigger] names@[k])@ == cols@[k].spec_wire_name(),
            decreases n - i,
        {
            names.push(cols[i].wire_name().to_owned());
            i += 1;
        }
        proof {
            assert(names@.map_values(|s: String| s@) =~= cols@.map_values(
                |c: Column| c.spec_wire_name(),
            ));
        }
        let mut b = self;
        b.cols = Some(names);
        b
    }

    /// Append one column to the selection, starting one when none is
    /// selected yet.
    pub fn add_col(self, col: Column) -> (r: Self)
        ensures
            match self.spec_cols() {
                Some(cs) => r.spec_cols() == Some(cs.push(col.spec_wire_name())),
                None => r.spec_cols() == Some(seq![col.spec_wire_name()]),
            },
            r.spec_query() == self.spec_query(),
            r.spec_api() == self.spec_api(),
    {
        let mut b = self;
        match b.cols {
            Some(ref mut cs) => {
                cs.push(col.wire_name().to_owned());
                proof {
                    assert(b.spec_cols() matches Some(ns) && ns =~= self.spec_cols()->Some_0.push(
                        col.spec_wire_name(),
                    ));
                }
            },
            None => {
                let mut cs: Vec<String> = Vec::new();
                cs.push(col.wire_name().to_owned());
                b.cols = Some(cs);
                proof {
                    assert(b.spec_cols() matches Some(ns) && ns =~= seq![col.spec_wire_name()]);
                }
            },
        }
        b
    }

    pub fn api(self, api: FogbugzApi) -> (r: Self)
        ensures
            r.spec_api() == Some(api),
            r.spec_query() == self.spec_query(),
            r.spec_cols() == self.spec_cols(),
    {
        let mut b = self;
        b.api = Some(api);
        b
    }

    /// Finalize: the query is required first, then the API handle. The
    /// query is rendered to its wire string here; the token is taken
    /// from the API handle's key.
    pub fn build(self) -> (r: Result<SearchRequest, SearchRequestBuilderError>)
        ensures
            match r {
                Ok(req) => {
                    &&& self.spec_query() matches Some(q) && req.query@ == spec_render_query(q)
                    &&& (match (self.spec_cols(), req.cols) {
                        (Some(sv), Some(rv)) => rv@.map_values(|s: String| s@) == sv,
                        (None, None) => true,
                        _ => false,
                    })
                    &&& self.spec_api() == Some(req.api)
                    &&& req.token == req.api.api_key
                },
                Err(e) => (e == SearchRequestBuilderError::QueryNotSpecified && self.spec_query()
                    is None) || (e == SearchRequestBuilderError::ApiNotSpecified
                    && self.spec_query() is Some && self.spec_api() is None),
            },
    {
        let query = match self.query {
            Some(q) => q,
            None => {
                return Err(SearchRequestBuilderError::QueryNotSpecified);
            },
        };
        let api = match self.api {
            Some(a) => a,
            None => {
                return Err(SearchRequestBuilderError::ApiNotSpecified);
            },
        };
        let token = api.api_key.clone();
        Ok(SearchRequest { query: query.render(), cols: self.cols, token, api })
    }
}

impl SearchRequest {
    pub fn builder() -> (r: SearchRequestBuilder)
        ensures
            r.spec_query() is None,
            r.spec_api() is None,
            r.spec_cols() == Some(default_search_columns()),
    {
        SearchRequestBuilder::new()
    }

    /// The JSON body this request sends: the rendered query under `q`,
    /// the column selection when one is present, and the token.
    pub fn body_json(&self) -> (r: JsonValue)
        ensures
            r matches JsonValue::Object(fs) && ({
                let fields = fs@;
                let n_cols: int = if self.cols is Some {
                    1int
                } else {
                    0int
                };
                &&& fields.len() == 2 + n_cols
                &&& fields[0].0@ == "q"@ && fields[0].1 == JsonValue::Str(self.query)
                &&& (self.cols matches Some(cols) ==> fields[1].0@ == "cols"@ && cols_value_ok(
                    fields[1].1,
                    cols@,
                ))
                &&& fields[1 + n_cols].0@ == "token"@ && fields[1 + n_cols].1 == JsonValue::Str(
                    self.token,
                )
            }),
    {
        let mut fields: Vec<(String, JsonValue)> = Vec::new();
        fields.push(("q".to_owned(), JsonValue::Str(self.query.clone())));
        if let Some(cols) = &self.cols {
            let mut items: Vec<JsonValue> = Vec::new();
            let n = cols.len();
            let mut i: usize = 0;
            while i < n
                invariant
                    n == cols@.len(),
                    0 <= i <= n,
                    items@.len() == i,
                    forall|k: int| 0 <= k < i ==> #[trigger] items@[k] == JsonValue::Str(cols@[k]),
                decreases n - i,
            {
                items.push(JsonValue::Str(cols[i].clone()));
                i += 1;
            }
            fields.push(("cols".to_owned(), JsonValue::Array(items)));
        }
        fields.push(("token".to_owned(), JsonValue::Str(self.token.clone())));
        JsonValue::Object(fields)
    }
}

/// Split a search response: a non-success status always becomes a
/// service error carrying the parsed body; a success hands the payload
/// back untouched for the caller to inspect.
pub fn search_response(json: JsonValue, success: bool) -> (r: Result<JsonValue, ResponseError>)
    ensures
        !success ==> r == Err::<JsonValue, ResponseError>(ResponseError::FogbugzError(json)),
        success ==> r == Ok::<JsonValue, ResponseError>(json),
{
    if success {
        Ok(json)
    } else {
        Err(ResponseError::FogbugzError(json))
    }
}

} // verus!
