//! Listing cases by filter: the summary record, its decoder over the
//! whole `data.cases` array, and the request builder.
//!
//! Unlike the single-case path, the listing decodes the array as it
//! came: only the single-case fetch is known to need its events array
//! sanitized.

use crate::enums::Column;
use crate::case_details::column_names;
use crate::json::JsonValue;
use crate::{DecodeError, FogbugzApi, ResponseError};
use vstd::prelude::*;

verus! {

/// One case summary from a listing.
#[derive(Debug, PartialEq)]
pub struct Case {
    pub case_id: u64,
    pub project_id: u64,
    pub project: String,
    pub titile: String,
}

/// The first decode failure in a case-summary object, if any.
pub open spec fn spec_case_summary_check(v: JsonValue) -> Option<DecodeError> {
    if !(v is Object) {
        Some(DecodeError::WrongType("cases"))
    } else if v.spec_get("ixBug"@) is None {
        Some(DecodeError::MissingField("ixBug"))
    } else if v.spec_index("ixBug"@).spec_as_u64() is None {
        Some(DecodeError::WrongType("ixBug"))
    } else if v.spec_get("ixProject"@) is None {
        Some(DecodeError::MissingField("ixProject"))
    } else if v.spec_index("ixProject"@).spec_as_u64() is None {
        Some(DecodeError::WrongType("ixProject"))
    } else if v.spec_get("sProject"@) is None {
        Some(DecodeError::MissingField("sProject"))
    } else if !(v.spec_index("sProject"@) is Str) {
        Some(DecodeError::WrongType("sProject"))
    } else if v.spec_get("sTitle"@) is None {
        Some(DecodeError::MissingField("sTitle"))
    } else if !(v.spec_index("sTitle"@) is Str) {
        Some(DecodeError::WrongType("sTitle"))
    } else {
        None
    }
}

/// Whether `c` is the summary that `v` decodes to.
pub open spec fn case_summary_matches(c: Case, v: JsonValue) -> bool {
    &&& v.spec_index("ixBug"@).spec_as_u64() == Some(c.case_id)
    &&& v.spec_index("ixProject"@).spec_as_u64() == Some(c.project_id)
    &&& v.spec_get("sProject"@) == Some(JsonValue::Str(c.project))
    &&& v.spec_get("sTitle"@) == Some(JsonValue::Str(c.titile))
}

/// Decode one case-summary object.
pub fn decode_case_summary(v: &JsonValue) -> (r: Result<Case, DecodeError>)
    ensures
        match spec_case_summary_check(*v) {
            Some(e) => r == Err::<Case, DecodeError>(e),
            None => r matches Ok(c) && case_summary_matches(c, *v),
        },
{
    if !v.is_object() {
        return Err(DecodeError::WrongType("cases"));
    }
    let case_id = match v.get("ixBug") {
        None => {
            return Err(DecodeError::MissingField("ixBug"));
        },
        Some(x) => match x.as_u64() {
            None => {
                return Err(DecodeError::WrongType("ixBug"));
            },
            Some(id) => id,
        },
    };
    let project_id = match v.get("ixProject") {
        None => {
            return Err(DecodeError::MissingField("ixProject"));
        },
        Some(x) => match x.as_u64() {
            None => {
                return Err(DecodeError::WrongType("ixProject"));
            },
            Some(id) => id,
        },
    };
    let project = match v.get("sProject") {
        None => {
            return Err(DecodeError::MissingField("sProject"));
        },
        Some(x) => match x.as_str() {
            None => {
                return Err(DecodeError::WrongType("sProject"));
            },
            Some(s) => s.clone(),
        },
    };
    let titile = match v.get("sTitle") {
        None => {
            return Err(DecodeError::MissingField("sTitle"));
        },
        Some(x) => match x.as_str() {
            None => {
                return Err(DecodeError::WrongType("sTitle"));
            },
            Some(s) => s.clone(),
        },
    };
    Ok(Case { case_id, project_id, project, titile })
}

/// The first decode failure in the case-summary array, in order.
pub open spec fn spec_cases_check(items: Seq<JsonValue>) -> Option<DecodeError>
    decreases items.len(),
{
    if items.len() == 0 {
        None
    } else {
        match spec_case_summary_check(items[0]) {
            Some(e) => Some(e),
            None => spec_cases_check(items.drop_first()),
        }
    }
}

/// Whether `cs` is what the case-summary array decodes to.
pub open spec fn cases_match(cs: Seq<Case>, items: Seq<JsonValue>) -> bool {
    cs.len() == items.len() && forall|i: int|
        0 <= i < items.len() ==> case_summary_matches(#[trigger] cs[i], items[i])
}

/// Decode the whole case-summary array; no per-element filtering is
/// applied here.
pub fn decode_cases(items: &Vec<JsonValue>) -> (r: Result<Vec<Case>, DecodeError>)
    ensures
        match spec_cases_check(items@) {
            Some(e) => r == Err::<Vec<Case>, DecodeError>(e),
            None => r matches Ok(cs) && cases_match(cs@, items@),
        },
{
    let mut out: Vec<Case> = Vec::new();
    let n = items.len();
    let mut i: usize = 0;
    proof {
        assert(items@.skip(0) =~= items@);
    }
    while i < n
        invariant
            n == items@.len(),
            0 <= i <= n,
            out@.len() == i,
            spec_cases_check(items@.skip(i as int)) == spec_cases_check(items@),
            forall|k: int|
                0 <= k < i ==> case_summary_matches(#[trigger] out@[k], items@[k])
                    && spec_case_summary_check(items@[k]) is None,
        decreases n - i,
    {
        proof {
            assert(items@.skip(i as int)[0] == items@[i as int]);
            assert(items@.skip(i as int).drop_first() =~= items@.skip(i + 1));
        }
        match decode_case_summary(&items[i]) {
            Ok(c) => {
                out.push(c);
            },
            Err(e) => {
                return Err(e);
            },
        }
        i += 1;
    }
    proof {
        assert(items@.skip(n as int).len() == 0);
    }
    Ok(out)
}

/// The array a listing response envelope carries under `data.cases`.
pub open spec fn spec_cases_payload(json: JsonValue) -> JsonValue {
    json.spec_index("data"@).spec_index("cases"@)
}

/// Decode a listing response.
///
/// A non-success response always becomes a service error carrying the
/// parsed body. On success `data.cases` must be an array, decoded
/// element by element.
pub fn list_cases_response(json: JsonValue, success: bool) -> (r: Result<Vec<Case>, ResponseError>)
    ensures
        !success ==> r == Err::<Vec<Case>, ResponseError>(ResponseError::FogbugzError(json)),
        success ==> ({
            let payload = spec_cases_payload(json);
            if !(payload is Array) {
                r == Err::<Vec<Case>, ResponseError>(
                    ResponseError::JsonError(DecodeError::WrongType("cases")),
                )
            } else {
                match spec_cases_check(payload->Array_0@) {
                    Some(e) => r == Err::<Vec<Case>, ResponseError>(ResponseError::JsonError(e)),
                    None => r matches Ok(cs) && cases_match(cs@, payload->Array_0@),
                }
            }
        }),
{
    if !success {
        return Err(ResponseError::FogbugzError(json));
    }
    let payload = json.take_index("data").take_index("cases");
    match payload {
        JsonValue::Array(items) => match decode_cases(&items) {
            Ok(cs) => Ok(cs),
            Err(e) => Err(ResponseError::JsonError(e)),
        },
        _ => Err(ResponseError::JsonError(DecodeError::WrongType("cases"))),
    }
}

/// Whether a JSON value is the array of the given column strings.
pub open spec fn cols_value_ok(v: JsonValue, cols: Seq<String>) -> bool {
    v matches JsonValue::Array(items) && items@.len() == cols.len() && forall|k: int|
        0 <= k < cols.len() ==> #[trigger] items@[k] == JsonValue::Str(cols[k])
}

/// A ready listing request.
#[derive(Debug)]
pub struct ListCasesRequest {
    pub filter: Option<String>,
    pub cols: Option<Vec<String>>,
    pub max: Option<u32>,
    pub token: String,
    pub api: FogbugzApi,
}

/// Builder for [`ListCasesRequest`]; only the API handle is required.
#[derive(Debug)]
pub struct ListCasesRequestBuilder {
    filter: Option<String>,
    cols: Option<Vec<String>>,
    max: Option<u32>,
    api: Option<FogbugzApi>,
}

/// A required field was missing when a [`ListCasesRequestBuilder`] was
/// finalized.
#[derive(Debug, Clone, Copy, PartialEq, Eq, Structural)]
pub enum ListCasesRequestBuilderError {
    ApiNotSpecified,
}

/// The columns a listing selects when the caller names none.
pub open spec fn default_list_columns() -> Seq<Seq<char>> {
    seq!["ixBug"@, "sTitle"@, "sProject"@, "ixProject"@]
}

impl ListCasesRequestBuilder {
    pub closed spec fn spec_filter(&self) -> Option<Seq<char>> {
        match self.filter {
            Some(f) => Some(f@),
            None => None,
        }
    }

    pub closed spec fn spec_cols(&self) -> Option<Seq<Seq<char>>> {
        match self.cols {
            Some(cs) => Some(cs@.map_values(|s: String| s@)),
            None => None,
        }
    }

    pub closed spec fn spec_max(&self) -> Option<u32> {
        self.max
    }

    pub closed spec fn spec_api(&self) -> Option<FogbugzApi> {
        self.api
    }

    /// A fresh builder selects the default column set.
    pub fn new() -> (r: Self)
        ensures
            r.spec_filter() is None,
            r.spec_max() is None,
            r.spec_api() is None,
            r.spec_cols() == Some(default_list_columns()),
    {
        let cols: Vec<String> = vec![
            "ixBug".to_owned(),
            "sTitle".to_owned(),
            "sProject".to_owned(),
            "ixProject".to_owned(),
        ];
        let b = ListCasesRequestBuilder { filter: None, cols: Some(cols), max: None, api: None };
        proof {
            assert(b.spec_cols() matches Some(cs) && cs =~= default_list_columns());
        }
        b
    }

    pub fn filter(self, filter: &str) -> (r: Self)
        ensures
            r.spec_filter() == Some(filter@),
            r.spec_cols() == self.spec_cols(),
            r.spec_max() == self.spec_max(),
            r.spec_api() == self.spec_api(),
    {
        let mut b = self;
        b.filter = Some(filter.to_owned());
        b
    }

    /// Replace the column selection.
    pub fn cols(self, cols: Vec<Column>) -> (r: Self)
        ensures
            r.spec_cols() == Some(cols@.map_values(|c: Column| c.spec_wire_name())),
            r.spec_filter() == self.spec_filter(),
            r.spec_max() == self.spec_max(),
            r.spec_api() == self.spec_api(),
    {
        let mut b = self;
        b.cols = Some(column_names(&cols));
        b
    }

    /// Append one column to the selection, starting one when none is
    /// selected yet.
    pub fn add_col(self, col: Column) -> (r: Self)
        ensures
            match self.spec_cols() {
                Some(cs) => r.spec_cols() == Some(cs.push(col.spec_wire_name())),
                None => r.spec_cols() == Some(seq![col.spec_wire_name()]),
            },
            r.spec_filter() == self.spec_filter(),
            r.spec_max() == self.spec_max(),
            r.spec_api() == self.spec_api(),
    {
        let mut b = self;
        match b.cols {
            Some(ref mut cs) => {
                cs.push(col.wire_name().to_owned());
                proof {
                    assert(b.spec_cols() matches Some(ns) && ns =~= self.spec_cols()->Some_0.push(
                        col.spec_wire_name(),
                    ));
                }
            },
            None => {
                let mut cs: Vec<String> = Vec::new();
                cs.push(col.wire_name().to_owned());
                b.cols = Some(cs);
                proof {
                    assert(b.spec_cols() matches Some(ns) && ns =~= seq![col.spec_wire_name()]);
                }
            },
        }
        b
    }

    pub fn max(self, max: u32) -> (r: Self)
        ensures
            r.spec_max() == Some(max),
            r.spec_filter() == self.spec_filter(),
            r.spec_cols() == self.spec_cols(),
            r.spec_api() == self.spec_api(),
    {
        let mut b = self;
        b.max = Some(max);
        b
    }

    pub fn api(self, api: FogbugzApi) -> (r: Self)
        ensures
            r.spec_api() == Some(api),
            r.spec_filter() == self.spec_filter(),
            r.spec_cols() == self.spec_cols(),
            r.spec_max() == self.spec_max(),
    {
        let mut b = self;
        b.api = Some(api);
        b
    }

    /// Finalize; only the API handle is required. The token is taken
    /// from the API handle's key.
    pub fn build(self) -> (r: Result<ListCasesRequest, ListCasesRequestBuilderError>)
        ensures
            match r {
                Ok(req) => {
                    &&& (match (self.spec_filter(), req.filter) {
                        (Some(sv), Some(rv)) => rv@ == sv,
                        (None, None) => true,
                        _ => false,
                    })
                    &&& (match (self.spec_cols(), req.cols) {
                        (Some(sv), Some(rv)) => rv@.map_values(|s: String| s@) == sv,
                        (None, None) => true,
                        _ => false,
                    })
                    &&& self.spec_max() == req.max
                    &&& self.spec_api() == Some(req.api)
                    &&& req.token == req.api.api_key
                },
                Err(e) => e == ListCasesRequestBuilderError::ApiNotSpecified && self.spec_api()
                    is None,
            },
    {
        let api = match self.api {
            Some(a) => a,
            None => {
                return Err(ListCasesRequestBuilderError::ApiNotSpecified);
            },
        };
        let token = api.api_key.clone();
        Ok(ListCasesRequest { filter: self.filter, cols: self.cols, max: self.max, token, api })
    }
}

impl ListCasesRequest {
    pub fn builder() -> (r: ListCasesRequestBuilder)
        ensures
            r.spec_filter() is None,
            r.spec_max() is None,
            r.spec_api() is None,
            r.spec_cols() == Some(default_list_columns()),
    {
        ListCasesRequestBuilder::new()
    }

    /// The JSON body this request sends: `sFilter`, `cols` and `max`
    /// when present, in that order, then the token.
    pub fn body_json(&self) -> (r: JsonValue)
        ensures
            r matches JsonValue::Object(fs) && ({
                let fields = fs@;
                let n_filter: int = if self.filter is Some {
                    1int
                } else {
                    0int
                };
                let n_cols: int = if self.cols is Some {
                    1int
                } else {
                    0int
                };
                let n_max: int = if self.max is Some {
                    1int
                } else {
                    0int
                };
                &&& fields.len() == 1 + n_filter + n_cols + n_max
                &&& (self.filter matches Some(f) ==> fields[0].0@ == "sFilter"@ && fields[0].1
                    == JsonValue::Str(f))
                &&& (self.cols matches Some(cols) ==> fields[n_filter].0@ == "cols"@
                    && cols_value_ok(fields[n_filter].1, cols@))
                &&& (self.max matches Some(m) ==> fields[n_filter + n_cols].0@ == "max"@ && fields[
                    n_filter + n_cols
                ].1 == JsonValue::UInt(m as u64))
                &&& fields[n_filter + n_cols + n_max].0@ == "token"@ && fields[n_filter + n_cols
                    + n_max].1 == JsonValue::Str(self.token)
            }),
    {
        let mut fields: Vec<(String, JsonValue)> = Vec::new();
        if let Some(f) = &self.filter {
            fields.push(("sFilter".to_owned(), JsonValue::Str(f.clone())));
        }
        if let Some(cols) = &self.cols {
            let mut items: Vec<JsonValue> = Vec::new();
            let n = cols.len();
            let mut i: usize = 0;
            while i < n
                invariant
                    n == cols@.len(),
                    0 <= i <= n,
                    items@.len() == i,
                    forall|k: int| 0 <= k < i ==> #[trigger] items@[k] == JsonValue::Str(cols@[k]),
                decreases n - i,
            {
                items.push(JsonValue::Str(cols[i].clone()));
                i += 1;
            }
            fields.push(("cols".to_owned(), JsonValue::Array(items)));
        }
        if let Some(m) = self.max {
            fields.push(("max".to_owned(), JsonValue::UInt(m as u64)));
        }
        fields.push(("token".to_owned(), JsonValue::Str(self.token.clone())));
        JsonValue::Object(fields)
    }
}

} // verus!
