//! A typed client surface over the FogBugz ticketing-service HTTP API.
//!
//! The crate covers the request/response translation layer: the date and
//! date-range grammar used inside queries, the query expression model and
//! its rendering to the wire query syntax, the column registry, the
//! numeric-code decoders for response fields, and the response normalizer
//! that tolerates the service's inconsistent JSON shapes. The HTTP
//! transport itself is a collaborator that callers supply.

pub mod case_details;
pub mod columns;
pub mod date;
pub mod decimal;
pub mod enums;
pub mod export;
pub mod json;
pub mod list_cases;
pub mod list_intervals;
pub mod query;
pub mod search;

use crate::json::JsonValue;
use vstd::prelude::*;

verus! {

/// Why decoding a response into a typed record failed: the JSON does
/// not match the expected shape, or a numeric code has no table entry.
#[derive(Debug, PartialEq)]
pub enum DecodeError {
    /// A required member is absent (the wire name is carried).
    MissingField(&'static str),
    /// A member is present with the wrong JSON type.
    WrongType(&'static str),
    /// A timestamp member does not parse as a UTC date-time.
    BadTimestamp,
    /// A date member does not parse as a date literal.
    BadDate(date::ParseError),
    /// A status code outside the decoding table.
    UnknownStatus(i64),
    /// A category code outside the decoding table.
    UnknownCategory(i64),
    /// A priority code outside the decoding table.
    UnknownPriority(i64),
}

/// What a request can come back as when it is not the typed record the
/// caller asked for: a service-reported error carrying the response
/// body opaquely, or a decode failure. Transport failures stay with the
/// transport collaborator.
#[derive(Debug)]
pub enum ResponseError {
    /// The service answered with a non-success status; the parsed body
    /// is carried for the caller to inspect.
    FogbugzError(JsonValue),
    /// The service answered successfully but the payload did not decode.
    JsonError(DecodeError),
}

/// Handle for a FogBugz installation: its base URL and the API key sent
/// as a bearer token with every request.
#[derive(Debug, Clone)]
pub struct FogbugzApi {
    pub url: String,
    pub api_key: String,
}

/// Builder for [`FogbugzApi`]; both fields must be supplied before `build`.
#[derive(Debug)]
pub struct FogbugzApiBuilder {
    url: Option<String>,
    api_key: Option<String>,
}

/// A required field was missing when a [`FogbugzApiBuilder`] was finalized.
#[derive(Debug, PartialEq, Eq, Structural)]
pub enum FogbugzApiBuilderError {
    MissingUrl,
    MissingApiKey,
}

impl FogbugzApi {
    pub fn builder() -> (r: FogbugzApiBuilder)
        ensures
            r.url_opt() is None,
            r.api_key_opt() is None,
    {
        FogbugzApiBuilder::new()
    }

    /// A copy of this handle with the same URL and key.
    pub fn duplicate(&self) -> (r: FogbugzApi)
        ensures
            r.url@ == self.url@,
            r.api_key@ == self.api_key@,
    {
        FogbugzApi { url: self.url.clone(), api_key: self.api_key.clone() }
    }

    /// Start a listing request against this installation.
    pub fn list_cases(&self) -> (r: list_cases::ListCasesRequestBuilder)
        ensures
            r.spec_api() matches Some(api) && api.url@ == self.url@ && api.api_key@
                == self.api_key@,
            r.spec_filter() is None,
            r.spec_max() is None,
            r.spec_cols() == Some(list_cases::default_list_columns()),
    {
        list_cases::ListCasesRequestBuilder::new().api(self.duplicate())
    }

    /// Start a single-case fetch against this installation.
    pub fn case_details(&self) -> (r: case_details::CaseDetailsRequestBuilder)
        ensures
            r.spec_api() matches Some(api) && api.url@ == self.url@ && api.api_key@
                == self.api_key@,
            r.spec_case_id() is None,
            r.spec_cols() == Some(case_details::default_case_columns()),
    {
        case_details::CaseDetailsRequestBuilder::new().api(self.duplicate())
    }

    /// Start a search against this installation.
    pub fn search(&self) -> (r: search::SearchRequestBuilder)
        ensures
            r.spec_api() matches Some(api) && api.url@ == self.url@ && api.api_key@
                == self.api_key@,
            r.spec_query() is None,
            r.spec_cols() == Some(search::default_search_columns()),
    {
        search::SearchRequestBuilder::new().api(self.duplicate())
    }

    /// Start an interval listing against this installation.
    pub fn list_intervals(&self) -> (r: list_intervals::ListIntervalsRequestBuilder)
        ensures
            r.spec_api() matches Some(api) && api.url@ == self.url@ && api.api_key@
                == self.api_key@,
            r.spec_case_id() is None,
            r.spec_person() == Some(1u64),
            r.spec_start_date() is None,
            r.spec_end_date() is None,
    {
        list_intervals::ListIntervalsRequestBuilder::new().api(self.duplicate())
    }
}

impl FogbugzApiBuilder {
    /// The URL supplied so far, as a sequence of characters.
    pub closed spec fn url_opt(&self) -> Option<Seq<char>> {
        match self.url {
            Some(u) => Some(u@),
            None => None,
        }
    }

    /// The API key supplied so far, as a sequence of characters.
    pub closed spec fn api_key_opt(&self) -> Option<Seq<char>> {
        match self.api_key {
            Some(k) => Some(k@),
            None => None,
        }
    }

    pub fn new() -> (r: Self)
        ensures
            r.url_opt() is None,
            r.api_key_opt() is None,
    {
        FogbugzApiBuilder { url: None, api_key: None }
    }

    pub fn url(self, url: &str) -> (r: Self)
        ensures
            r.url_opt() == Some(url@),
            r.api_key_opt() == self.api_key_opt(),
    {
        let mut b = self;
        b.url = Some(url.to_owned());
        b
    }

    pub fn api_key(self, api_key: &str) -> (r: Self)
        ensures
            r.api_key_opt() == Some(api_key@),
            r.url_opt() == self.url_opt(),
    {
        let mut b = self;
        b.api_key = Some(api_key.to_owned());
        b
    }

    pub fn build(self) -> (r: Result<FogbugzApi, FogbugzApiBuilderError>)
        ensures
            match r {
                Ok(api) => self.url_opt() == Some(api.url@) && self.api_key_opt() == Some(
                    api.api_key@,
                ),
                Err(e) => (e == FogbugzApiBuilderError::MissingUrl && self.url_opt() is None) || (e
                    == FogbugzApiBuilderError::MissingApiKey && self.url_opt() is Some
                    && self.api_key_opt() is None),
            },
    {
        let url = match self.url {
            Some(u) => u,
            None => {
                return Err(FogbugzApiBuilderError::MissingUrl);
            },
        };
        let api_key = match self.api_key {
            Some(k) => k,
            None => {
                return Err(FogbugzApiBuilderError::MissingApiKey);
            },
        };
        Ok(FogbugzApi { url, api_key })
    }
}

} // verus!
