//! Listing time intervals worked on cases: the request builder and the
//! body it sends. The endpoint takes an optional case, person and time
//! window; timestamps travel as their rendered date-time text.

use crate::json::JsonValue;
use crate::FogbugzApi;
use vstd::prelude::*;

verus! {

/// A ready interval-listing request.
#[derive(Debug)]
pub struct ListIntervalsRequest {
    pub case_id: Option<u64>,
    pub person: Option<u64>,
    /// Window start, as date-time text.
    pub start_date: Option<String>,
    /// Window end, as date-time text.
    pub end_date: Option<String>,
    pub token: String,
    pub api: FogbugzApi,
}

/// Builder for [`ListIntervalsRequest`]; only the API handle is
/// required. A fresh builder asks for person one, the service's id for
/// the requesting user.
#[derive(Debug)]
pub struct ListIntervalsRequestBuilder {
    case_id: Option<u64>,
    person: Option<u64>,
    start_date: Option<String>,
    end_date: Option<String>,
    api: Option<FogbugzApi>,
}

/// A required field was missing when a [`ListIntervalsRequestBuilder`]
/// was finalized.
#[derive(Debug, Clone, Copy, PartialEq, Eq, Structural)]
pub enum ListIntervalsRequestBuilderError {
    ApiNotSpecified,
}

impl ListIntervalsRequestBuilder {
    pub closed spec fn spec_case_id(&self) -> Option<u64> {
        self.case_id
    }

    pub closed spec fn spec_person(&self) -> Option<u64> {
        self.person
    }

    pub closed spec fn spec_start_date(&self) -> Option<Seq<char>> {
        match self.start_date {
            Some(d) => Some(d@),
            None => None,
        }
    }

    pub closed spec fn spec_end_date(&self) -> Option<Seq<char>> {
        match self.end_date {
            Some(d) => Some(d@),
            None => None,
        }
    }

    pub closed spec fn spec_api(&self) -> Option<FogbugzApi> {
        self.api
    }

    pub fn new() -> (r: Self)
        ensures
            r.spec_case_id() is None,
            r.spec_person() == Some(1u64),
            r.spec_start_date() is None,
            r.spec_end_date() is None,
            r.spec_api() is None,
    {
        ListIntervalsRequestBuilder {
            case_id: None,
            person: Some(1),
            start_date: None,
            end_date: None,
            api: None,
        }
    }

    pub fn case_id(self, case_id: u64) -> (r: Self)
        ensures
            r.spec_case_id() == Some(case_id),
            r.spec_person() == self.spec_person(),
            r.spec_start_date() == self.spec_start_date(),
            r.spec_end_date() == self.spec_end_date(),
            r.spec_api() == self.spec_api(),
    {
        let mut b = self;
        b.case_id = Some(case_id);
        b
    }

    pub fn person(self, person: u64) -> (r: Self)
        ensures
            r.spec_person() == Some(person),
            r.spec_case_id() == self.spec_case_id(),
            r.spec_start_date() == self.spec_start_date(),
            r.spec_end_date() == self.spec_end_date(),
            r.spec_api() == self.spec_api(),
    {
        let mut b = self;
        b.person = Some(person);
        b
    }

    pub fn start_date(self, start_date: &str) -> (r: Self)
        ensures
            r.spec_start_date() == Some(start_date@),
            r.spec_case_id() == self.spec_case_id(),
            r.spec_person() == self.spec_person(),
            r.spec_end_date() == self.spec_end_date(),
            r.spec_api() == self.spec_api(),
    {
        let mut b = self;
        b.start_date = Some(start_date.to_owned());
        b
    }

    pub fn end_date(self, end_date: &str) -> (r: Self)
        ensures
            r.spec_end_date() == Some(end_date@),
            r.spec_case_id() == self.spec_case_id(),
            r.spec_person() == self.spec_person(),
            r.spec_start_date() == self.spec_start_date(),
            r.spec_api() == self.spec_api(),
    {
        let mut b = self;
        b.end_date = Some(end_date.to_owned());
        b
    }

    pub fn api(self, api: FogbugzApi) -> (r: Self)
        ensures
            r.spec_api() == Some(api),
            r.spec_case_id() == self.spec_case_id(),
            r.spec_person() == self.spec_person(),
            r.spec_start_date() == self.spec_start_date(),
            r.spec_end_date() == self.spec_end_date(),
    {
        let mut b = self;
        b.api = Some(api);
        b
    }

    /// Finalize; only the API handle is required. The token is taken
    /// from the API handle's key.
    pub fn build(self) -> (r: Result<ListIntervalsRequest, ListIntervalsRequestBuilderError>)
        ensures
            match r {
                Ok(req) => {
                    &&& self.spec_case_id() == req.case_id
                    &&& self.spec_person() == req.person
                    &&& (match (self.spec_start_date(), req.start_date) {
                        (Some(sv), Some(rv)) => rv@ == sv,
                        (None, None) => true,
                        _ => false,
                    })
                    &&& (match (self.spec_end_date(), req.end_date) {
                        (Some(sv), Some(rv)) => rv@ == sv,
                        (None, None) => true,
                        _ => false,
                    })
                    &&& self.spec_api() == Some(req.api)
                    &&& req.token == req.api.api_key
                },
                Err(e) => e == ListIntervalsRequestBuilderError::ApiNotSpecified && self.spec_api()
                    is None,
            },
    {
        let api = match self.api {
            Some(a) => a,
            None => {
                return Err(ListIntervalsRequestBuilderError::ApiNotSpecified);
            },
        };
        let token = api.api_key.clone();
        Ok(
            ListIntervalsRequest {
                case_id: self.case_id,
                person: self.person,
                start_date: self.start_date,
                end_date: self.end_date,
                token,
                api,
            },
        )
    }
}

impl ListIntervalsRequest {
    pub fn builder() -> (r: ListIntervalsRequestBuilder)
        ensures
            r.spec_case_id() is None,
            r.spec_person() == Some(1u64),
            r.spec_start_date() is None,
            r.spec_end_date() is None,
            r.spec_api() is None,
    {
        ListIntervalsRequestBuilder::new()
    }

    /// The JSON body this request sends: `ixBug`, `ixPerson`, `dtStart`
    /// and `dtEnd` when present, in that order, then the token.
    pub fn body_json(&self) -> (r: JsonValue)
        ensures
            r matches JsonValue::Object(fs) && ({
                let fields = fs@;
                let n_case: int = if self.case_id is Some {
                    1int
                } else {
                    0int
                };
                let n_person: int = if self.person is Some {
                    1int
                } else {
                    0int
                };
                let n_start: int = if self.start_date is Some {
                    1int
                } else {
                    0int
                };
                let n_end: int = if self.end_date is Some {
                    1int
                } else {
                    0int
                };
                &&& fields.len() == 1 + n_case + n_person + n_start + n_end
                &&& (self.case_id matches Some(c) ==> fields[0].0@ == "ixBug"@ && fields[0].1
                    == JsonValue::UInt(c))
                &&& (self.person matches Some(p) ==> fields[n_case].0@ == "ixPerson"@ && fields[
                    n_case
                ].1 == JsonValue::UInt(p))
                &&& (self.start_date matches Some(d) ==> fields[n_case + n_person].0@ == "dtStart"@
                    && fields[n_case + n_person].1 == JsonValue::Str(d))
                &&& (self.end_date matches Some(d) ==> fields[n_case + n_person + n_start].0@
                    == "dtEnd"@ && fields[n_case + n_person + n_start].1 == JsonValue::Str(d))
                &&& fields[n_case + n_person + n_start + n_end].0@ == "token"@ && fields[n_case
                    + n_person + n_start + n_end].1 == JsonValue::Str(self.token)
            }),
    {
        let mut fields: Vec<(String, JsonValue)> = Vec::new();
        if let Some(c) = self.case_id {
            fields.push(("ixBug".to_owned(), JsonValue::UInt(c)));
        }
        if let Some(p) = self.person {
            fields.push(("ixPerson".to_owned(), JsonValue::UInt(p)));
        }
        if let Some(d) = &self.start_date {
            fields.push(("dtStart".to_owned(), JsonValue::Str(d.clone())));
        }
        if let Some(d) = &self.end_date {
            fields.push(("dtEnd".to_owned(), JsonValue::Str(d.clone())));
        }
        fields.push(("token".to_owned(), JsonValue::Str(self.token.clone())));
        JsonValue::Object(fields)
    }
}

} // verus!
