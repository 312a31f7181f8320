use fogbugz::case_details::{CaseDetailsRequest, CaseDetailsRequestBuilderError};
use fogbugz::columns;
use fogbugz::enums::Column;
use fogbugz::json::JsonValue;
use fogbugz::list_cases::ListCasesRequestBuilderError;
use fogbugz::list_intervals::ListIntervalsRequestBuilderError;
use fogbugz::query::Query;
use fogbugz::search::SearchRequestBuilderError;
use fogbugz::{FogbugzApi, FogbugzApiBuilder, FogbugzApiBuilderError};

fn api() -> FogbugzApi {
    FogbugzApiBuilder::new()
        .url("https://example.fogbugz.com")
        .api_key("an-api-key")
        .build()
        .unwrap()
}

fn expect_str(v: &JsonValue) -> &str {
    match v {
        JsonValue::Str(s) => s,
        _ => panic!("expected a string value"),
    }
}

fn expect_object(v: &JsonValue) -> &Vec<(String, JsonValue)> {
    match v {
        JsonValue::Object(fs) => fs,
        _ => panic!("expected an object"),
    }
}

fn expect_strings(v: &JsonValue) -> Vec<&str> {
    match v {
        JsonValue::Array(items) => items.iter().map(expect_str).collect(),
        _ => panic!("expected an array"),
    }
}

#[test]
fn api_builder_reports_missing_fields() {
    assert_eq!(
        FogbugzApiBuilder::new().build().unwrap_err(),
        FogbugzApiBuilderError::MissingUrl
    );
    assert_eq!(
        FogbugzApiBuilder::new().url("https://x").build().unwrap_err(),
        FogbugzApiBuilderError::MissingApiKey
    );
    let api = api();
    assert_eq!(api.url, "https://example.fogbugz.com");
    assert_eq!(api.api_key, "an-api-key");
}

#[test]
fn case_details_builder_defaults_and_body() {
    let request = api()
        .case_details()
        .case_id(61331)
        .add_col(Column::Events)
        .add_col(Column::Body)
        .build()
        .unwrap();
    assert_eq!(request.case_id, 61331);
    assert_eq!(request.token, "an-api-key");
    let cols = request.cols.as_ref().unwrap();
    assert_eq!(
        cols,
        &vec![
            "ixBug", "sTitle", "events", "sProject", "sArea", "ixPriority", "ixStatus",
            "ixCategory", "fOpen", "events", "sHtmlBody"
        ]
    );
    let body = request.body_json();
    let fields = expect_object(&body);
    assert_eq!(fields.len(), 3);
    assert_eq!(fields[0].0, "q");
    assert!(matches!(fields[0].1, JsonValue::UInt(61331)));
    assert_eq!(fields[1].0, "cols");
    assert_eq!(expect_strings(&fields[1].1).len(), 11);
    assert_eq!(fields[2].0, "token");
    assert_eq!(expect_str(&fields[2].1), "an-api-key");
}

#[test]
fn case_details_builder_requires_case_id_then_api() {
    assert_eq!(
        CaseDetailsRequest::builder().build().unwrap_err(),
        CaseDetailsRequestBuilderError::TicketNumberNotSpecified
    );
    assert_eq!(
        CaseDetailsRequest::builder().case_id(1).build().unwrap_err(),
        CaseDetailsRequestBuilderError::ApiNotSpecified
    );
}

#[test]
fn case_details_cols_replaces_selection() {
    let request = api()
        .case_details()
        .case_id(5)
        .cols(vec![Column::Title, Column::Status])
        .build()
        .unwrap();
    assert_eq!(request.cols.as_ref().unwrap(), &vec!["sTitle", "ixStatus"]);
}

#[test]
fn case_details_body_without_cols_has_two_fields() {
    let request = CaseDetailsRequest {
        case_id: 9,
        cols: None,
        token: "t".to_string(),
        api: api(),
    };
    let body = request.body_json();
    let fields = expect_object(&body);
    assert_eq!(fields.len(), 2);
    assert_eq!(fields[0].0, "q");
    assert_eq!(fields[1].0, "token");
}

#[test]
fn list_cases_builder_defaults_and_body() {
    let request = api()
        .list_cases()
        .max(1)
        .cols(vec![
            Column::Title,
            Column::CaseId,
            Column::Project,
            Column::ProjectId,
        ])
        .build()
        .unwrap();
    assert_eq!(request.max, Some(1));
    assert_eq!(
        request.cols.as_ref().unwrap(),
        &vec!["sTitle", "ixBug", "sProject", "ixProject"]
    );
    let body = request.body_json();
    let fields = expect_object(&body);
    assert_eq!(fields.len(), 3);
    assert_eq!(fields[0].0, "cols");
    assert_eq!(fields[1].0, "max");
    assert!(matches!(fields[1].1, JsonValue::UInt(1)));
    assert_eq!(fields[2].0, "token");
}

#[test]
fn list_cases_default_columns_and_filter() {
    let request = api().list_cases().filter("inbox").build().unwrap();
    assert_eq!(
        request.cols.as_ref().unwrap(),
        &vec!["ixBug", "sTitle", "sProject", "ixProject"]
    );
    assert_eq!(request.filter.as_deref(), Some("inbox"));
    let body = request.body_json();
    let fields = expect_object(&body);
    assert_eq!(fields.len(), 3);
    assert_eq!(fields[0].0, "sFilter");
    assert_eq!(expect_str(&fields[0].1), "inbox");
    assert_eq!(fields[1].0, "cols");
    assert_eq!(fields[2].0, "token");
}

#[test]
fn list_cases_requires_api() {
    let err = fogbugz::list_cases::ListCasesRequestBuilder::new()
        .build()
        .unwrap_err();
    assert_eq!(err, ListCasesRequestBuilderError::ApiNotSpecified);
}

#[test]
fn search_builder_renders_query_and_body() {
    let query = Query::builder()
        .case_id(61331)
        .build();
    let request = api().search().query(query).build().unwrap();
    assert_eq!(request.query, "ixBug:61331");
    assert_eq!(request.cols.as_ref().unwrap(), &vec!["ixBug", "sTitle"]);
    let body = request.body_json();
    let fields = expect_object(&body);
    assert_eq!(fields.len(), 3);
    assert_eq!(fields[0].0, "q");
    assert_eq!(expect_str(&fields[0].1), "ixBug:61331");
    assert_eq!(fields[1].0, "cols");
    assert_eq!(expect_strings(&fields[1].1), vec!["ixBug", "sTitle"]);
    assert_eq!(fields[2].0, "token");
}

#[test]
fn search_builder_accepts_a_query_builder() {
    let request = api()
        .search()
        .query(Query::builder().assigned_to("kim"))
        .add_col(columns::Column::Events)
        .build()
        .unwrap();
    assert_eq!(request.query, "assignedTo:kim");
    assert_eq!(
        request.cols.as_ref().unwrap(),
        &vec!["ixBug", "sTitle", "events"]
    );
}

#[test]
fn search_builder_requires_query_then_api() {
    assert_eq!(
        fogbugz::search::SearchRequestBuilder::new()
            .build()
            .unwrap_err(),
        SearchRequestBuilderError::QueryNotSpecified
    );
    assert_eq!(
        fogbugz::search::SearchRequestBuilder::new()
            .query(Query::builder().case_id(1))
            .build()
            .unwrap_err(),
        SearchRequestBuilderError::ApiNotSpecified
    );
}

#[test]
fn list_intervals_defaults_to_person_one() {
    let request = api().list_intervals().build().unwrap();
    assert_eq!(request.person, Some(1));
    assert_eq!(request.case_id, None);
    let body = request.body_json();
    let fields = expect_object(&body);
    assert_eq!(fields.len(), 2);
    assert_eq!(fields[0].0, "ixPerson");
    assert!(matches!(fields[0].1, JsonValue::UInt(1)));
    assert_eq!(fields[1].0, "token");
}

#[test]
fn list_intervals_full_body_layout() {
    let request = api()
        .list_intervals()
        .case_id(4)
        .person(75)
        .start_date("2024-01-01T00:00:00")
        .end_date("2024-01-31T23:59:59")
        .build()
        .unwrap();
    let body = request.body_json();
    let fields = expect_object(&body);
    assert_eq!(fields.len(), 5);
    assert_eq!(fields[0].0, "ixBug");
    assert_eq!(fields[1].0, "ixPerson");
    assert!(matches!(fields[1].1, JsonValue::UInt(75)));
    assert_eq!(fields[2].0, "dtStart");
    assert_eq!(expect_str(&fields[2].1), "2024-01-01T00:00:00");
    assert_eq!(fields[3].0, "dtEnd");
    assert_eq!(fields[4].0, "token");
}

#[test]
fn list_intervals_requires_api() {
    let err = fogbugz::list_intervals::ListIntervalsRequestBuilder::new()
        .build()
        .unwrap_err();
    assert_eq!(err, ListIntervalsRequestBuilderError::ApiNotSpecified);
}
