use fogbugz::case_details::{
    case_details_response, decode_case_details, decode_event, filter_objects, EventType,
};
use fogbugz::enums::{Category, Priority, Status};
use fogbugz::json::JsonValue;
use fogbugz::list_cases::{decode_case_summary, list_cases_response};
use fogbugz::search::search_response;
use fogbugz::{DecodeError, ResponseError};

fn s(v: &str) -> JsonValue {
    JsonValue::Str(v.to_string())
}

fn field(k: &str, v: JsonValue) -> (String, JsonValue) {
    (k.to_string(), v)
}

fn attachment_obj(name: &str, url: &str) -> JsonValue {
    JsonValue::Object(vec![field("sFileName", s(name)), field("sURL", s(url))])
}

fn event_obj(description: &str) -> JsonValue {
    JsonValue::Object(vec![
        field("evt", JsonValue::Int(1)),
        field("evtDescription", s(description)),
        field("dt", s("2024-01-01T12:00:00Z")),
        field("ixPerson", JsonValue::Int(9)),
        field("sPerson", s("Sam")),
        field("ixPersonAssignedTo", JsonValue::Int(4)),
        field(
            "attachments",
            JsonValue::Array(vec![attachment_obj("a.txt", "https://x/a.txt")]),
        ),
        field("s", s("body text")),
    ])
}

fn case_obj(events: Vec<JsonValue>) -> JsonValue {
    JsonValue::Object(vec![
        field("ixBug", JsonValue::Int(61331)),
        field("sTitle", s("A title")),
        field("sProject", s("Proj")),
        field("fOpen", JsonValue::Bool(true)),
        field("sArea", s("Area 51")),
        field("ixStatus", JsonValue::Int(17)),
        field("ixPriority", JsonValue::Int(3)),
        field("ixCategory", JsonValue::Int(2)),
        field("events", JsonValue::Array(events)),
    ])
}

fn envelope(cases: Vec<JsonValue>) -> JsonValue {
    JsonValue::Object(vec![field(
        "data",
        JsonValue::Object(vec![field("cases", JsonValue::Array(cases))]),
    )])
}

#[test]
fn decodes_full_case() {
    let case = case_obj(vec![event_obj("Opened by Sam")]);
    let c = decode_case_details(&case).unwrap();
    assert_eq!(c.case_id, 61331);
    assert_eq!(c.title, "A title");
    assert_eq!(c.project, "Proj");
    assert!(c.is_open);
    assert_eq!(c.area, "Area 51");
    assert_eq!(c.status, Status::Active);
    assert_eq!(c.priority, Priority::ShouldDo);
    assert_eq!(c.category, Category::Feature);
    assert_eq!(c.events.len(), 1);
    let e = &c.events[0];
    assert_eq!(e.event_type, EventType::Opened);
    assert_eq!(e.description, "Opened by Sam");
    assert_eq!(e.datetime, "2024-01-01T12:00:00Z");
    assert_eq!(e.person_id, 9);
    assert_eq!(e.person, "Sam");
    assert_eq!(e.assigned_to_id, Some(4));
    let atts = e.attachments.as_ref().unwrap();
    assert_eq!(atts.len(), 1);
    assert_eq!(atts[0].file_name, "a.txt");
    assert_eq!(atts[0].url, "https://x/a.txt");
    assert_eq!(e.content, "body text");
}

#[test]
fn response_filters_non_object_events() {
    let events = vec![
        event_obj("first"),
        JsonValue::Bool(false),
        JsonValue::Null,
        event_obj("second"),
    ];
    let json = envelope(vec![case_obj(events)]);
    let c = case_details_response(json, true).unwrap();
    assert_eq!(c.events.len(), 2);
    assert_eq!(c.events[0].description, "first");
    assert_eq!(c.events[1].description, "second");
}

#[test]
fn strict_decode_rejects_non_object_events() {
    let case = case_obj(vec![event_obj("first"), JsonValue::Bool(true)]);
    assert_eq!(
        decode_case_details(&case),
        Err(DecodeError::WrongType("events"))
    );
}

#[test]
fn filter_objects_keeps_order() {
    let mixed = vec![
        JsonValue::Bool(true),
        event_obj("a"),
        JsonValue::Null,
        event_obj("b"),
        JsonValue::Int(3),
    ];
    let kept = filter_objects(mixed);
    assert_eq!(kept.len(), 2);
    match &kept[0] {
        JsonValue::Object(fs) => assert_eq!(fs[1].0, "evtDescription"),
        _ => panic!("expected an object"),
    }
    match (&kept[0], &kept[1]) {
        (JsonValue::Object(a), JsonValue::Object(b)) => {
            assert!(matches!(&a[1].1, JsonValue::Str(d) if d == "a"));
            assert!(matches!(&b[1].1, JsonValue::Str(d) if d == "b"));
        }
        _ => panic!("expected objects"),
    }
}

#[test]
fn non_success_is_service_error_not_decode_error() {
    let body = JsonValue::Object(vec![field("error", s("boom"))]);
    match case_details_response(body, false) {
        Err(ResponseError::FogbugzError(j)) => match j.get("error") {
            Some(JsonValue::Str(msg)) => assert_eq!(msg, "boom"),
            _ => panic!("body was not carried through"),
        },
        _ => panic!("expected a service error"),
    }
    // Even a body that would not decode as a case is a service error.
    let undecodable = JsonValue::Bool(true);
    match list_cases_response(undecodable, false) {
        Err(ResponseError::FogbugzError(JsonValue::Bool(true))) => {}
        _ => panic!("expected a service error"),
    }
}

#[test]
fn missing_field_is_reported_by_name() {
    let case = JsonValue::Object(vec![field("ixBug", JsonValue::Int(1))]);
    assert_eq!(
        decode_case_details(&case),
        Err(DecodeError::MissingField("sTitle"))
    );
    let json = envelope(vec![case]);
    match case_details_response(json, true) {
        Err(ResponseError::JsonError(e)) => assert_eq!(e, DecodeError::MissingField("sTitle")),
        _ => panic!("expected a decode error"),
    }
}

#[test]
fn empty_envelope_fails_decoding_not_panicking() {
    let json = JsonValue::Object(vec![]);
    match case_details_response(json, true) {
        Err(ResponseError::JsonError(e)) => assert_eq!(e, DecodeError::WrongType("cases")),
        _ => panic!("expected a decode error"),
    }
}

#[test]
fn unknown_status_code_fails_with_value() {
    let case = JsonValue::Object(vec![
        field("ixBug", JsonValue::Int(1)),
        field("sTitle", s("t")),
        field("sProject", s("p")),
        field("fOpen", JsonValue::Bool(false)),
        field("sArea", s("a")),
        field("ixStatus", JsonValue::Int(99)),
        field("ixPriority", JsonValue::Int(1)),
        field("ixCategory", JsonValue::Int(1)),
        field("events", JsonValue::Array(vec![])),
    ]);
    assert_eq!(
        decode_case_details(&case),
        Err(DecodeError::UnknownStatus(99))
    );
}

fn bare_event(dt: &str) -> JsonValue {
    JsonValue::Object(vec![
        field("evt", JsonValue::Int(2)),
        field("evtDescription", s("edited")),
        field("dt", s(dt)),
        field("ixPerson", JsonValue::Int(1)),
        field("sPerson", s("p")),
        field("s", s("")),
    ])
}

#[test]
fn bad_timestamp_fails_decoding() {
    let bad = bare_event("never oclock");
    assert_eq!(decode_event(&bad), Err(DecodeError::BadTimestamp));
    let good = bare_event("2012-12-12 12:12:12+00:00");
    let e = decode_event(&good).unwrap();
    assert_eq!(e.datetime, "2012-12-12 12:12:12+00:00");
    assert_eq!(e.assigned_to_id, None);
    assert_eq!(e.attachments, None);
}

#[test]
fn null_assignee_is_none_and_wrong_type_fails() {
    let base = |assignee: JsonValue| {
        JsonValue::Object(vec![
            field("evt", JsonValue::Int(3)),
            field("evtDescription", s("assigned")),
            field("dt", s("2024-02-02T00:00:00Z")),
            field("ixPerson", JsonValue::Int(1)),
            field("sPerson", s("p")),
            field("ixPersonAssignedTo", assignee),
            field("s", s("")),
        ])
    };
    let e = decode_event(&base(JsonValue::Null)).unwrap();
    assert_eq!(e.assigned_to_id, None);
    assert_eq!(
        decode_event(&base(s("four"))),
        Err(DecodeError::WrongType("ixPersonAssignedTo"))
    );
    assert_eq!(
        decode_event(&base(JsonValue::Int(-2))),
        Err(DecodeError::WrongType("ixPersonAssignedTo"))
    );
}

#[test]
fn id_boundaries() {
    let huge = JsonValue::Object(vec![
        field("ixBug", JsonValue::UInt(u64::MAX)),
        field("ixProject", JsonValue::Int(0)),
        field("sProject", s("p")),
        field("sTitle", s("t")),
    ]);
    let c = decode_case_summary(&huge).unwrap();
    assert_eq!(c.case_id, u64::MAX);
    assert_eq!(c.project_id, 0);

    let negative = JsonValue::Object(vec![
        field("ixBug", JsonValue::Int(-1)),
        field("ixProject", JsonValue::Int(0)),
        field("sProject", s("p")),
        field("sTitle", s("t")),
    ]);
    assert_eq!(
        decode_case_summary(&negative),
        Err(DecodeError::WrongType("ixBug"))
    );
}

#[test]
fn empty_events_array_decodes_to_no_events() {
    let json = envelope(vec![case_obj(vec![])]);
    let c = case_details_response(json, true).unwrap();
    assert!(c.events.is_empty());
    assert_eq!(filter_objects(vec![]).len(), 0);
}

#[test]
fn fractional_number_is_wrong_type() {
    let e = JsonValue::Object(vec![
        field("evt", JsonValue::Int(1)),
        field("evtDescription", s("d")),
        field("dt", s("2024-01-01T00:00:00Z")),
        field("ixPerson", JsonValue::Float("1.5".to_string())),
        field("sPerson", s("p")),
        field("s", s("")),
    ]);
    assert_eq!(decode_event(&e), Err(DecodeError::WrongType("ixPerson")));
}

#[test]
fn attachment_errors_propagate_outward() {
    let broken_attachment = JsonValue::Object(vec![field("sFileName", s("a.txt"))]);
    let event = JsonValue::Object(vec![
        field("evt", JsonValue::Int(1)),
        field("evtDescription", s("d")),
        field("dt", s("2024-01-01T00:00:00Z")),
        field("ixPerson", JsonValue::Int(1)),
        field("sPerson", s("p")),
        field("attachments", JsonValue::Array(vec![broken_attachment])),
        field("s", s("")),
    ]);
    assert_eq!(decode_event(&event), Err(DecodeError::MissingField("sURL")));
    let case = case_obj(vec![event]);
    assert_eq!(
        decode_case_details(&case),
        Err(DecodeError::MissingField("sURL"))
    );
}

#[test]
fn decodes_case_listing() {
    let summary = JsonValue::Object(vec![
        field("ixBug", JsonValue::Int(12)),
        field("ixProject", JsonValue::Int(3)),
        field("sProject", s("Proj")),
        field("sTitle", s("Short one")),
    ]);
    let c = decode_case_summary(&summary).unwrap();
    assert_eq!(c.case_id, 12);
    assert_eq!(c.project_id, 3);
    assert_eq!(c.project, "Proj");
    assert_eq!(c.titile, "Short one");

    let json = envelope(vec![summary]);
    let cases = list_cases_response(json, true).unwrap();
    assert_eq!(cases.len(), 1);
    assert_eq!(cases[0].case_id, 12);
}

#[test]
fn listing_requires_an_array() {
    let json = JsonValue::Object(vec![field(
        "data",
        JsonValue::Object(vec![field("cases", JsonValue::Null)]),
    )]);
    match list_cases_response(json, true) {
        Err(ResponseError::JsonError(e)) => assert_eq!(e, DecodeError::WrongType("cases")),
        _ => panic!("expected a decode error"),
    }
}

#[test]
fn search_response_passes_payload_through() {
    let json = envelope(vec![]);
    match search_response(json, true) {
        Ok(JsonValue::Object(fs)) => assert_eq!(fs[0].0, "data"),
        _ => panic!("expected the payload back"),
    }
    let body = s("denied");
    match search_response(body, false) {
        Err(ResponseError::FogbugzError(JsonValue::Str(msg))) => assert_eq!(msg, "denied"),
        _ => panic!("expected a service error"),
    }
}

