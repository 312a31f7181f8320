use fogbugz::date::{Date, DateRange, ParseError, PointInTime};
use fogbugz::json::JsonValue;
use fogbugz::query::{decode_date, decode_query, IntoQuery, Param, Query, QueryBuilder};
use fogbugz::DecodeError;

#[test]
fn renders_fixed_order_with_quoted_dates() {
    let q = Query::builder()
        .opened_date(Date::PointInTime(PointInTime::new(1, 1, 2024)))
        .case_id(61331)
        .build();
    assert_eq!(q.render(), "ixBug:61331&opened:\"1-1-2024\"");
}

#[test]
fn renders_all_slots_in_field_order() {
    let q = Query::builder()
        .closed_date(Date::DateRange(DateRange::new(
            PointInTime::new(1, 1, 2024),
            PointInTime::new(31, 12, 2024),
        )))
        .from_email("a@b.c")
        .assigned_to("kim")
        .case_id(7)
        .opened_date(Date::PointInTime(PointInTime::new(2, 3, 2020)))
        .build();
    assert_eq!(
        q.render(),
        "ixBug:7&assignedTo:kim&from:a@b.c&opened:\"2-3-2020\"&closed:\"1-1-2024..31-12-2024\""
    );
}

#[test]
fn empty_query_renders_empty_string() {
    let q = QueryBuilder::new().build();
    assert_eq!(q.render(), "");
}

#[test]
fn single_unquoted_clause_has_no_separator() {
    let q = Query::builder().assigned_to("sam").build();
    assert_eq!(q.render(), "assignedTo:sam");
}

#[test]
fn last_write_wins_per_slot() {
    let q = QueryBuilder::new()
        .add_param(Param::CaseId(1))
        .add_param(Param::CaseId(2))
        .build();
    assert_eq!(q.case_id, Some(2));
}

#[test]
fn later_param_replaces_earlier_independently() {
    let q = Query::builder()
        .assigned_to("first")
        .case_id(10)
        .assigned_to("second")
        .build();
    assert_eq!(q.assigned_to.as_deref(), Some("second"));
    assert_eq!(q.case_id, Some(10));
    assert!(q.from_email.is_none());
}

#[test]
fn decode_date_reparses_the_string_form() {
    let v = JsonValue::Str("31-12-2020".to_string());
    assert_eq!(
        decode_date(&v),
        Ok(Date::PointInTime(PointInTime::new(31, 12, 2020)))
    );
    let bad = JsonValue::Str("31-12".to_string());
    assert_eq!(
        decode_date(&bad),
        Err(DecodeError::BadDate(ParseError::WrongFieldCount))
    );
    assert_eq!(
        decode_date(&JsonValue::Int(3)),
        Err(DecodeError::WrongType("date"))
    );
}

#[test]
fn decode_query_fails_recoverably_on_bad_dates() {
    let v = JsonValue::Object(vec![
        ("case_id".to_string(), JsonValue::Int(8)),
        ("assigned_to".to_string(), JsonValue::Null),
        (
            "opened_date".to_string(),
            JsonValue::Str("1-2-2024".to_string()),
        ),
    ]);
    let q = decode_query(&v).unwrap();
    assert_eq!(q.case_id, Some(8));
    assert_eq!(q.assigned_to, None);
    assert_eq!(
        q.opened_date,
        Some(Date::PointInTime(PointInTime::new(1, 2, 2024)))
    );
    assert_eq!(q.closed_date, None);

    let bad = JsonValue::Object(vec![(
        "closed_date".to_string(),
        JsonValue::Str("soon".to_string()),
    )]);
    match decode_query(&bad) {
        Err(e) => assert_eq!(e, DecodeError::BadDate(ParseError::WrongFieldCount)),
        Ok(_) => panic!("expected a decode error"),
    }
}

#[test]
fn builder_collapses_through_into_query() {
    let q = QueryBuilder::new().case_id(5).into_query();
    assert_eq!(q.case_id, Some(5));
    let again = q.into_query();
    assert_eq!(again.case_id, Some(5));
}
