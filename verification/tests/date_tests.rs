use fogbugz::date::{
    parse_date, parse_date_range, parse_point_in_time, Date, DateRange, ParseError, PointInTime,
};

#[test]
fn test_parse_point_in_time() {
    let point_in_time = parse_point_in_time("31-12-2020").unwrap();
    assert_eq!(point_in_time.day, 31);
    assert_eq!(point_in_time.month, 12);
    assert_eq!(point_in_time.year, 2020);
}

#[test]
fn test_parse_date_range() {
    let date_range = parse_date_range("01-01-2020..31-12-2020").unwrap();
    assert_eq!(date_range.start.day, 1);
    assert_eq!(date_range.start.month, 1);
    assert_eq!(date_range.start.year, 2020);
    assert_eq!(date_range.end.day, 31);
    assert_eq!(date_range.end.month, 12);
    assert_eq!(date_range.end.year, 2020);
}

#[test]
fn test_display_point_in_time() {
    let point_in_time = PointInTime {
        day: 31,
        month: 12,
        year: 2020,
    };
    assert_eq!(point_in_time.render(), "31-12-2020");
}

#[test]
fn test_display_date_range() {
    let date_range = DateRange {
        start: PointInTime {
            day: 1,
            month: 1,
            year: 2020,
        },
        end: PointInTime {
            day: 31,
            month: 12,
            year: 2020,
        },
    };
    assert_eq!(date_range.render(), "1-1-2020..31-12-2020");
}

#[test]
fn parse_date_picks_point_in_time() {
    let d = parse_date("31-12-2020").unwrap();
    assert_eq!(d, Date::PointInTime(PointInTime::new(31, 12, 2020)));
}

#[test]
fn parse_date_picks_range() {
    let d = parse_date("01-01-2020..31-12-2020").unwrap();
    assert_eq!(
        d,
        Date::DateRange(DateRange::new(
            PointInTime::new(1, 1, 2020),
            PointInTime::new(31, 12, 2020)
        ))
    );
}

#[test]
fn point_round_trip_canonical() {
    for s in ["1-1-1", "31-12-2020", "5-10-0", "4294967295-1-1"] {
        let p = parse_point_in_time(s).unwrap();
        assert_eq!(p.render(), s);
    }
}

#[test]
fn range_round_trip_canonical() {
    let s = "1-1-2020..31-12-2024";
    let r = parse_date_range(s).unwrap();
    assert_eq!(r.render(), s);
}

#[test]
fn render_then_parse_is_identity() {
    let p = PointInTime::new(7, 8, 1999);
    assert_eq!(parse_point_in_time(&p.render()).unwrap(), p);
    let r = DateRange::new(PointInTime::new(0, 0, 0), PointInTime::new(1, 2, 3));
    assert_eq!(parse_date_range(&r.render()).unwrap(), r);
    let d = Date::DateRange(r);
    assert_eq!(parse_date(&d.render()).unwrap(), d);
}

#[test]
fn conversions_into_date() {
    let d: Date = PointInTime::new(1, 2, 3).into();
    assert_eq!(d, Date::PointInTime(PointInTime::new(1, 2, 3)));
    let r: DateRange = (PointInTime::new(1, 1, 2024), PointInTime::new(31, 12, 2024)).into();
    assert_eq!(r.start, PointInTime::new(1, 1, 2024));
    assert_eq!(r.end, PointInTime::new(31, 12, 2024));
    let from_pair: Date = (PointInTime::new(1, 1, 2024), PointInTime::new(31, 12, 2024)).into();
    assert_eq!(from_pair, Date::DateRange(r));
    let from_range: Date = r.into();
    assert_eq!(from_range, Date::DateRange(r));
}

#[test]
fn too_few_fields_is_field_count_error() {
    assert_eq!(parse_point_in_time("1-2"), Err(ParseError::WrongFieldCount));
    assert_eq!(parse_point_in_time(""), Err(ParseError::WrongFieldCount));
    assert_eq!(parse_date("1-2"), Err(ParseError::WrongFieldCount));
}

#[test]
fn too_many_fields_is_field_count_error() {
    assert_eq!(
        parse_point_in_time("1-2-3-4"),
        Err(ParseError::WrongFieldCount)
    );
    assert_eq!(
        parse_date_range("1-1-2020..2-2-2020..3-3-2020"),
        Err(ParseError::WrongFieldCount)
    );
    assert_eq!(parse_date_range("1-1-2020"), Err(ParseError::WrongFieldCount));
}

#[test]
fn bad_digits_are_integer_errors() {
    assert_eq!(parse_point_in_time("a-2-3"), Err(ParseError::BadInteger));
    assert_eq!(parse_point_in_time("1--3"), Err(ParseError::BadInteger));
    assert_eq!(parse_point_in_time("1-2-c"), Err(ParseError::BadInteger));
    assert_eq!(
        parse_point_in_time("99999999999-1-1"),
        Err(ParseError::BadInteger)
    );
    assert_eq!(
        parse_date_range("x-1-1..1-1-1"),
        Err(ParseError::BadInteger)
    );
}

#[test]
fn leading_zeros_parse_but_render_canonically() {
    let p = parse_point_in_time("007-010-02020").unwrap();
    assert_eq!(p, PointInTime::new(7, 10, 2020));
    assert_eq!(p.render(), "7-10-2020");
    let zeros = parse_point_in_time("000-0-00").unwrap();
    assert_eq!(zeros, PointInTime::new(0, 0, 0));
    assert_eq!(zeros.render(), "0-0-0");
}

#[test]
fn largest_field_value_fits() {
    let p = parse_point_in_time("1-1-4294967295").unwrap();
    assert_eq!(p.year, u32::MAX);
    assert_eq!(
        parse_point_in_time("1-1-4294967296"),
        Err(ParseError::BadInteger)
    );
}
