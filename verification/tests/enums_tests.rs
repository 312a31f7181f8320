use fogbugz::case_details::EventType;
use fogbugz::columns;
use fogbugz::enums::{Category, Column, Priority, Status};
use fogbugz::DecodeError;

#[test]
fn status_active_codes() {
    for code in [1i64, 17, 20, 23, 26, 33, 36, 37, 40] {
        assert_eq!(Status::from_code(code), Ok(Status::Active), "code {}", code);
    }
}

#[test]
fn status_resolved_codes() {
    let mut codes: Vec<i64> = (2..=16).collect();
    codes.extend([18, 19, 21, 22, 24, 25, 31, 32, 34, 35, 38, 39]);
    for code in codes {
        assert_eq!(Status::from_code(code), Ok(Status::Resolved), "code {}", code);
    }
}

#[test]
fn status_terminal_codes() {
    assert_eq!(Status::from_code(27), Ok(Status::Approved));
    assert_eq!(Status::from_code(28), Ok(Status::Rejected));
    assert_eq!(Status::from_code(29), Ok(Status::WontReview));
    assert_eq!(Status::from_code(30), Ok(Status::AbandonedNoConsensus));
}

#[test]
fn status_unknown_codes_fail_with_value() {
    for code in [0i64, -1, 41, 100, 999] {
        assert_eq!(
            Status::from_code(code),
            Err(DecodeError::UnknownStatus(code)),
            "code {}",
            code
        );
    }
}

#[test]
fn category_codes() {
    assert_eq!(Category::from_code(1), Ok(Category::Bug));
    assert_eq!(Category::from_code(2), Ok(Category::Feature));
    assert_eq!(Category::from_code(3), Ok(Category::Inquiry));
    assert_eq!(Category::from_code(4), Ok(Category::Schedule));
    assert_eq!(Category::from_code(5), Ok(Category::Report));
    assert_eq!(Category::from_code(6), Ok(Category::Emergency));
    assert_eq!(Category::from_code(7), Err(DecodeError::UnknownCategory(7)));
    assert_eq!(Category::from_code(0), Err(DecodeError::UnknownCategory(0)));
}

#[test]
fn priority_codes() {
    assert_eq!(Priority::from_code(1), Ok(Priority::Blocker));
    assert_eq!(Priority::from_code(2), Ok(Priority::MuyImportante));
    assert_eq!(Priority::from_code(3), Ok(Priority::ShouldDo));
    assert_eq!(Priority::from_code(4), Ok(Priority::FixIfTime));
    assert_eq!(Priority::from_code(5), Ok(Priority::OhWell));
    assert_eq!(Priority::from_code(6), Ok(Priority::WhoCares));
    assert_eq!(Priority::from_code(7), Ok(Priority::DontFix));
    assert_eq!(Priority::from_code(8), Err(DecodeError::UnknownPriority(8)));
    assert_eq!(Priority::from_code(-3), Err(DecodeError::UnknownPriority(-3)));
}

#[test]
fn event_type_named_codes() {
    let table = [
        (1i64, EventType::Opened),
        (2, EventType::Edited),
        (3, EventType::Assigned),
        (4, EventType::Reactivated),
        (5, EventType::Reopened),
        (6, EventType::Closed),
        (7, EventType::Moved),
        (8, EventType::Unknown),
        (9, EventType::Replied),
        (10, EventType::Forwarded),
        (11, EventType::Received),
        (12, EventType::Sorted),
        (13, EventType::NotSorted),
        (14, EventType::Resolved),
        (15, EventType::Emailed),
        (16, EventType::ReleaseNoted),
        (17, EventType::DeletedAttachment),
    ];
    for (code, expected) in table {
        assert_eq!(EventType::from_code(code), expected, "code {}", code);
    }
}

#[test]
fn event_type_out_of_table_is_unknown() {
    assert_eq!(EventType::from_code(999), EventType::Unknown);
    assert_eq!(EventType::from_code(0), EventType::Unknown);
    assert_eq!(EventType::from_code(-5), EventType::Unknown);
    assert_eq!(EventType::from_code(18), EventType::Unknown);
}

#[test]
fn case_column_wire_names() {
    assert_eq!(Column::CaseId.wire_name(), "ixBug");
    assert_eq!(Column::Title.wire_name(), "sTitle");
    assert_eq!(Column::Body.wire_name(), "sHtmlBody");
    assert_eq!(Column::Events.wire_name(), "events");
    assert_eq!(Column::Project.wire_name(), "sProject");
    assert_eq!(Column::ProjectId.wire_name(), "ixProject");
    assert_eq!(Column::Area.wire_name(), "sArea");
    assert_eq!(Column::Priority.wire_name(), "ixPriority");
    assert_eq!(Column::Status.wire_name(), "ixStatus");
    assert_eq!(Column::Category.wire_name(), "ixCategory");
    assert_eq!(Column::IsOpen.wire_name(), "fOpen");
}

#[test]
fn search_column_wire_names() {
    assert_eq!(columns::Column::TicketNumber.wire_name(), "ixBug");
    assert_eq!(columns::Column::Title.wire_name(), "sTitle");
    assert_eq!(columns::Column::Body.wire_name(), "sHtmlBody");
    assert_eq!(columns::Column::Events.wire_name(), "events");
}
