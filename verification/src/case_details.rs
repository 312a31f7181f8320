//! Fetching one case with its history: the typed records, the decoders
//! that turn the service's JSON into them, the response normalizer, and
//! the request builder.
//!
//! The event-type decoder is deliberately permissive: history entries
//! are informational, so an unrecognized code decodes to `Unknown`
//! rather than failing the whole fetch. The status, priority and
//! category decoders in [`crate::enums`] stay strict.

use crate::enums::{
    spec_category_of_code, spec_priority_of_code, spec_status_of_code, Category, Column, Priority,
    Status,
};
use crate::json::JsonValue;
use crate::{DecodeError, FogbugzApi, ResponseError};
use vstd::prelude::*;

verus! {

/// Whether a string parses as a UTC date-time; the outcome depends on
/// the characters alone.
pub uninterp spec fn utc_datetime_parse_ok(s: Seq<char>) -> bool;

/// Relies on chrono's `FromStr` for `DateTime<Utc>`, which accepts a
/// relaxed RFC 3339 form and is a pure function of the input text.
#[verifier::external_body]
fn utc_datetime_valid(s: &str) -> (r: bool)
    ensures
        r == utc_datetime_parse_ok(s@),
{
    s.parse::<chrono::DateTime<chrono::Utc>>().is_ok()
}

/// What happened in one case-history entry.
#[derive(Debug, Clone, Copy, PartialEq, Eq, Structural)]
pub enum EventType {
    Opened,
    Edited,
    Assigned,
    Reactivated,
    Reopened,
    Closed,
    Moved,
    Unknown,
    Replied,
    Forwarded,
    Received,
    Sorted,
    NotSorted,
    Resolved,
    Emailed,
    ReleaseNoted,
    DeletedAttachment,
}

/// The event type a code denotes: one-to-one for codes one through
/// seventeen, and `Unknown` for every other code — decoding an event
/// type never fails.
pub open spec fn spec_event_type_of_code(code: int) -> EventType {
    if code == 1 {
        EventType::Opened
    } else if code == 2 {
        EventType::Edited
    } else if code == 3 {
        EventType::Assigned
    } else if code == 4 {
        EventType::Reactivated
    } else if code == 5 {
        EventType::Reopened
    } else if code == 6 {
        EventType::Closed
    } else if code == 7 {
        EventType::Moved
    } else if code == 8 {
        EventType::Unknown
    } else if code == 9 {
        EventType::Replied
    } else if code == 10 {
        EventType::Forwarded
    } else if code == 11 {
        EventType::Received
    } else if code == 12 {
        EventType::Sorted
    } else if code == 13 {
        EventType::NotSorted
    } else if code == 14 {
        EventType::Resolved
    } else if code == 15 {
        EventType::Emailed
    } else if code == 16 {
        EventType::ReleaseNoted
    } else if code == 17 {
        EventType::DeletedAttachment
    } else {
        EventType::Unknown
    }
}

impl EventType {
    /// Decode an event-type code, permissively: a code outside the
    /// table becomes `Unknown`.
    pub fn from_code(code: i64) -> (r: EventType)
        ensures
            r == spec_event_type_of_code(code as int),
    {
        match code {
            1 => EventType::Opened,
            2 => EventType::Edited,
            3 => EventType::Assigned,
            4 => EventType::Reactivated,
            5 => EventType::Reopened,
            6 => EventType::Closed,
            7 => EventType::Moved,
            8 => EventType::Unknown,
            9 => EventType::Replied,
            10 => EventType::Forwarded,
            11 => EventType::Received,
            12 => EventType::Sorted,
            13 => EventType::NotSorted,
            14 => EventType::Resolved,
            15 => EventType::Emailed,
            16 => EventType::ReleaseNoted,
            17 => EventType::DeletedAttachment,
            _ => EventType::Unknown,
        }
    }
}

/// A file attached to a case-history entry.
#[derive(Debug, PartialEq)]
pub struct Attachment {
    pub file_name: String,
    pub url: String,
}

/// One immutable case-history entry.
#[derive(Debug, PartialEq)]
pub struct Event {
    pub event_type: EventType,
    pub description: String,
    /// The entry's timestamp text, validated as a UTC date-time.
    pub datetime: String,
    pub person_id: u64,
    pub person: String,
    pub assigned_to_id: Option<u64>,
    pub attachments: Option<Vec<Attachment>>,
    pub content: String,
}

/// One case with its history.
#[derive(Debug, PartialEq)]
pub struct CaseDetails {
    pub case_id: u64,
    pub title: String,
    pub project: String,
    pub is_open: bool,
    pub area: String,
    pub status: Status,
    pub priority: Priority,
    pub category: Category,
    pub events: Vec<Event>,
}

/// The first decode failure in an attachment object, if any: both
/// members must be present as strings.
pub open spec fn spec_attachment_check(v: JsonValue) -> Option<DecodeError> {
    if !(v is Object) {
        Some(DecodeError::WrongType("attachments"))
    } else {
        match v.spec_get("sFileName"@) {
            None => Some(DecodeError::MissingField("sFileName")),
            Some(f) => if !(f is Str) {
                Some(DecodeError::WrongType("sFileName"))
            } else {
                match v.spec_get("sURL"@) {
                    None => Some(DecodeError::MissingField("sURL")),
                    Some(u) => if !(u is Str) {
                        Some(DecodeError::WrongType("sURL"))
                    } else {
                        None
                    },
                }
            },
        }
    }
}

/// Whether `a` is the attachment that `v` decodes to.
pub open spec fn attachment_matches(a: Attachment, v: JsonValue) -> bool {
    &&& v.spec_get("sFileName"@) == Some(JsonValue::Str(a.file_name))
    &&& v.spec_get("sURL"@) == Some(JsonValue::Str(a.url))
}

/// Decode one attachment object.
pub fn decode_attachment(v: &JsonValue) -> (r: Result<Attachment, DecodeError>)
    ensures
        match spec_attachment_check(*v) {
            Some(e) => r == Err::<Attachment, DecodeError>(e),
            None => r matches Ok(a) && attachment_matches(a, *v),
        },
{
    if !v.is_object() {
        return Err(DecodeError::WrongType("attachments"));
    }
    let file_name = match v.get("sFileName") {
        None => {
            return Err(DecodeError::MissingField("sFileName"));
        },
        Some(f) => match f.as_str() {
            None => {
                return Err(DecodeError::WrongType("sFileName"));
            },
            Some(s) => s.clone(),
        },
    };
    let url = match v.get("sURL") {
        None => {
            return Err(DecodeError::MissingField("sURL"));
        },
        Some(u) => match u.as_str() {
            None => {
                return Err(DecodeError::WrongType("sURL"));
            },
            Some(s) => s.clone(),
        },
    };
    Ok(Attachment { file_name, url })
}

/// The first decode failure in the attachment array, in order.
pub open spec fn spec_attachments_check(items: Seq<JsonValue>) -> Option<DecodeError>
    decreases items.len(),
{
    if items.len() == 0 {
        None
    } else {
        match spec_attachment_check(items[0]) {
            Some(e) => Some(e),
            None => spec_attachments_check(items.drop_first()),
        }
    }
}

/// Whether `atts` is what the attachment array decodes to, element by
/// element in order.
pub open spec fn attachments_match(atts: Seq<Attachment>, items: Seq<JsonValue>) -> bool {
    atts.len() == items.len() && forall|i: int|
        0 <= i < items.len() ==> attachment_matches(#[trigger] atts[i], items[i])
}

/// Decode the attachment array of an event.
fn decode_attachments(items: &Vec<JsonValue>) -> (r: Result<Vec<Attachment>, DecodeError>)
    ensures
        match spec_attachments_check(items@) {
            Some(e) => r == Err::<Vec<Attachment>, DecodeError>(e),
            None => r matches Ok(atts) && attachments_match(atts@, items@),
        },
{
    let mut out: Vec<Attachment> = Vec::new();
    let n = items.len();
    let mut i: usize = 0;
    proof {
        assert(items@.skip(0) =~= items@);
    }
    while i < n
        invariant
            n == items@.len(),
            0 <= i <= n,
            out@.len() == i,
            spec_attachments_check(items@.skip(i as int)) == spec_attachments_check(items@),
            forall|k: int|
                0 <= k < i ==> attachment_matches(#[trigger] out@[k], items@[k])
                    && spec_attachment_check(items@[k]) is None,
        decreases n - i,
    {
        proof {
            assert(items@.skip(i as int)[0] == items@[i as int]);
            assert(items@.skip(i as int).drop_first() =~= items@.skip(i + 1));
        }
        match decode_attachment(&items[i]) {
            Ok(a) => {
                out.push(a);
            },
            Err(e) => {
                return Err(e);
            },
        }
        i += 1;
    }
    proof {
        assert(items@.skip(n as int).len() == 0);
    }
    Ok(out)
}

/// The first decode failure in an event object, if any, checking the
/// members in the record's field order.
pub open spec fn spec_event_check(v: JsonValue) -> Option<DecodeError> {
    if !(v is Object) {
        Some(DecodeError::WrongType("events"))
    } else if v.spec_get("evt"@) is None {
        Some(DecodeError::MissingField("evt"))
    } else if v.spec_index("evt"@).spec_as_i64() is None {
        Some(DecodeError::WrongType("evt"))
    } else if v.spec_get("evtDescription"@) is None {
        Some(DecodeError::MissingField("evtDescription"))
    } else if !(v.spec_index("evtDescription"@) is Str) {
        Some(DecodeError::WrongType("evtDescription"))
    } else if v.spec_get("dt"@) is None {
        Some(DecodeError::MissingField("dt"))
    } else if !(v.spec_index("dt"@) is Str) {
        Some(DecodeError::WrongType("dt"))
    } else if !utc_datetime_parse_ok(v.spec_index("dt"@)->Str_0@) {
        Some(DecodeError::BadTimestamp)
    } else if v.spec_get("ixPerson"@) is None {
        Some(DecodeError::MissingField("ixPerson"))
    } else if v.spec_index("ixPerson"@).spec_as_u64() is None {
        Some(DecodeError::WrongType("ixPerson"))
    } else if v.spec_get("sPerson"@) is None {
        Some(DecodeError::MissingField("sPerson"))
    } else if !(v.spec_index("sPerson"@) is Str) {
        Some(DecodeError::WrongType("sPerson"))
    } else if !(v.spec_get("ixPersonAssignedTo"@) is None || v.spec_index("ixPersonAssignedTo"@)
        is Null || v.spec_index("ixPersonAssignedTo"@).spec_as_u64() is Some) {
        Some(DecodeError::WrongType("ixPersonAssignedTo"))
    } else if !(v.spec_get("attachments"@) is None || v.spec_index("attachments"@) is Null
        || v.spec_index("attachments"@) is Array) {
        Some(DecodeError::WrongType("attachments"))
    } else if v.spec_index("attachments"@) matches JsonValue::Array(items)
        && spec_attachments_check(items@) is Some {
        spec_attachments_check(v.spec_index("attachments"@)->Array_0@)
    } else if v.spec_get("s"@) is None {
        Some(DecodeError::MissingField("s"))
    } else if !(v.spec_index("s"@) is Str) {
        Some(DecodeError::WrongType("s"))
    } else {
        None
    }
}

/// Whether `e` is the event that `v` decodes to.
pub open spec fn event_matches(e: Event, v: JsonValue) -> bool {
    &&& e.event_type == spec_event_type_of_code(v.spec_index("evt"@).spec_as_i64()->Some_0 as int)
    &&& v.spec_get("evtDescription"@) == Some(JsonValue::Str(e.description))
    &&& v.spec_get("dt"@) == Some(JsonValue::Str(e.datetime))
    &&& utc_datetime_parse_ok(e.datetime@)
    &&& v.spec_index("ixPerson"@).spec_as_u64() == Some(e.person_id)
    &&& v.spec_get("sPerson"@) == Some(JsonValue::Str(e.person))
    &&& (match v.spec_get("ixPersonAssignedTo"@) {
        None => e.assigned_to_id is None,
        Some(x) => if x is Null {
            e.assigned_to_id is None
        } else {
            e.assigned_to_id == x.spec_as_u64() && e.assigned_to_id is Some
        },
    })
    &&& (match v.spec_get("attachments"@) {
        None => e.attachments is None,
        Some(x) => match x {
            JsonValue::Null => e.attachments is None,
            JsonValue::Array(items) => e.attachments matches Some(atts) && attachments_match(
                atts@,
                items@,
            ),
            _ => false,
        },
    })
    &&& v.spec_get("s"@) == Some(JsonValue::Str(e.content))
}

/// Decode one case-history event object.
pub fn decode_event(v: &JsonValue) -> (r: Result<Event, DecodeError>)
    ensures
        match spec_event_check(*v) {
            Some(e) => r == Err::<Event, DecodeError>(e),
            None => r matches Ok(ev) && event_matches(ev, *v),
        },
{
    if !v.is_object() {
        return Err(DecodeError::WrongType("events"));
    }
    let event_type = match v.get("evt") {
        None => {
            return Err(DecodeError::MissingField("evt"));
        },
        Some(x) => match x.as_i64() {
            None => {
                return Err(DecodeError::WrongType("evt"));
            },
            Some(code) => EventType::from_code(code),
        },
    };
    let description = match v.get("evtDescription") {
        None => {
            return Err(DecodeError::MissingField("evtDescription"));
        },
        Some(x) => match x.as_str() {
            None => {
                return Err(DecodeError::WrongType("evtDescription"));
            },
            Some(s) => s.clone(),
        },
    };
    let datetime = match v.get("dt") {
        None => {
            return Err(DecodeError::MissingField("dt"));
        },
        Some(x) => match x.as_str() {
            None => {
                return Err(DecodeError::WrongType("dt"));
            },
            Some(s) => s.clone(),
        },
    };
    if !utc_datetime_valid(datetime.as_str()) {
        return Err(DecodeError::BadTimestamp);
    }
    let person_id = match v.get("ixPerson") {
        None => {
            return Err(DecodeError::MissingField("ixPerson"));
        },
        Some(x) => match x.as_u64() {
            None => {
                return Err(DecodeError::WrongType("ixPerson"));
            },
            Some(id) => id,
        },
    };
    let person = match v.get("sPerson") {
        None => {
            return Err(DecodeError::MissingField("sPerson"));
        },
        Some(x) => match x.as_str() {
            None => {
                return Err(DecodeError::WrongType("sPerson"));
            },
            Some(s) => s.clone(),
        },
    };
    let assigned_to_id = match v.get("ixPersonAssignedTo") {
        None => None,
        Some(x) => {
            if let JsonValue::Null = x {
                None
            } else {
                match x.as_u64() {
                    None => {
                        return Err(DecodeError::WrongType("ixPersonAssignedTo"));
                    },
                    Some(id) => Some(id),
                }
            }
        },
    };
    let attachments = match v.get("attachments") {
        None => None,
        Some(x) => match x {
            JsonValue::Null => None,
            JsonValue::Array(items) => match decode_attachments(items) {
                Ok(atts) => Some(atts),
                Err(e) => {
                    return Err(e);
                },
            },
            _ => {
                return Err(DecodeError::WrongType("attachments"));
            },
        },
    };
    let content = match v.get("s") {
        None => {
            return Err(DecodeError::MissingField("s"));
        },
        Some(x) => match x.as_str() {
            None => {
                return Err(DecodeError::WrongType("s"));
            },
            Some(s) => s.clone(),
        },
    };
    Ok(
        Event {
            event_type,
            description,
            datetime,
            person_id,
            person,
            assigned_to_id,
            attachments,
            content,
        },
    )
}

/// Whether a JSON value is an object: the test the normalizer applies
/// to each entry of an `events` array.
pub open spec fn obj_pred() -> spec_fn(JsonValue) -> bool {
    |e: JsonValue| e is Object
}

/// The events a decode works through: sanitized decoding first discards
/// the non-object padding entries the service is known to emit.
pub open spec fn spec_events_of(items: Seq<JsonValue>, sanitize: bool) -> Seq<JsonValue> {
    if sanitize {
        items.filter(obj_pred())
    } else {
        items
    }
}

/// The first decode failure in an event sequence, in order.
pub open spec fn spec_events_check(items: Seq<JsonValue>) -> Option<DecodeError>
    decreases items.len(),
{
    if items.len() == 0 {
        None
    } else {
        match spec_event_check(items[0]) {
            Some(e) => Some(e),
            None => spec_events_check(items.drop_first()),
        }
    }
}

/// Whether `es` is what the event sequence decodes to, element by
/// element in order.
pub open spec fn events_match(es: Seq<Event>, items: Seq<JsonValue>) -> bool {
    es.len() == items.len() && forall|i: int|
        0 <= i < items.len() ==> event_matches(#[trigger] es[i], items[i])
}

/// Every entry of a sanitized events array is an object: nothing but
/// the non-object padding is discarded.
pub proof fn lemma_sanitized_events_are_objects(items: Seq<JsonValue>)
    ensures
        forall|k: int|
            0 <= k < items.filter(obj_pred()).len() ==> #[trigger] items.filter(obj_pred())[k]
                is Object,
{
    assert forall|k: int|
        0 <= k < items.filter(obj_pred()).len() implies #[trigger] items.filter(obj_pred())[k]
        is Object by {
        items.lemma_filter_pred(obj_pred(), k);
    }
}

/// Discard every entry that is not a JSON object, keeping the objects
/// in their original relative order.
pub fn filter_objects(items: Vec<JsonValue>) -> (r: Vec<JsonValue>)
    ensures
        r@ == items@.filter(obj_pred()),
{
    let ghost orig = items@;
    let mut rest = items;
    let mut out: Vec<JsonValue> = Vec::new();
    let ghost mut i: int = 0;
    proof {
        assert(orig.take(0) =~= Seq::<JsonValue>::empty());
        reveal(Seq::filter);
        assert(out@ =~= orig.take(0).filter(obj_pred()));
    }
    while rest.len() > 0
        invariant
            0 <= i <= orig.len(),
            rest@ == orig.skip(i),
            out@ == orig.take(i).filter(obj_pred()),
        decreases rest@.len(),
    {
        proof {
            assert(rest@[0] == orig[i]);
            assert(orig.take(i + 1) =~= orig.take(i).push(orig[i]));
            Seq::lemma_filter_push(orig.take(i), orig[i], obj_pred());
        }
        let e = rest.remove(0);
        proof {
            assert(rest@ =~= orig.skip(i + 1));
        }
        if e.is_object() {
            out.push(e);
        }
        proof {
            i = i + 1;
        }
    }
    proof {
        assert(orig.take(orig.len() as int) =~= orig);
    }
    out
}

/// Decode the events array, optionally discarding non-object entries
/// first, the way the single-case normalizer does.
fn decode_events(items: &Vec<JsonValue>, sanitize: bool) -> (r: Result<Vec<Event>, DecodeError>)
    ensures
        match spec_events_check(spec_events_of(items@, sanitize)) {
            Some(e) => r == Err::<Vec<Event>, DecodeError>(e),
            None => r matches Ok(es) && events_match(es@, spec_events_of(items@, sanitize)),
        },
{
    let ghost evs = spec_events_of(items@, sanitize);
    let mut events: Vec<Event> = Vec::new();
    let n = items.len();
    let mut i: usize = 0;
    proof {
        reveal(Seq::filter);
        assert(items@.take(0) =~= Seq::<JsonValue>::empty());
        assert(spec_events_of(items@.take(0), sanitize) =~= evs.take(0));
        assert(evs.skip(0) =~= evs);
    }
    while i < n
        invariant
            n == items@.len(),
            0 <= i <= n,
            evs == spec_events_of(items@, sanitize),
            events@.len() <= evs.len(),
            evs.take(events@.len() as int) == spec_events_of(items@.take(i as int), sanitize),
            forall|k: int|
                0 <= k < events@.len() ==> spec_event_check(#[trigger] evs[k]) is None
                    && event_matches(events@[k], evs[k]),
            spec_events_check(evs.skip(events@.len() as int)) == spec_events_check(evs),
        decreases n - i,
    {
        let ghost j = events@.len() as int;
        proof {
            assert(items@.take(i + 1) =~= items@.take(i as int).push(items@[i as int]));
            if sanitize {
                Seq::lemma_filter_push(items@.take(i as int), items@[i as int], obj_pred());
            }
            assert(items@.take(i + 1) + items@.skip(i + 1) =~= items@);
            if sanitize {
                Seq::filter_distributes_over_add(items@.take(i + 1), items@.skip(i + 1), obj_pred());
            }
            assert(evs == spec_events_of(items@.take(i + 1), sanitize) + spec_events_of(
                items@.skip(i + 1),
                sanitize,
            ));
        }
        let item = &items[i];
        if sanitize && !item.is_object() {
            proof {
                assert(spec_events_of(items@.take(i + 1), sanitize) == evs.take(j));
            }
            i += 1;
            continue ;
        }
        proof {
            assert(spec_events_of(items@.take(i + 1), sanitize) == spec_events_of(
                items@.take(i as int),
                sanitize,
            ).push(items@[i as int]));
            let pre1 = spec_events_of(items@.take(i + 1), sanitize);
            assert(pre1.len() == j + 1);
            assert(j < evs.len());
            assert(evs.take(j + 1) =~= pre1);
            assert(evs[j] == pre1[j]);
            assert(evs[j] == items@[i as int]);
            assert(evs.skip(j)[0] == evs[j]);
        }
        match decode_event(item) {
            Ok(ev) => {
                events.push(ev);
                proof {
                    assert(evs.skip(j).drop_first() =~= evs.skip(j + 1));
                }
            },
            Err(e) => {
                proof {
                    assert(spec_events_check(evs.skip(j)) == Some(e));
                }
                return Err(e);
            },
        }
        i += 1;
    }
    proof {
        assert(items@.take(n as int) =~= items@);
        assert(evs.take(events@.len() as int) == evs.take(evs.len() as int));
        assert(evs.take(evs.len() as int) =~= evs);
        assert(events@.len() == evs.len());
        assert(evs.skip(evs.len() as int).len() == 0);
    }
    Ok(events)
}

/// The first decode failure in a case object, if any, checking the
/// members in the record's field order. With `sanitize` the events
/// array is first stripped of non-object entries.
pub open spec fn spec_case_check(v: JsonValue, sanitize: bool) -> Option<DecodeError> {
    if !(v is Object) {
        Some(DecodeError::WrongType("cases"))
    } else if v.spec_get("ixBug"@) is None {
        Some(DecodeError::MissingField("ixBug"))
    } else if v.spec_index("ixBug"@).spec_as_u64() is None {
        Some(DecodeError::WrongType("ixBug"))
    } else if v.spec_get("sTitle"@) is None {
        Some(DecodeError::MissingField("sTitle"))
    } else if !(v.spec_index("sTitle"@) is Str) {
        Some(DecodeError::WrongType("sTitle"))
    } else if v.spec_get("sProject"@) is None {
        Some(DecodeError::MissingField("sProject"))
    } else if !(v.spec_index("sProject"@) is Str) {
        Some(DecodeError::WrongType("sProject"))
    } else if v.spec_get("fOpen"@) is None {
        Some(DecodeError::MissingField("fOpen"))
    } else if !(v.spec_index("fOpen"@) is Bool) {
        Some(DecodeError::WrongType("fOpen"))
    } else if v.spec_get("sArea"@) is None {
        Some(DecodeError::MissingField("sArea"))
    } else if !(v.spec_index("sArea"@) is Str) {
        Some(DecodeError::WrongType("sArea"))
    } else if v.spec_get("ixStatus"@) is None {
        Some(DecodeError::MissingField("ixStatus"))
    } else if v.spec_index("ixStatus"@).spec_as_i64() is None {
        Some(DecodeError::WrongType("ixStatus"))
    } else if spec_status_of_code(v.spec_index("ixStatus"@).spec_as_i64()->Some_0 as int)
        is None {
        Some(DecodeError::UnknownStatus(v.spec_index("ixStatus"@).spec_as_i64()->Some_0))
    } else if v.spec_get("ixPriority"@) is None {
        Some(DecodeError::MissingField("ixPriority"))
    } else if v.spec_index("ixPriority"@).spec_as_i64() is None {
        Some(DecodeError::WrongType("ixPriority"))
    } else if spec_priority_of_code(v.spec_index("ixPriority"@).spec_as_i64()->Some_0 as int)
        is None {
        Some(DecodeError::UnknownPriority(v.spec_index("ixPriority"@).spec_as_i64()->Some_0))
    } else if v.spec_get("ixCategory"@) is None {
        Some(DecodeError::MissingField("ixCategory"))
    } else if v.spec_index("ixCategory"@).spec_as_i64() is None {
        Some(DecodeError::WrongType("ixCategory"))
    } else if spec_category_of_code(v.spec_index("ixCategory"@).spec_as_i64()->Some_0 as int)
        is None {
        Some(DecodeError::UnknownCategory(v.spec_index("ixCategory"@).spec_as_i64()->Some_0))
    } else if v.spec_get("events"@) is None {
        Some(DecodeError::MissingField("events"))
    } else if !(v.spec_index("events"@) is Array) {
        Some(DecodeError::WrongType("events"))
    } else {
        spec_events_check(spec_events_of(v.spec_index("events"@)->Array_0@, sanitize))
    }
}

/// Whether `c` is the case that `v` decodes to, with or without the
/// events array sanitized first.
pub open spec fn case_matches(c: CaseDetails, v: JsonValue, sanitize: bool) -> bool {
    &&& v.spec_index("ixBug"@).spec_as_u64() == Some(c.case_id)
    &&& v.spec_get("sTitle"@) == Some(JsonValue::Str(c.title))
    &&& v.spec_get("sProject"@) == Some(JsonValue::Str(c.project))
    &&& v.spec_get("fOpen"@) == Some(JsonValue::Bool(c.is_open))
    &&& v.spec_get("sArea"@) == Some(JsonValue::Str(c.area))
    &&& spec_status_of_code(v.spec_index("ixStatus"@).spec_as_i64()->Some_0 as int) == Some(
        c.status,
    )
    &&& spec_priority_of_code(v.spec_index("ixPriority"@).spec_as_i64()->Some_0 as int) == Some(
        c.priority,
    )
    &&& spec_category_of_code(v.spec_index("ixCategory"@).spec_as_i64()->Some_0 as int) == Some(
        c.category,
    )
    &&& events_match(c.events@, spec_events_of(v.spec_index("events"@)->Array_0@, sanitize))
}

/// Decode a case object, optionally sanitizing its events array first.
pub fn decode_case_object(v: &JsonValue, sanitize_events: bool) -> (r: Result<
    CaseDetails,
    DecodeError,
>)
    ensures
        match spec_case_check(*v, sanitize_events) {
            Some(e) => r == Err::<CaseDetails, DecodeError>(e),
            None => r matches Ok(c) && case_matches(c, *v, sanitize_events),
        },
{
    if !v.is_object() {
        return Err(DecodeError::WrongType("cases"));
    }
    let case_id = match v.get("ixBug") {
        None => {
            return Err(DecodeError::MissingField("ixBug"));
        },
        Some(x) => match x.as_u64() {
            None => {
                return Err(DecodeError::WrongType("ixBug"));
            },
            Some(id) => id,
        },
    };
    let title = match v.get("sTitle") {
        None => {
            return Err(DecodeError::MissingField("sTitle"));
        },
        Some(x) => match x.as_str() {
            None => {
                return Err(DecodeError::WrongType("sTitle"));
            },
            Some(s) => s.clone(),
        },
    };
    let project = match v.get("sProject") {
        None => {
            return Err(DecodeError::MissingField("sProject"));
        },
        Some(x) => match x.as_str() {
            None => {
                return Err(DecodeError::WrongType("sProject"));
            },
            Some(s) => s.clone(),
        },
    };
    let is_open = match v.get("fOpen") {
        None => {
            return Err(DecodeError::MissingField("fOpen"));
        },
        Some(x) => match x.as_bool() {
            None => {
                return Err(DecodeError::WrongType("fOpen"));
            },
            Some(b) => b,
        },
    };
    let area = match v.get("sArea") {
        None => {
            return Err(DecodeError::MissingField("sArea"));
        },
        Some(x) => match x.as_str() {
            None => {
                return Err(DecodeError::WrongType("sArea"));
            },
            Some(s) => s.clone(),
        },
    };
    let status = match v.get("ixStatus") {
        None => {
            return Err(DecodeError::MissingField("ixStatus"));
        },
        Some(x) => match x.as_i64() {
            None => {
                return Err(DecodeError::WrongType("ixStatus"));
            },
            Some(code) => match Status::from_code(code) {
                Ok(s) => s,
                Err(e) => {
                    return Err(e);
                },
            },
        },
    };
    let priority = match v.get("ixPriority") {
        None => {
            return Err(DecodeError::MissingField("ixPriority"));
        },
        Some(x) => match x.as_i64() {
            None => {
                return Err(DecodeError::WrongType("ixPriority"));
            },
            Some(code) => match Priority::from_code(code) {
                Ok(p) => p,
                Err(e) => {
                    return Err(e);
                },
            },
        },
    };
    let category = match v.get("ixCategory") {
        None => {
            return Err(DecodeError::MissingField("ixCategory"));
        },
        Some(x) => match x.as_i64() {
            None => {
                return Err(DecodeError::WrongType("ixCategory"));
            },
            Some(code) => match Category::from_code(code) {
                Ok(c) => c,
                Err(e) => {
                    return Err(e);
                },
            },
        },
    };
    let events = match v.get("events") {
        None => {
            return Err(DecodeError::MissingField("events"));
        },
        Some(x) => match x {
            JsonValue::Array(items) => match decode_events(items, sanitize_events) {
                Ok(es) => es,
                Err(e) => {
                    return Err(e);
                },
            },
            _ => {
                return Err(DecodeError::WrongType("events"));
            },
        },
    };
    Ok(CaseDetails { case_id, title, project, is_open, area, status, priority, category, events })
}

/// Decode a case object strictly: a non-object entry in the events
/// array is a decode failure. The single-case normalizer sanitizes
/// first; see [`case_details_response`].
pub fn decode_case_details(v: &JsonValue) -> (r: Result<CaseDetails, DecodeError>)
    ensures
        match spec_case_check(*v, false) {
            Some(e) => r == Err::<CaseDetails, DecodeError>(e),
            None => r matches Ok(c) && case_matches(c, *v, false),
        },
{
    decode_case_object(v, false)
}

/// The case object a single-case response envelope carries: the first
/// element of the `data.cases` array, `Null` when the shape is absent.
pub open spec fn spec_first_case(json: JsonValue) -> JsonValue {
    json.spec_index("data"@).spec_index("cases"@).spec_at(0)
}

/// Normalize and decode a single-case response.
///
/// A non-success response always becomes a service error carrying the
/// parsed body, never a decode failure. On success the first element of
/// `data.cases` has its events array stripped of non-object entries and
/// is then decoded.
pub fn case_details_response(json: JsonValue, success: bool) -> (r: Result<
    CaseDetails,
    ResponseError,
>)
    ensures
        !success ==> r == Err::<CaseDetails, ResponseError>(ResponseError::FogbugzError(json)),
        success ==> match spec_case_check(spec_first_case(json), true) {
            Some(e) => r == Err::<CaseDetails, ResponseError>(ResponseError::JsonError(e)),
            None => r matches Ok(c) && case_matches(c, spec_first_case(json), true),
        },
{
    if !success {
        return Err(ResponseError::FogbugzError(json));
    }
    let case0 = json.take_index("data").take_index("cases").take_first();
    match decode_case_object(&case0, true) {
        Ok(c) => Ok(c),
        Err(e) => Err(ResponseError::JsonError(e)),
    }
}

/// The columns a case-details fetch selects when the caller names none.
pub open spec fn default_case_columns() -> Seq<Seq<char>> {
    seq![
        "ixBug"@,
        "sTitle"@,
        "events"@,
        "sProject"@,
        "sArea"@,
        "ixPriority"@,
        "ixStatus"@,
        "ixCategory"@,
        "fOpen"@,
    ]
}

/// Turn a column selection into its wire field names.
pub fn column_names(cols: &Vec<Column>) -> (r: Vec<String>)
    ensures
        r@.map_values(|s: String| s@) == cols@.map_values(|c: Column| c.spec_wire_name()),
{
    let mut out: Vec<String> = Vec::new();
    let n = cols.len();
    let mut i: usize = 0;
    while i < n
        invariant
            n == cols@.len(),
            0 <= i <= n,
            out@.len() == i,
            forall|k: int| 0 <= k < i ==> (#[trigger] out@[k])@ == cols@[k].spec_wire_name(),
        decreases n - i,
    {
        out.push(cols[i].wire_name().to_owned());
        i += 1;
    }
    proof {
        assert(out@.map_values(|s: String| s@) =~= cols@.map_values(
            |c: Column| c.spec_wire_name(),
        ));
    }
    out
}

/// A ready case-details request: the case to fetch, the selected
/// columns, and the token the body carries.
#[derive(Debug)]
pub struct CaseDetailsRequest {
    pub case_id: u64,
    pub cols: Option<Vec<String>>,
    pub token: String,
    pub api: FogbugzApi,
}

/// Builder for [`CaseDetailsRequest`]; the case id and the API handle
/// must be supplied before `build`.
#[derive(Debug)]
pub struct CaseDetailsRequestBuilder {
    case_id: Option<u64>,
    cols: Option<Vec<String>>,
    api: Option<FogbugzApi>,
}

/// A required field was missing when a [`CaseDetailsRequestBuilder`]
/// was finalized.
#[derive(Debug, Clone, Copy, PartialEq, Eq, Structural)]
pub enum CaseDetailsRequestBuilderError {
    TicketNumberNotSpecified,
    ApiNotSpecified,
}

impl CaseDetailsRequestBuilder {
    /// The case id supplied so far.
    pub closed spec fn spec_case_id(&self) -> Option<u64> {
        self.case_id
    }

    /// The column wire names selected so far.
    pub closed spec fn spec_cols(&self) -> Option<Seq<Seq<char>>> {
        match self.cols {
            Some(cs) => Some(cs@.map_values(|s: String| s@)),
            None => None,
        }
    }

    /// The API handle supplied so far.
    pub closed spec fn spec_api(&self) -> Option<FogbugzApi> {
        self.api
    }

    /// A fresh builder selects the default column set.
    pub fn new() -> (r: Self)
        ensures
            r.spec_case_id() is None,
            r.spec_api() is None,
            r.spec_cols() == Some(default_case_columns()),
    {
        let cols: Vec<String> = vec![
            "ixBug".to_owned(),
            "sTitle".to_owned(),
            "events".to_owned(),
            "sProject".to_owned(),
            "sArea".to_owned(),
            "ixPriority".to_owned(),
            "ixStatus".to_owned(),
            "ixCategory".to_owned(),
            "fOpen".to_owned(),
        ];
        let b = CaseDetailsRequestBuilder { case_id: None, cols: Some(cols), api: None };
        proof {
            assert(b.spec_cols() matches Some(cs) && cs =~= default_case_columns());
        }
        b
    }

    pub fn case_id(self, ticket_number: u64) -> (r: Self)
        ensures
            r.spec_case_id() == Some(ticket_number),
            r.spec_cols() == self.spec_cols(),
            r.spec_api() == self.spec_api(),
    {
        let mut b = self;
        b.case_id = Some(ticket_number);
        b
    }

    /// Replace the column selection.
    pub fn cols(self, cols: Vec<Column>) -> (r: Self)
        ensures
            r.spec_cols() == Some(cols@.map_values(|c: Column| c.spec_wire_name())),
            r.spec_case_id() == self.spec_case_id(),
            r.spec_api() == self.spec_api(),
    {
        let mut b = self;
        b.cols = Some(column_names(&cols));
        b
    }

    /// Append one column to the selection, starting one when none is
    /// selected yet.
    pub fn add_col(self, col: Column) -> (r: Self)
        ensures
            match self.spec_cols() {
                Some(cs) => r.spec_cols() == Some(cs.push(col.spec_wire_name())),
                None => r.spec_cols() == Some(seq![col.spec_wire_name()]),
            },
            r.spec_case_id() == self.spec_case_id(),
            r.spec_api() == self.spec_api(),
    {
        let mut b = self;
        match b.cols {
            Some(ref mut cs) => {
                cs.push(col.wire_name().to_owned());
                proof {
                    assert(b.spec_cols() matches Some(ns) && ns =~= self.spec_cols()->Some_0.push(
                        col.spec_wire_name(),
                    ));
                }
            },
            None => {
                let mut cs: Vec<String> = Vec::new();
                cs.push(col.wire_name().to_owned());
                b.cols = Some(cs);
                proof {
                    assert(b.spec_cols() matches Some(ns) && ns =~= seq![col.spec_wire_name()]);
                }
            },
        }
        b
    }

    pub fn api(self, api: FogbugzApi) -> (r: Self)
        ensures
            r.spec_api() == Some(api),
            r.spec_case_id() == self.spec_case_id(),
            r.spec_cols() == self.spec_cols(),
    {
        let mut b = self;
        b.api = Some(api);
        b
    }

    /// Finalize: the case id is required first, then the API handle.
    /// The token is taken from the API handle's key.
    pub fn build(self) -> (r: Result<CaseDetailsRequest, CaseDetailsRequestBuilderError>)
        ensures
            match r {
                Ok(req) => self.spec_case_id() == Some(req.case_id) && self.spec_api() == Some(
                    req.api,
                ) && req.token == req.api.api_key && (match (self.spec_cols(), req.cols) {
                    (Some(sv), Some(rv)) => rv@.map_values(|s: String| s@) == sv,
                    (None, None) => true,
                    _ => false,
                }),
                Err(e) => (e == CaseDetailsRequestBuilderError::TicketNumberNotSpecified
                    && self.spec_case_id() is None) || (e
                    == CaseDetailsRequestBuilderError::ApiNotSpecified && self.spec_case_id()
                    is Some && self.spec_api() is None),
            },
    {
        let ticket_number = match self.case_id {
            Some(t) => t,
            None => {
                return Err(CaseDetailsRequestBuilderError::TicketNumberNotSpecified);
            },
        };
        let api = match self.api {
            Some(a) => a,
            None => {
                return Err(CaseDetailsRequestBuilderError::ApiNotSpecified);
            },
        };
        let token = api.api_key.clone();
        Ok(CaseDetailsRequest { case_id: ticket_number, cols: self.cols, token, api })
    }
}

impl CaseDetailsRequest {
    pub fn builder() -> (r: CaseDetailsRequestBuilder)
        ensures
            r.spec_case_id() is None,
            r.spec_api() is None,
            r.spec_cols() == Some(default_case_columns()),
    {
        CaseDetailsRequestBuilder::new()
    }

    /// The JSON body this request sends: the case id under `q`, the
    /// column selection when one is present, and the token.
    pub fn body_json(&self) -> (r: JsonValue)
        ensures
            r matches JsonValue::Object(fs) && ({
                let fields = fs@;
                match self.cols {
                    None => fields.len() == 2 && fields[0].0@ == "q"@ && fields[0].1
                        == JsonValue::UInt(self.case_id) && fields[1].0@ == "token"@ && fields[1].1
                        == JsonValue::Str(self.token),
                    Some(cols) => fields.len() == 3 && fields[0].0@ == "q"@ && fields[0].1
                        == JsonValue::UInt(self.case_id) && fields[1].0@ == "cols"@ && (
                    fields[1].1 matches JsonValue::Array(items) && items@.len() == cols@.len()
                        && (forall|k: int|
                        0 <= k < cols@.len() ==> #[trigger] items@[k] == JsonValue::Str(cols@[k])))
                        && fields[2].0@ == "token"@ && fields[2].1 == JsonValue::Str(self.token),
                }
            }),
    {
        let mut fields: Vec<(String, JsonValue)> = Vec::new();
        fields.push(("q".to_owned(), JsonValue::UInt(self.case_id)));
        if let Some(cols) = &self.cols {
            let mut items: Vec<JsonValue> = Vec::new();
            let n = cols.len();
            let mut i: usize = 0;
            while i < n
                invariant
                    n == cols@.len(),
                    0 <= i <= n,
                    items@.len() == i,
                    forall|k: int| 0 <= k < i ==> #[trigger] items@[k] == JsonValue::Str(cols@[k]),
                decreases n - i,
            {
                items.push(JsonValue::Str(cols[i].clone()));
                i += 1;
            }
            fields.push(("cols".to_owned(), JsonValue::Array(items)));
        }
        fields.push(("token".to_owned(), JsonValue::Str(self.token.clone())));
        JsonValue::Object(fields)
    }
}

} // verus!
