//! The query expression model: an ordered list of typed search
//! parameters folded into a single query record, and its rendering to
//! the wire query syntax.
//!
//! Folding applies last-write-wins per predicate kind; rendering emits
//! one clause per populated slot in a fixed field order, joined by `&`,
//! with date clauses double-quoted.

use crate::date::{parse_date, spec_parse_date, spec_render_date, Date};
use crate::decimal::{dec_str, render_u64};
use crate::json::JsonValue;
use crate::DecodeError;
use vstd::prelude::*;

verus! {

/// One search predicate, carrying exactly one value.
#[derive(Debug, Clone)]
pub enum Param {
    CaseId(u64),
    AssignedTo(String),
    FromEmail(String),
    OpenedDate(Date),
    ClosedDate(Date),
}

/// The folded query: one optional slot per predicate kind.
#[derive(Debug, Clone)]
pub struct Query {
    pub case_id: Option<u64>,
    pub assigned_to: Option<String>,
    pub from_email: Option<String>,
    pub opened_date: Option<Date>,
    pub closed_date: Option<Date>,
}

/// An ordered sequence of parameters, not yet folded.
#[derive(Debug)]
pub struct QueryBuilder(pub Vec<Param>);

/// The value of the last case-id parameter in the sequence, if any.
pub open spec fn last_case_id(ps: Seq<Param>) -> Option<u64>
    decreases ps.len(),
{
    if ps.len() == 0 {
        None
    } else {
        match ps.last() {
            Param::CaseId(id) => Some(id),
            _ => last_case_id(ps.drop_last()),
        }
    }
}

/// The value of the last assigned-to parameter in the sequence, if any.
pub open spec fn last_assigned_to(ps: Seq<Param>) -> Option<String>
    decreases ps.len(),
{
    if ps.len() == 0 {
        None
    } else {
        match ps.last() {
            Param::AssignedTo(name) => Some(name),
            _ => last_assigned_to(ps.drop_last()),
        }
    }
}

/// The value of the last from-email parameter in the sequence, if any.
pub open spec fn last_from_email(ps: Seq<Param>) -> Option<String>
    decreases ps.len(),
{
    if ps.len() == 0 {
        None
    } else {
        match ps.last() {
            Param::FromEmail(addr) => Some(addr),
            _ => last_from_email(ps.drop_last()),
        }
    }
}

/// The value of the last opened-date parameter in the sequence, if any.
pub open spec fn last_opened_date(ps: Seq<Param>) -> Option<Date>
    decreases ps.len(),
{
    if ps.len() == 0 {
        None
    } else {
        match ps.last() {
            Param::OpenedDate(d) => Some(d),
            _ => last_opened_date(ps.drop_last()),
        }
    }
}

/// The value of the last closed-date parameter in the sequence, if any.
pub open spec fn last_closed_date(ps: Seq<Param>) -> Option<Date>
    decreases ps.len(),
{
    if ps.len() == 0 {
        None
    } else {
        match ps.last() {
            Param::ClosedDate(d) => Some(d),
            _ => last_closed_date(ps.drop_last()),
        }
    }
}

/// Folding a parameter sequence: each slot takes the value of the last
/// parameter of its kind, so a later parameter silently replaces an
/// earlier one of the same kind.
pub open spec fn spec_build(ps: Seq<Param>) -> Query {
    Query {
        case_id: last_case_id(ps),
        assigned_to: last_assigned_to(ps),
        from_email: last_from_email(ps),
        opened_date: last_opened_date(ps),
        closed_date: last_closed_date(ps),
    }
}

impl QueryBuilder {
    pub fn new() -> (r: Self)
        ensures
            r.0@ =~= Seq::<Param>::empty(),
    {
        QueryBuilder(Vec::new())
    }

    pub fn add_param(self, param: Param) -> (r: Self)
        ensures
            r.0@ == self.0@.push(param),
    {
        let mut b = self;
        b.0.push(param);
        b
    }

    pub fn case_id(self, case_id: u64) -> (r: Self)
        ensures
            r.0@ == self.0@.push(Param::CaseId(case_id)),
    {
        self.add_param(Param::CaseId(case_id))
    }

    pub fn assigned_to(self, assigned_to: &str) -> (r: Self)
        ensures
            r.0@.len() == self.0@.len() + 1,
            r.0@.drop_last() == self.0@,
            r.0@.last() matches Param::AssignedTo(name) && name@ == assigned_to@,
    {
        let r = self.add_param(Param::AssignedTo(assigned_to.to_owned()));
        proof {
            assert(r.0@.drop_last() =~= self.0@);
        }
        r
    }

    pub fn from_email(self, from_email: &str) -> (r: Self)
        ensures
            r.0@.len() == self.0@.len() + 1,
            r.0@.drop_last() == self.0@,
            r.0@.last() matches Param::FromEmail(addr) && addr@ == from_email@,
    {
        let r = self.add_param(Param::FromEmail(from_email.to_owned()));
        proof {
            assert(r.0@.drop_last() =~= self.0@);
        }
        r
    }

    pub fn opened_date(self, opened_date: Date) -> (r: Self)
        ensures
            r.0@ == self.0@.push(Param::OpenedDate(opened_date)),
    {
        self.add_param(Param::OpenedDate(opened_date))
    }

    pub fn closed_date(self, closed_date: Date) -> (r: Self)
        ensures
            r.0@ == self.0@.push(Param::ClosedDate(closed_date)),
    {
        self.add_param(Param::ClosedDate(closed_date))
    }

    /// Fold the sequence left to right; the last parameter of each kind
    /// wins.
    pub fn build(self) -> (q: Query)
        ensures
            q == spec_build(self.0@),
    {
        let mut query = Query {
            case_id: None,
            assigned_to: None,
            from_email: None,
            opened_date: None,
            closed_date: None,
        };
        let n = self.0.len();
        let mut i: usize = 0;
        while i < n
            invariant
                n == self.0@.len(),
                0 <= i <= n,
                query == spec_build(self.0@.subrange(0, i as int)),
            decreases n - i,
        {
            proof {
                let pre = self.0@.subrange(0, i as int);
                let cur = self.0@.subrange(0, i + 1);
                assert(cur.drop_last() =~= pre);
                assert(cur.last() == self.0@[i as int]);
            }
            match &self.0[i] {
                Param::CaseId(id) => {
                    query.case_id = Some(*id);
                },
                Param::AssignedTo(name) => {
                    query.assigned_to = Some(name.clone());
                },
                Param::FromEmail(addr) => {
                    query.from_email = Some(addr.clone());
                },
                Param::OpenedDate(d) => {
                    query.opened_date = Some(*d);
                },
                Param::ClosedDate(d) => {
                    query.closed_date = Some(*d);
                },
            }
            i += 1;
        }
        proof {
            assert(self.0@.subrange(0, n as int) =~= self.0@);
        }
        query
    }
}

impl Query {
    pub fn builder() -> (r: QueryBuilder)
        ensures
            r.0@ =~= Seq::<Param>::empty(),
    {
        QueryBuilder::new()
    }
}

/// Last write wins: appending a parameter overwrites exactly the slot
/// of its own kind and leaves every other slot as it was.
pub proof fn lemma_build_last_write_wins(ps: Seq<Param>, p: Param)
    ensures
        spec_build(ps.push(p)) == (match p {
            Param::CaseId(id) => Query { case_id: Some(id), ..spec_build(ps) },
            Param::AssignedTo(name) => Query { assigned_to: Some(name), ..spec_build(ps) },
            Param::FromEmail(addr) => Query { from_email: Some(addr), ..spec_build(ps) },
            Param::OpenedDate(d) => Query { opened_date: Some(d), ..spec_build(ps) },
            Param::ClosedDate(d) => Query { closed_date: Some(d), ..spec_build(ps) },
        }),
{
    assert(ps.push(p).drop_last() =~= ps);
    assert(ps.push(p).last() == p);
}

/// Anything that collapses into a [`Query`].
pub trait IntoQuery {
    /// The query this value collapses into.
    spec fn spec_into_query(&self) -> Query;

    fn into_query(self) -> (q: Query) where Self: Sized
        ensures
            q == self.spec_into_query(),
    ;
}

impl IntoQuery for Query {
    open spec fn spec_into_query(&self) -> Query {
        *self
    }

    fn into_query(self) -> (q: Query) {
        self
    }
}

impl IntoQuery for QueryBuilder {
    open spec fn spec_into_query(&self) -> Query {
        spec_build(self.0@)
    }

    fn into_query(self) -> (q: Query) {
        self.build()
    }
}

/// The clauses a query renders to, in the fixed wire field order:
/// case id, assigned-to, from-email, opened date, closed date. Only the
/// date clauses are double-quoted.
pub open spec fn spec_query_clauses(q: Query) -> Seq<Seq<char>> {
    let cs = Seq::<Seq<char>>::empty();
    let cs = if q.case_id is Some {
        cs.push("ixBug:"@ + dec_str(q.case_id->Some_0 as nat))
    } else {
        cs
    };
    let cs = if q.assigned_to is Some {
        cs.push("assignedTo:"@ + q.assigned_to->Some_0@)
    } else {
        cs
    };
    let cs = if q.from_email is Some {
        cs.push("from:"@ + q.from_email->Some_0@)
    } else {
        cs
    };
    let cs = if q.opened_date is Some {
        cs.push("opened:\""@ + spec_render_date(q.opened_date->Some_0) + "\""@)
    } else {
        cs
    };
    let cs = if q.closed_date is Some {
        cs.push("closed:\""@ + spec_render_date(q.closed_date->Some_0) + "\""@)
    } else {
        cs
    };
    cs
}

/// Parts joined by a single `&`, with no leading or trailing separator.
pub open spec fn spec_join_amp(parts: Seq<Seq<char>>) -> Seq<char>
    decreases parts.len(),
{
    if parts.len() == 0 {
        Seq::empty()
    } else if parts.len() == 1 {
        parts[0]
    } else {
        spec_join_amp(parts.drop_last()) + seq!['&'] + parts.last()
    }
}

/// The wire form of a query.
pub open spec fn spec_render_query(q: Query) -> Seq<char> {
    spec_join_amp(spec_query_clauses(q))
}

/// Join rendered clauses with `&`.
fn join_amp(parts: &Vec<String>) -> (r: String)
    ensures
        r@ == spec_join_amp(parts@.map_values(|p: String| p@)),
{
    let ghost views = parts@.map_values(|p: String| p@);
    let mut out = String::new();
    let mut i: usize = 0;
    while i < parts.len()
        invariant
            parts@.map_values(|p: String| p@) == views,
            0 <= i <= parts@.len(),
            out@ == spec_join_amp(views.subrange(0, i as int)),
        decreases parts@.len() - i,
    {
        if i > 0 {
            out.append("&");
        }
        out.append(parts[i].as_str());
        proof {
            reveal_strlit("&");
            let pre = views.subrange(0, i as int);
            let cur = views.subrange(0, i + 1);
            assert(cur.drop_last() =~= pre);
            assert(cur.last() == parts@[i as int]@);
            if i == 0 {
                assert(out@ =~= cur[0]);
            } else {
                assert(out@ =~= spec_join_amp(pre) + seq!['&'] + cur.last());
            }
        }
        i += 1;
    }
    proof {
        assert(views.subrange(0, parts@.len() as int) =~= views);
    }
    out
}

impl Query {
    /// Render to the wire query syntax: one clause per populated slot,
    /// in fixed field order, joined by `&`.
    pub fn render(&self) -> (r: String)
        ensures
            r@ == spec_render_query(*self),
    {
        let mut parts: Vec<String> = Vec::new();
        if let Some(id) = self.case_id {
            let mut s = "ixBug:".to_owned();
            let num = render_u64(id);
            s.append(num.as_str());
            parts.push(s);
        }
        if let Some(name) = &self.assigned_to {
            let mut s = "assignedTo:".to_owned();
            s.append(name.as_str());
            parts.push(s);
        }
        if let Some(addr) = &self.from_email {
            let mut s = "from:".to_owned();
            s.append(addr.as_str());
            parts.push(s);
        }
        if let Some(d) = &self.opened_date {
            let mut s = "opened:\"".to_owned();
            let rendered = d.render();
            s.append(rendered.as_str());
            s.append("\"");
            parts.push(s);
        }
        if let Some(d) = &self.closed_date {
            let mut s = "closed:\"".to_owned();
            let rendered = d.render();
            s.append(rendered.as_str());
            s.append("\"");
            parts.push(s);
        }
        proof {
            assert(parts@.map_values(|p: String| p@) =~= spec_query_clauses(*self));
        }
        join_amp(&parts)
    }
}

/// What a JSON value decodes to as a date: the textual form re-parsed.
/// A malformed literal is a recoverable decode error carrying the parse
/// failure; it never aborts the containing decode.
pub open spec fn spec_decode_date(v: JsonValue) -> Result<Date, DecodeError> {
    match v {
        JsonValue::Str(s) => match spec_parse_date(s@) {
            Ok(d) => Ok(d),
            Err(e) => Err(DecodeError::BadDate(e)),
        },
        _ => Err(DecodeError::WrongType("date")),
    }
}

/// Decode a date from its JSON string form.
pub fn decode_date(v: &JsonValue) -> (r: Result<Date, DecodeError>)
    ensures
        r == spec_decode_date(*v),
{
    match v {
        JsonValue::Str(s) => match parse_date(s.as_str()) {
            Ok(d) => Ok(d),
            Err(e) => Err(DecodeError::BadDate(e)),
        },
        _ => Err(DecodeError::WrongType("date")),
    }
}

/// The first decode failure in a query object, if any, checking the
/// slots in declared order. Every slot is optional; an absent or null
/// member leaves its slot empty.
pub open spec fn spec_query_check(v: JsonValue) -> Option<DecodeError> {
    if !(v is Object) {
        Some(DecodeError::WrongType("query"))
    } else if !(v.spec_get("case_id"@) is None || v.spec_index("case_id"@) is Null || v.spec_index(
        "case_id"@,
    ).spec_as_u64() is Some) {
        Some(DecodeError::WrongType("case_id"))
    } else if !(v.spec_get("assigned_to"@) is None || v.spec_index("assigned_to"@) is Null
        || v.spec_index("assigned_to"@) is Str) {
        Some(DecodeError::WrongType("assigned_to"))
    } else if !(v.spec_get("from_email"@) is None || v.spec_index("from_email"@) is Null
        || v.spec_index("from_email"@) is Str) {
        Some(DecodeError::WrongType("from_email"))
    } else if !(v.spec_get("opened_date"@) is None || v.spec_index("opened_date"@) is Null
        || v.spec_index("opened_date"@) is Str) {
        Some(DecodeError::WrongType("opened_date"))
    } else if v.spec_index("opened_date"@) matches JsonValue::Str(s) && spec_parse_date(s@)
        is Err {
        Some(DecodeError::BadDate(spec_parse_date(v.spec_index("opened_date"@)->Str_0@)->Err_0))
    } else if !(v.spec_get("closed_date"@) is None || v.spec_index("closed_date"@) is Null
        || v.spec_index("closed_date"@) is Str) {
        Some(DecodeError::WrongType("closed_date"))
    } else if v.spec_index("closed_date"@) matches JsonValue::Str(s) && spec_parse_date(s@)
        is Err {
        Some(DecodeError::BadDate(spec_parse_date(v.spec_index("closed_date"@)->Str_0@)->Err_0))
    } else {
        None
    }
}

/// Whether `q` is the query that `v` decodes to.
pub open spec fn query_matches(q: Query, v: JsonValue) -> bool {
    &&& q.case_id == (match v.spec_get("case_id"@) {
        None => None::<u64>,
        Some(x) => if x is Null {
            None::<u64>
        } else {
            x.spec_as_u64()
        },
    })
    &&& q.assigned_to == (match v.spec_get("assigned_to"@) {
        Some(JsonValue::Str(s)) => Some(s),
        _ => None::<String>,
    })
    &&& q.from_email == (match v.spec_get("from_email"@) {
        Some(JsonValue::Str(s)) => Some(s),
        _ => None::<String>,
    })
    &&& q.opened_date == (match v.spec_get("opened_date"@) {
        Some(JsonValue::Str(s)) => Some(spec_parse_date(s@)->Ok_0),
        _ => None::<Date>,
    })
    &&& q.closed_date == (match v.spec_get("closed_date"@) {
        Some(JsonValue::Str(s)) => Some(spec_parse_date(s@)->Ok_0),
        _ => None::<Date>,
    })
}

/// Decode a query object; a malformed date literal in it is a
/// recoverable decode error, never an abort.
pub fn decode_query(v: &JsonValue) -> (r: Result<Query, DecodeError>)
    ensures
        match spec_query_check(*v) {
            Some(e) => r == Err::<Query, DecodeError>(e),
            None => r matches Ok(q) && query_matches(q, *v),
        },
{
    if !v.is_object() {
        return Err(DecodeError::WrongType("query"));
    }
    let case_id = match v.get("case_id") {
        None => None,
        Some(x) => {
            if let JsonValue::Null = x {
                None
            } else {
                match x.as_u64() {
                    None => {
                        return Err(DecodeError::WrongType("case_id"));
                    },
                    Some(id) => Some(id),
                }
            }
        },
    };
    let assigned_to = match v.get("assigned_to") {
        None => None,
        Some(x) => match x {
            JsonValue::Null => None,
            JsonValue::Str(s) => Some(s.clone()),
            _ => {
                return Err(DecodeError::WrongType("assigned_to"));
            },
        },
    };
    let from_email = match v.get("from_email") {
        None => None,
        Some(x) => match x {
            JsonValue::Null => None,
            JsonValue::Str(s) => Some(s.clone()),
            _ => {
                return Err(DecodeError::WrongType("from_email"));
            },
        },
    };
    let opened_date = match v.get("opened_date") {
        None => None,
        Some(x) => match x {
            JsonValue::Null => None,
            JsonValue::Str(s) => match parse_date(s.as_str()) {
                Ok(d) => Some(d),
                Err(e) => {
                    return Err(DecodeError::BadDate(e));
                },
            },
            _ => {
                return Err(DecodeError::WrongType("opened_date"));
            },
        },
    };
    let closed_date = match v.get("closed_date") {
        None => None,
        Some(x) => match x {
            JsonValue::Null => None,
            JsonValue::Str(s) => match parse_date(s.as_str()) {
                Ok(d) => Some(d),
                Err(e) => {
                    return Err(DecodeError::BadDate(e));
                },
            },
            _ => {
                return Err(DecodeError::WrongType("closed_date"));
            },
        },
    };
    Ok(Query { case_id, assigned_to, from_email, opened_date, closed_date })
}

} // verus!
