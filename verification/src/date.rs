//! The date and date-range literals used inside queries.
//!
//! A point in time is written `"D-M-Y"`; a range is two points joined by
//! `".."`. Fields are decimal integers with no calendar validation, so a
//! parsed value is only a triple of numbers. Parsing and rendering
//! round-trip: rendering a parsed canonical literal reproduces it, and
//! parsing a rendered value yields the value back.

use crate::decimal::{
    dec_str, is_canon_dec_string, is_digit, lemma_canon_round_trip, lemma_dec_str_form,
    lemma_dec_str_value, parse_u32_digits, render_u32, seq_to_nat, spec_parse_u32,
};
use vstd::prelude::*;

verus! {

/// A calendar day: day, month and year, unvalidated.
#[derive(Debug, Clone, Copy, PartialEq, Eq, Structural)]
pub struct PointInTime {
    pub day: u32,
    pub month: u32,
    pub year: u32,
}

/// A pair of points in time; no ordering between them is enforced.
#[derive(Debug, Clone, Copy, PartialEq, Eq, Structural)]
pub struct DateRange {
    pub start: PointInTime,
    pub end: PointInTime,
}

/// Either a single point in time or a range, as a query value.
#[derive(Debug, Clone, Copy, PartialEq, Eq, Structural)]
pub enum Date {
    PointInTime(PointInTime),
    DateRange(DateRange),
}

/// Why a date literal was rejected.
#[derive(Debug, Clone, Copy, PartialEq, Eq, Structural)]
pub enum ParseError {
    /// A field is empty, contains a non-digit, or overflows 32 bits.
    BadInteger,
    /// Splitting on the separator did not yield the expected field count.
    WrongFieldCount,
}

impl PointInTime {
    pub fn new(day: u32, month: u32, year: u32) -> (r: Self)
        ensures
            r == (PointInTime { day, month, year }),
    {
        PointInTime { day, month, year }
    }
}

impl DateRange {
    pub fn new(start: PointInTime, end: PointInTime) -> (r: Self)
        ensures
            r == (DateRange { start, end }),
    {
        DateRange { start, end }
    }
}

impl From<PointInTime> for Date {
    fn from(point_in_time: PointInTime) -> (r: Date) {
        Date::PointInTime(point_in_time)
    }
}

impl vstd::std_specs::convert::FromSpecImpl<PointInTime> for Date {
    open spec fn obeys_from_spec() -> bool {
        true
    }

    open spec fn from_spec(point_in_time: PointInTime) -> Date {
        Date::PointInTime(point_in_time)
    }
}

impl From<DateRange> for Date {
    fn from(date_range: DateRange) -> (r: Date) {
        Date::DateRange(date_range)
    }
}

impl vstd::std_specs::convert::FromSpecImpl<DateRange> for Date {
    open spec fn obeys_from_spec() -> bool {
        true
    }

    open spec fn from_spec(date_range: DateRange) -> Date {
        Date::DateRange(date_range)
    }
}

impl From<(PointInTime, PointInTime)> for DateRange {
    fn from(endpoints: (PointInTime, PointInTime)) -> (r: DateRange) {
        DateRange { start: endpoints.0, end: endpoints.1 }
    }
}

impl vstd::std_specs::convert::FromSpecImpl<(PointInTime, PointInTime)> for DateRange {
    open spec fn obeys_from_spec() -> bool {
        true
    }

    open spec fn from_spec(endpoints: (PointInTime, PointInTime)) -> DateRange {
        DateRange { start: endpoints.0, end: endpoints.1 }
    }
}

impl From<(PointInTime, PointInTime)> for Date {
    fn from(endpoints: (PointInTime, PointInTime)) -> (r: Date) {
        Date::DateRange(DateRange { start: endpoints.0, end: endpoints.1 })
    }
}

impl vstd::std_specs::convert::FromSpecImpl<(PointInTime, PointInTime)> for Date {
    open spec fn obeys_from_spec() -> bool {
        true
    }

    open spec fn from_spec(endpoints: (PointInTime, PointInTime)) -> Date {
        Date::DateRange(DateRange { start: endpoints.0, end: endpoints.1 })
    }
}

/// The position of the first occurrence of `c` in `s`, if any.
pub open spec fn first_sep(s: Seq<char>, c: char) -> Option<int>
    decreases s.len(),
{
    if s.len() == 0 {
        None
    } else if s[0] == c {
        Some(0)
    } else {
        match first_sep(s.drop_first(), c) {
            Some(j) => Some(j + 1),
            None => None,
        }
    }
}

/// Whether the two-character separator `".."` occurs at position `k`.
pub open spec fn dotdot_at(s: Seq<char>, k: int) -> bool {
    0 <= k && k + 2 <= s.len() && s[k] == '.' && s[k + 1] == '.'
}

/// The position of the first occurrence of `".."` in `s`, if any.
pub open spec fn first_dotdot(s: Seq<char>) -> Option<int>
    decreases s.len(),
{
    if s.len() < 2 {
        None
    } else if s[0] == '.' && s[1] == '.' {
        Some(0)
    } else {
        match first_dotdot(s.drop_first()) {
            Some(j) => Some(j + 1),
            None => None,
        }
    }
}

pub proof fn lemma_first_sep_props(s: Seq<char>, c: char)
    ensures
        match first_sep(s, c) {
            Some(j) => 0 <= j < s.len() && s[j] == c && forall|k: int| 0 <= k < j ==> s[k] != c,
            None => forall|k: int| 0 <= k < s.len() ==> s[k] != c,
        },
    decreases s.len(),
{
    if s.len() > 0 && s[0] != c {
        let t = s.drop_first();
        lemma_first_sep_props(t, c);
        assert(forall|k: int| 0 <= k < t.len() ==> t[k] == s[k + 1]);
        match first_sep(t, c) {
            Some(j) => {
                assert(first_sep(s, c) == Some(j + 1));
                assert(s[j + 1] == t[j]);
                assert forall|k: int| 0 <= k < j + 1 implies s[k] != c by {
                    if k >= 1 {
                        assert(s[k] == t[k - 1]);
                    }
                }
            },
            None => {
                assert(first_sep(s, c) == None::<int>);
                assert forall|k: int| 0 <= k < s.len() implies s[k] != c by {
                    if k >= 1 {
                        assert(s[k] == t[k - 1]);
                    }
                }
            },
        }
    }
}

pub proof fn lemma_first_sep_at(s: Seq<char>, c: char, j: int)
    requires
        0 <= j < s.len(),
        s[j] == c,
        forall|k: int| 0 <= k < j ==> s[k] != c,
    ensures
        first_sep(s, c) == Some(j),
{
    lemma_first_sep_props(s, c);
    match first_sep(s, c) {
        Some(i) => {
            if i < j {
                assert(s[i] != c);
            } else if i > j {
                assert(s[j] != c);
            }
        },
        None => {
            assert(s[j] != c);
        },
    }
}

pub proof fn lemma_first_sep_none(s: Seq<char>, c: char)
    requires
        forall|k: int| 0 <= k < s.len() ==> s[k] != c,
    ensures
        first_sep(s, c) == None::<int>,
{
    lemma_first_sep_props(s, c);
    match first_sep(s, c) {
        Some(i) => {
            assert(s[i] != c);
        },
        None => {},
    }
}

pub proof fn lemma_first_dotdot_props(s: Seq<char>)
    ensures
        match first_dotdot(s) {
            Some(j) => dotdot_at(s, j) && forall|k: int| 0 <= k < j ==> !dotdot_at(s, k),
            None => forall|k: int| !dotdot_at(s, k),
        },
    decreases s.len(),
{
    if s.len() >= 2 && !(s[0] == '.' && s[1] == '.') {
        lemma_first_dotdot_props(s.drop_first());
        let t = s.drop_first();
        assert(forall|k: int| 0 <= k < t.len() ==> t[k] == s[k + 1]);
        assert(forall|k: int| dotdot_at(s, k) && k >= 1 ==> dotdot_at(t, k - 1));
        assert(forall|k: int| dotdot_at(t, k) ==> dotdot_at(s, k + 1));
    }
}

pub proof fn lemma_first_dotdot_at(s: Seq<char>, j: int)
    requires
        dotdot_at(s, j),
        forall|k: int| 0 <= k < j ==> !dotdot_at(s, k),
    ensures
        first_dotdot(s) == Some(j),
{
    lemma_first_dotdot_props(s);
    match first_dotdot(s) {
        Some(i) => {
            if i < j {
                assert(!dotdot_at(s, i));
            } else if i > j {
                assert(!dotdot_at(s, j));
            }
        },
        None => {
            assert(!dotdot_at(s, j));
        },
    }
}

pub proof fn lemma_first_dotdot_none(s: Seq<char>)
    requires
        forall|k: int| !dotdot_at(s, k),
    ensures
        first_dotdot(s) == None::<int>,
{
    lemma_first_dotdot_props(s);
    match first_dotdot(s) {
        Some(i) => {
            assert(!dotdot_at(s, i));
        },
        None => {},
    }
}

/// The three `-`-separated fields of a point-in-time literal, when the
/// split yields exactly three.
pub open spec fn spec_point_fields(s: Seq<char>) -> Option<(Seq<char>, Seq<char>, Seq<char>)> {
    match first_sep(s, '-') {
        None => None,
        Some(i) => {
            let rest = s.subrange(i + 1, s.len() as int);
            match first_sep(rest, '-') {
                None => None,
                Some(j) => {
                    let seg3 = rest.subrange(j + 1, rest.len() as int);
                    if first_sep(seg3, '-') is Some {
                        None
                    } else {
                        Some((s.subrange(0, i), rest.subrange(0, j), seg3))
                    }
                },
            }
        },
    }
}

/// What a point-in-time literal parses to: the split must yield exactly
/// three fields, each a decimal number that fits in 32 bits.
pub open spec fn spec_parse_point_in_time(s: Seq<char>) -> Result<PointInTime, ParseError> {
    match spec_point_fields(s) {
        None => Err(ParseError::WrongFieldCount),
        Some((a, b, c)) => match (spec_parse_u32(a), spec_parse_u32(b), spec_parse_u32(c)) {
            (Some(day), Some(month), Some(year)) => Ok(PointInTime { day, month, year }),
            _ => Err(ParseError::BadInteger),
        },
    }
}

/// The two halves of a range literal, when `".."` occurs exactly once.
pub open spec fn spec_range_halves(s: Seq<char>) -> Option<(Seq<char>, Seq<char>)> {
    match first_dotdot(s) {
        None => None,
        Some(i) => {
            let b = s.subrange(i + 2, s.len() as int);
            if first_dotdot(b) is Some {
                None
            } else {
                Some((s.subrange(0, i), b))
            }
        },
    }
}

/// What a date-range literal parses to: exactly one `".."` separator,
/// each side a point-in-time literal.
pub open spec fn spec_parse_date_range(s: Seq<char>) -> Result<DateRange, ParseError> {
    match spec_range_halves(s) {
        None => Err(ParseError::WrongFieldCount),
        Some((a, b)) => match spec_parse_point_in_time(a) {
            Err(e) => Err(e),
            Ok(start) => match spec_parse_point_in_time(b) {
                Err(e) => Err(e),
                Ok(end) => Ok(DateRange { start, end }),
            },
        },
    }
}

/// What a date literal parses to: a range when `".."` occurs in it, a
/// point in time otherwise.
pub open spec fn spec_parse_date(s: Seq<char>) -> Result<Date, ParseError> {
    if first_dotdot(s) is Some {
        match spec_parse_date_range(s) {
            Ok(r) => Ok(Date::DateRange(r)),
            Err(e) => Err(e),
        }
    } else {
        match spec_parse_point_in_time(s) {
            Ok(p) => Ok(Date::PointInTime(p)),
            Err(e) => Err(e),
        }
    }
}

/// Parse a `"D-M-Y"` literal.
pub fn parse_point_in_time(s: &str) -> (r: Result<PointInTime, ParseError>)
    ensures
        r == spec_parse_point_in_time(s@),
{
    let n = s.unicode_len();
    let mut i: usize = 0;
    while i < n && s.get_char(i) != '-'
        invariant
            n == s@.len(),
            0 <= i <= n,
            forall|k: int| 0 <= k < i ==> s@[k] != '-',
        decreases n - i,
    {
        i += 1;
    }
    if i == n {
        proof {
            lemma_first_sep_none(s@, '-');
        }
        return Err(ParseError::WrongFieldCount);
    }
    proof {
        lemma_first_sep_at(s@, '-', i as int);
    }
    let ghost rest = s@.subrange(i + 1, n as int);
    let mut j: usize = i + 1;
    while j < n && s.get_char(j) != '-'
        invariant
            n == s@.len(),
            i + 1 <= j <= n,
            forall|k: int| i + 1 <= k < j ==> s@[k] != '-',
        decreases n - j,
    {
        j += 1;
    }
    if j == n {
        proof {
            assert(forall|k: int| 0 <= k < rest.len() ==> rest[k] == s@[i + 1 + k] && rest[k]
                != '-');
            lemma_first_sep_none(rest, '-');
        }
        return Err(ParseError::WrongFieldCount);
    }
    proof {
        assert(forall|k: int| 0 <= k < rest.len() ==> rest[k] == s@[i + 1 + k]);
        assert(rest[j - i - 1] == '-');
        lemma_first_sep_at(rest, '-', j - i - 1);
    }
    let ghost seg3 = rest.subrange(j - i, rest.len() as int);
    let mut m: usize = j + 1;
    while m < n && s.get_char(m) != '-'
        invariant
            n == s@.len(),
            j + 1 <= m <= n,
            forall|k: int| j + 1 <= k < m ==> s@[k] != '-',
        decreases n - m,
    {
        m += 1;
    }
    proof {
        assert(forall|k: int| 0 <= k < seg3.len() ==> seg3[k] == s@[j + 1 + k]);
    }
    if m < n {
        proof {
            assert(seg3[m - j - 1] == '-');
            lemma_first_sep_at(seg3, '-', m - j - 1);
        }
        return Err(ParseError::WrongFieldCount);
    }
    proof {
        assert(forall|k: int| 0 <= k < seg3.len() ==> seg3[k] != '-');
        lemma_first_sep_none(seg3, '-');
        assert(spec_point_fields(s@) == Some(
            (s@.subrange(0, i as int), rest.subrange(0, j - i - 1), seg3),
        ));
        assert(rest.subrange(0, j - i - 1) =~= s@.subrange(i + 1, j as int));
        assert(seg3 =~= s@.subrange(j + 1, n as int));
    }
    let day = parse_u32_digits(s, 0, i);
    let month = parse_u32_digits(s, i + 1, j);
    let year = parse_u32_digits(s, j + 1, n);
    match (day, month, year) {
        (Some(day), Some(month), Some(year)) => Ok(PointInTime { day, month, year }),
        _ => Err(ParseError::BadInteger),
    }
}

/// Find the first occurrence of `".."` at or after `from`, as the index
/// where it starts, or the string length when there is none.
fn scan_dotdot(s: &str, from: usize) -> (r: usize)
    requires
        from <= s@.len(),
    ensures
        from <= r <= s@.len(),
        forall|k: int| from <= k < r ==> !dotdot_at(s@, k),
        r < s@.len() ==> dotdot_at(s@, r as int),
{
    let n = s.unicode_len();
    let mut i: usize = from;
    loop
        invariant
            n == s@.len(),
            from <= i <= n,
            forall|k: int| from <= k < i ==> !dotdot_at(s@, k),
        decreases n - i,
    {
        if n - i < 2 {
            proof {
                assert(forall|k: int| i <= k < n ==> !dotdot_at(s@, k));
            }
            return n;
        }
        if s.get_char(i) == '.' && s.get_char(i + 1) == '.' {
            return i;
        }
        i += 1;
    }
}

/// Parse a `"D-M-Y..D-M-Y"` literal.
pub fn parse_date_range(s: &str) -> (r: Result<DateRange, ParseError>)
    ensures
        r == spec_parse_date_range(s@),
{
    let n = s.unicode_len();
    let i = scan_dotdot(s, 0);
    if i == n {
        proof {
            assert(forall|k: int| !dotdot_at(s@, k));
            lemma_first_dotdot_none(s@);
        }
        return Err(ParseError::WrongFieldCount);
    }
    proof {
        lemma_first_dotdot_at(s@, i as int);
    }
    let ghost bseq = s@.subrange(i + 2, n as int);
    let m = scan_dotdot(s, i + 2);
    if m < n {
        proof {
            assert(forall|k: int| 0 <= k < bseq.len() ==> bseq[k] == s@[i + 2 + k]);
            assert(dotdot_at(bseq, m - i - 2));
            assert forall|k: int| 0 <= k < m - i - 2 implies !dotdot_at(bseq, k) by {
                assert(bseq[k] == s@[i + 2 + k]);
                assert(bseq[k + 1] == s@[i + 2 + k + 1]);
                assert(!dotdot_at(s@, i + 2 + k));
            }
            lemma_first_dotdot_at(bseq, m - i - 2);
        }
        return Err(ParseError::WrongFieldCount);
    }
    proof {
        assert(forall|k: int| 0 <= k < bseq.len() ==> bseq[k] == s@[i + 2 + k]);
        assert forall|k: int| !dotdot_at(bseq, k) by {
            if 0 <= k && k + 2 <= bseq.len() {
                assert(bseq[k] == s@[i + 2 + k]);
                assert(bseq[k + 1] == s@[i + 2 + k + 1]);
                assert(!dotdot_at(s@, i + 2 + k));
            }
        }
        lemma_first_dotdot_none(bseq);
        assert(spec_range_halves(s@) == Some((s@.subrange(0, i as int), bseq)));
    }
    let a = s.substring_char(0, i);
    let b = s.substring_char(i + 2, n);
    match parse_point_in_time(a) {
        Err(e) => Err(e),
        Ok(start) => match parse_point_in_time(b) {
            Err(e) => Err(e),
            Ok(end) => Ok(DateRange { start, end }),
        },
    }
}

/// Parse a date literal: a range when it contains `".."`, a point in
/// time otherwise.
pub fn parse_date(s: &str) -> (r: Result<Date, ParseError>)
    ensures
        r == spec_parse_date(s@),
{
    let n = s.unicode_len();
    let i = scan_dotdot(s, 0);
    if i < n {
        proof {
            lemma_first_dotdot_at(s@, i as int);
        }
        match parse_date_range(s) {
            Ok(r) => Ok(Date::DateRange(r)),
            Err(e) => Err(e),
        }
    } else {
        proof {
            assert(forall|k: int| !dotdot_at(s@, k));
            lemma_first_dotdot_none(s@);
        }
        match parse_point_in_time(s) {
            Ok(p) => Ok(Date::PointInTime(p)),
            Err(e) => Err(e),
        }
    }
}

/// The canonical rendering of a point in time: `"D-M-Y"` with each field
/// in decimal notation without leading zeros.
pub open spec fn spec_render_point_in_time(p: PointInTime) -> Seq<char> {
    dec_str(p.day as nat) + seq!['-'] + dec_str(p.month as nat) + seq!['-'] + dec_str(
        p.year as nat,
    )
}

/// The canonical rendering of a range: the two endpoints joined by `".."`.
pub open spec fn spec_render_date_range(r: DateRange) -> Seq<char> {
    spec_render_point_in_time(r.start) + seq!['.', '.'] + spec_render_point_in_time(r.end)
}

pub open spec fn spec_render_date(d: Date) -> Seq<char> {
    match d {
        Date::PointInTime(p) => spec_render_point_in_time(p),
        Date::DateRange(r) => spec_render_date_range(r),
    }
}

impl PointInTime {
    /// Render as `"D-M-Y"`.
    pub fn render(&self) -> (r: String)
        ensures
            r@ == spec_render_point_in_time(*self),
    {
        let mut out = render_u32(self.day);
        out.append("-");
        let m = render_u32(self.month);
        out.append(m.as_str());
        out.append("-");
        let y = render_u32(self.year);
        out.append(y.as_str());
        proof {
            reveal_strlit("-");
            assert(out@ =~= spec_render_point_in_time(*self));
        }
        out
    }
}

impl DateRange {
    /// Render as `"D-M-Y..D-M-Y"`.
    pub fn render(&self) -> (r: String)
        ensures
            r@ == spec_render_date_range(*self),
    {
        let mut out = self.start.render();
        out.append("..");
        let e = self.end.render();
        out.append(e.as_str());
        proof {
            reveal_strlit("..");
            assert(out@ =~= spec_render_date_range(*self));
        }
        out
    }
}

impl Date {
    /// Render in the textual form used inside queries and request bodies.
    pub fn render(&self) -> (r: String)
        ensures
            r@ == spec_render_date(*self),
    {
        match self {
            Date::PointInTime(p) => p.render(),
            Date::DateRange(r) => r.render(),
        }
    }
}

/// Every character of a rendered point in time is a digit or `'-'`.
pub proof fn lemma_render_point_chars(p: PointInTime)
    ensures
        forall|k: int|
            0 <= k < spec_render_point_in_time(p).len() ==> (is_digit(
                #[trigger] spec_render_point_in_time(p)[k],
            ) || spec_render_point_in_time(p)[k] == '-'),
{
    let a = dec_str(p.day as nat);
    let b = dec_str(p.month as nat);
    let c = dec_str(p.year as nat);
    let s = spec_render_point_in_time(p);
    lemma_dec_str_form(p.day as nat);
    lemma_dec_str_form(p.month as nat);
    lemma_dec_str_form(p.year as nat);
    assert forall|k: int| 0 <= k < s.len() implies (is_digit(s[k]) || s[k] == '-') by {
        if k < a.len() {
            assert(s[k] == a[k]);
        } else if k == a.len() {
            assert(s[k] == '-');
        } else if k < a.len() + 1 + b.len() {
            assert(s[k] == b[k - a.len() - 1]);
        } else if k == a.len() + 1 + b.len() {
            assert(s[k] == '-');
        } else {
            assert(s[k] == c[k - a.len() - b.len() - 2]);
        }
    }
}

/// Rendering a point in time and parsing the result yields it back.
pub proof fn lemma_point_render_parse(p: PointInTime)
    ensures
        spec_parse_point_in_time(spec_render_point_in_time(p)) == Ok::<
            PointInTime,
            ParseError,
        >(p),
{
    let a = dec_str(p.day as nat);
    let b = dec_str(p.month as nat);
    let c = dec_str(p.year as nat);
    let s = spec_render_point_in_time(p);
    lemma_dec_str_form(p.day as nat);
    lemma_dec_str_form(p.month as nat);
    lemma_dec_str_form(p.year as nat);
    lemma_dec_str_value(p.day as nat);
    lemma_dec_str_value(p.month as nat);
    lemma_dec_str_value(p.year as nat);
    let i = a.len() as int;
    assert(s[i] == '-');
    assert forall|k: int| 0 <= k < i implies s[k] != '-' by {
        assert(s[k] == a[k]);
        assert(is_digit(a[k]));
    }
    lemma_first_sep_at(s, '-', i);
    let rest = s.subrange(i + 1, s.len() as int);
    assert(rest =~= b + seq!['-'] + c);
    let j = b.len() as int;
    assert(rest[j] == '-');
    assert forall|k: int| 0 <= k < j implies rest[k] != '-' by {
        assert(rest[k] == b[k]);
        assert(is_digit(b[k]));
    }
    lemma_first_sep_at(rest, '-', j);
    let seg3 = rest.subrange(j + 1, rest.len() as int);
    assert(seg3 =~= c);
    assert forall|k: int| 0 <= k < seg3.len() implies seg3[k] != '-' by {
        assert(is_digit(c[k]));
    }
    lemma_first_sep_none(seg3, '-');
    assert(spec_point_fields(s) == Some((s.subrange(0, i), rest.subrange(0, j), seg3)));
    assert(s.subrange(0, i) =~= a);
    assert(rest.subrange(0, j) =~= b);
    assert(spec_parse_u32(a) == Some(p.day));
    assert(spec_parse_u32(b) == Some(p.month));
    assert(spec_parse_u32(c) == Some(p.year));
}

/// A point-in-time literal whose three fields carry no leading zeros.
pub open spec fn is_canonical_point_literal(s: Seq<char>) -> bool {
    match spec_point_fields(s) {
        Some((a, b, c)) => is_canon_dec_string(a) && is_canon_dec_string(b)
            && is_canon_dec_string(c),
        None => false,
    }
}

/// Parsing a canonical point-in-time literal and rendering the value
/// reproduces the literal.
pub proof fn lemma_point_parse_render(s: Seq<char>, p: PointInTime)
    requires
        spec_parse_point_in_time(s) == Ok::<PointInTime, ParseError>(p),
        is_canonical_point_literal(s),
    ensures
        spec_render_point_in_time(p) == s,
{
    let (a, b, c) = spec_point_fields(s)->Some_0;
    lemma_first_sep_props(s, '-');
    let i = first_sep(s, '-')->Some_0;
    let rest = s.subrange(i + 1, s.len() as int);
    lemma_first_sep_props(rest, '-');
    let j = first_sep(rest, '-')->Some_0;
    assert(a == s.subrange(0, i));
    assert(b == rest.subrange(0, j));
    assert(c == rest.subrange(j + 1, rest.len() as int));
    assert(s[i] == '-');
    assert(s[i + 1 + j] == rest[j] && rest[j] == '-');
    assert(p.day as nat == seq_to_nat(a));
    assert(p.month as nat == seq_to_nat(b));
    assert(p.year as nat == seq_to_nat(c));
    lemma_canon_round_trip(a);
    lemma_canon_round_trip(b);
    lemma_canon_round_trip(c);
    assert(spec_render_point_in_time(p) == a + seq!['-'] + b + seq!['-'] + c);
    assert(a + seq!['-'] + b + seq!['-'] + c =~= s);
}

/// Rendering a date range and parsing the result yields it back.
pub proof fn lemma_range_render_parse(r: DateRange)
    ensures
        spec_parse_date_range(spec_render_date_range(r)) == Ok::<DateRange, ParseError>(r),
{
    let a = spec_render_point_in_time(r.start);
    let b = spec_render_point_in_time(r.end);
    let s = spec_render_date_range(r);
    lemma_render_point_chars(r.start);
    lemma_render_point_chars(r.end);
    let i = a.len() as int;
    assert(s[i] == '.' && s[i + 1] == '.');
    assert(dotdot_at(s, i));
    assert forall|k: int| 0 <= k < i implies !dotdot_at(s, k) by {
        assert(s[k] == a[k]);
        assert(is_digit(a[k]) || a[k] == '-');
        assert(s[k] != '.');
    }
    lemma_first_dotdot_at(s, i);
    let bseq = s.subrange(i + 2, s.len() as int);
    assert(bseq =~= b);
    assert forall|k: int| !dotdot_at(bseq, k) by {
        if 0 <= k && k + 2 <= bseq.len() {
            assert(bseq[k] == b[k]);
            assert(is_digit(b[k]) || b[k] == '-');
            assert(bseq[k] != '.');
        }
    }
    lemma_first_dotdot_none(bseq);
    assert(spec_range_halves(s) == Some((s.subrange(0, i), bseq)));
    assert(s.subrange(0, i) =~= a);
    lemma_point_render_parse(r.start);
    lemma_point_render_parse(r.end);
}

/// Rendering any date and parsing the result yields it back.
pub proof fn lemma_date_render_parse(d: Date)
    ensures
        spec_parse_date(spec_render_date(d)) == Ok::<Date, ParseError>(d),
{
    match d {
        Date::PointInTime(p) => {
            let s = spec_render_point_in_time(p);
            lemma_render_point_chars(p);
            assert forall|k: int| !dotdot_at(s, k) by {
                if 0 <= k && k + 2 <= s.len() {
                    assert(is_digit(s[k]) || s[k] == '-');
                    assert(s[k] != '.');
                }
            }
            lemma_first_dotdot_none(s);
            lemma_point_render_parse(p);
        },
        Date::DateRange(r) => {
            let a = spec_render_point_in_time(r.start);
            let s = spec_render_date_range(r);
            lemma_render_point_chars(r.start);
            let i = a.len() as int;
            assert(s[i] == '.' && s[i + 1] == '.');
            assert(dotdot_at(s, i));
            assert forall|k: int| 0 <= k < i implies !dotdot_at(s, k) by {
                assert(s[k] == a[k]);
                assert(is_digit(a[k]) || a[k] == '-');
                assert(s[k] != '.');
            }
            lemma_first_dotdot_at(s, i);
            lemma_range_render_parse(r);
        },
    }
}

/// A range literal both of whose halves are canonical point-in-time
/// literals.
pub open spec fn is_canonical_range_literal(s: Seq<char>) -> bool {
    match spec_range_halves(s) {
        Some((a, b)) => is_canonical_point_literal(a) && is_canonical_point_literal(b),
        None => false,
    }
}

/// Parsing a canonical range literal and rendering the value reproduces
/// the literal.
pub proof fn lemma_range_parse_render(s: Seq<char>, r: DateRange)
    requires
        spec_parse_date_range(s) == Ok::<DateRange, ParseError>(r),
        is_canonical_range_literal(s),
    ensures
        spec_render_date_range(r) == s,
{
    let (a, b) = spec_range_halves(s)->Some_0;
    lemma_first_dotdot_props(s);
    let i = first_dotdot(s)->Some_0;
    assert(a == s.subrange(0, i));
    assert(b == s.subrange(i + 2, s.len() as int));
    assert(s[i] == '.' && s[i + 1] == '.');
    lemma_point_parse_render(a, r.start);
    lemma_point_parse_render(b, r.end);
    assert(spec_render_date_range(r) == a + seq!['.', '.'] + b);
    assert(a + seq!['.', '.'] + b =~= s);
}

} // verus!

