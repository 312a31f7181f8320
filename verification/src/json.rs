//! A model of JSON documents built from plain values.
//!
//! The service replies with JSON; the transport layer hands the library
//! a value of this type, and the response normalizer and decoders work
//! on it. An object keeps its members in order as a list of pairs; a
//! number is an integer of either sign, or, when it has a fractional
//! part, its text carried opaquely.

use vstd::prelude::*;

verus! {

/// A JSON document.
#[derive(Debug)]
pub enum JsonValue {
    Null,
    Bool(bool),
    /// An integer number representable as `i64`.
    Int(i64),
    /// An integer number above `i64::MAX`, representable as `u64`.
    UInt(u64),
    /// A number with a fractional part, carried as its text.
    Float(String),
    Str(String),
    Array(Vec<JsonValue>),
    Object(Vec<(String, JsonValue)>),
}

/// The value of the first member named `key`, if any.
pub open spec fn spec_obj_get(fields: Seq<(String, JsonValue)>, key: Seq<char>) -> Option<
    JsonValue,
>
    decreases fields.len(),
{
    if fields.len() == 0 {
        None
    } else if fields[0].0@ == key {
        Some(fields[0].1)
    } else {
        spec_obj_get(fields.drop_first(), key)
    }
}

impl JsonValue {
    /// Member lookup on an object; `None` on any other value.
    pub open spec fn spec_get(self, key: Seq<char>) -> Option<JsonValue> {
        match self {
            JsonValue::Object(fields) => spec_obj_get(fields@, key),
            _ => None,
        }
    }

    /// Member lookup that yields `Null` for a missing member or a
    /// non-object, the way the service's envelope is probed.
    pub open spec fn spec_index(self, key: Seq<char>) -> JsonValue {
        match self.spec_get(key) {
            Some(v) => v,
            None => JsonValue::Null,
        }
    }

    /// Element lookup that yields `Null` past the end or on a non-array.
    pub open spec fn spec_at(self, i: int) -> JsonValue {
        match self {
            JsonValue::Array(items) => if 0 <= i < items@.len() {
                items@[i]
            } else {
                JsonValue::Null
            },
            _ => JsonValue::Null,
        }
    }

    /// The unsigned integer a JSON number denotes, if it fits.
    pub open spec fn spec_as_u64(self) -> Option<u64> {
        match self {
            JsonValue::Int(i) => if i >= 0 {
                Some(i as u64)
            } else {
                None
            },
            JsonValue::UInt(u) => Some(u),
            _ => None,
        }
    }

    /// The signed integer a JSON number denotes, if it fits.
    pub open spec fn spec_as_i64(self) -> Option<i64> {
        match self {
            JsonValue::Int(i) => Some(i),
            JsonValue::UInt(u) => if u <= i64::MAX as u64 {
                Some(u as i64)
            } else {
                None
            },
            _ => None,
        }
    }
}

/// Character-wise string comparison.
pub fn str_eq(a: &str, b: &str) -> (r: bool)
    ensures
        r == (a@ == b@),
{
    let na = a.unicode_len();
    let nb = b.unicode_len();
    if na != nb {
        return false;
    }
    let mut i: usize = 0;
    while i < na
        invariant
            na == a@.len(),
            na == b@.len(),
            0 <= i <= na,
            forall|k: int| 0 <= k < i ==> a@[k] == b@[k],
        decreases na - i,
    {
        if a.get_char(i) != b.get_char(i) {
            return false;
        }
        i += 1;
    }
    proof {
        assert(a@ =~= b@);
    }
    true
}

impl JsonValue {
    /// Borrow the value of the first member named `key`, if this is an
    /// object that has one.
    pub fn get<'a>(&'a self, key: &str) -> (r: Option<&'a JsonValue>)
        ensures
            match r {
                Some(v) => self.spec_get(key@) == Some(*v),
                None => self.spec_get(key@) is None,
            },
    {
        match self {
            JsonValue::Object(fields) => {
                let n = fields.len();
                let mut i: usize = 0;
                proof {
                    assert(fields@.skip(0) =~= fields@);
                }
                while i < n
                    invariant
                        *self matches JsonValue::Object(f) && f == *fields,
                        n == fields@.len(),
                        0 <= i <= n,
                        spec_obj_get(fields@.skip(i as int), key@) == spec_obj_get(fields@, key@),
                    decreases n - i,
                {
                    proof {
                        assert(fields@.skip(i as int)[0] == fields@[i as int]);
                        assert(fields@.skip(i as int).drop_first() =~= fields@.skip(i + 1));
                    }
                    if str_eq(fields[i].0.as_str(), key) {
                        proof {
                            assert(spec_obj_get(fields@.skip(i as int), key@) == Some(
                                fields@[i as int].1,
                            ));
                        }
                        return Some(&fields[i].1);
                    }
                    i += 1;
                }
                proof {
                    assert(fields@.skip(n as int).len() == 0);
                }
                None
            },
            _ => None,
        }
    }

    /// Whether this is an object.
    pub fn is_object(&self) -> (r: bool)
        ensures
            r == (self is Object),
    {
        match self {
            JsonValue::Object(_) => true,
            _ => false,
        }
    }

    pub fn as_u64(&self) -> (r: Option<u64>)
        ensures
            r == self.spec_as_u64(),
    {
        match self {
            JsonValue::Int(i) => {
                if *i >= 0 {
                    Some(*i as u64)
                } else {
                    None
                }
            },
            JsonValue::UInt(u) => Some(*u),
            _ => None,
        }
    }

    pub fn as_i64(&self) -> (r: Option<i64>)
        ensures
            r == self.spec_as_i64(),
    {
        match self {
            JsonValue::Int(i) => Some(*i),
            JsonValue::UInt(u) => {
                if *u <= i64::MAX as u64 {
                    Some(*u as i64)
                } else {
                    None
                }
            },
            _ => None,
        }
    }

    /// Borrow the text of a string value.
    pub fn as_str<'a>(&'a self) -> (r: Option<&'a String>)
        ensures
            match r {
                Some(s) => self matches JsonValue::Str(t) && t == *s,
                None => !(self is Str),
            },
    {
        match self {
            JsonValue::Str(s) => Some(s),
            _ => None,
        }
    }

    pub fn as_bool(&self) -> (r: Option<bool>)
        ensures
            match r {
                Some(b) => self == JsonValue::Bool(b),
                None => !(self is Bool),
            },
    {
        match self {
            JsonValue::Bool(b) => Some(*b),
            _ => None,
        }
    }

    /// Take the value of the first member named `key` out of an object,
    /// yielding `Null` for a missing member or a non-object.
    pub fn take_index(self, key: &str) -> (r: JsonValue)
        ensures
            r == self.spec_index(key@),
    {
        match self {
            JsonValue::Object(mut fields) => {
                let n = fields.len();
                let mut i: usize = 0;
                proof {
                    assert(fields@.skip(0) =~= fields@);
                }
                while i < n
                    invariant
                        self matches JsonValue::Object(f) && f@ == fields@,
                        n == fields@.len(),
                        0 <= i <= n,
                        spec_obj_get(fields@.skip(i as int), key@) == spec_obj_get(fields@, key@),
                    decreases n - i,
                {
                    proof {
                        assert(fields@.skip(i as int)[0] == fields@[i as int]);
                        assert(fields@.skip(i as int).drop_first() =~= fields@.skip(i + 1));
                    }
                    if str_eq(fields[i].0.as_str(), key) {
                        proof {
                            assert(spec_obj_get(fields@.skip(i as int), key@) == Some(
                                fields@[i as int].1,
                            ));
                        }
                        let pair = fields.remove(i);
                        return pair.1;
                    }
                    i += 1;
                }
                proof {
                    assert(fields@.skip(n as int).len() == 0);
                }
                JsonValue::Null
            },
            _ => JsonValue::Null,
        }
    }

    /// Take the first element out of an array, yielding `Null` when the
    /// array is empty or this is not an array.
    pub fn take_first(self) -> (r: JsonValue)
        ensures
            r == self.spec_at(0),
    {
        match self {
            JsonValue::Array(mut items) => {
                if items.len() == 0 {
                    JsonValue::Null
                } else {
                    items.remove(0)
                }
            },
            _ => JsonValue::Null,
        }
    }
}

} // verus!
