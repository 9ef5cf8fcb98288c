//! A structural model of JSON documents, holding exactly what the library's
//! logic reads: object members, array elements and string payloads.
//!
//! The unverified shell converts between this type and whatever its JSON
//! crate produces. Numeric payloads are never read by any logic here, so a
//! number is recorded only as being a number.

use vstd::prelude::*;

verus! {

pub enum JsonValue {
    Null,
    Bool(bool),
    Num,
    Str(String),
    Arr(Vec<JsonValue>),
    Obj(Vec<(String, JsonValue)>),
}

/// First member of `fields` whose key reads `key`, if any.
pub open spec fn spec_member_lookup(
    fields: Seq<(String, JsonValue)>,
    key: Seq<char>,
) -> Option<JsonValue>
    decreases fields.len(),
{
    if fields.len() == 0 {
        None
    } else if fields[0].0@ == key {
        Some(fields[0].1)
    } else {
        spec_member_lookup(fields.drop_first(), key)
    }
}

/// Member `key` of `v`, when `v` is an object that has it.
pub open spec fn spec_get_member(v: JsonValue, key: Seq<char>) -> Option<JsonValue> {
    match v {
        JsonValue::Obj(fields) => spec_member_lookup(fields@, key),
        _ => None,
    }
}

/// Element `i` of `v`, when `v` is an array long enough.
pub open spec fn spec_get_index(v: JsonValue, i: int) -> Option<JsonValue> {
    match v {
        JsonValue::Arr(items) => if 0 <= i < items@.len() {
            Some(items@[i])
        } else {
            None
        },
        _ => None,
    }
}

/// The characters of `v`, when `v` is a string.
pub open spec fn spec_as_str(v: JsonValue) -> Option<Seq<char>> {
    match v {
        JsonValue::Str(s) => Some(s@),
        _ => None,
    }
}

impl JsonValue {
    pub fn get_member<'a>(&'a self, key: &String) -> (r: Option<&'a JsonValue>)
        ensures
            match r {
                Some(m) => spec_get_member(*self, key@) == Some(*m),
                None => spec_get_member(*self, key@) is None,
            },
    {
        match self {
            JsonValue::Obj(fields) => {
                let n = fields.len();
                let mut i: usize = 0;
                assert(fields@.subrange(0, n as int) =~= fields@);
                while i < n
                    invariant
                        n == fields@.len(),
                        i <= n,
                        spec_get_member(*self, key@) == spec_member_lookup(fields@, key@),
                        spec_member_lookup(fields@, key@) == spec_member_lookup(
                            fields@.subrange(i as int, n as int),
                            key@,
                        ),
                    decreases n - i,
                {
                    let sub = Ghost(fields@.subrange(i as int, n as int));
                    if fields[i].0 == *key {
                        return Some(&fields[i].1);
                    }
                    proof {
                        assert(sub@.drop_first() =~= fields@.subrange(i + 1, n as int));
                    }
                    i = i + 1;
                }
                None
            },
            _ => None,
        }
    }

    pub fn get_index<'a>(&'a self, i: usize) -> (r: Option<&'a JsonValue>)
        ensures
            match r {
                Some(m) => spec_get_index(*self, i as int) == Some(*m),
                None => spec_get_index(*self, i as int) is None,
            },
    {
        match self {
            JsonValue::Arr(items) => if i < items.len() {
                Some(&items[i])
            } else {
                None
            },
            _ => None,
        }
    }

    pub fn as_str<'a>(&'a self) -> (r: Option<&'a String>)
        ensures
            match r {
                Some(s) => spec_as_str(*self) == Some(s@),
                None => spec_as_str(*self) is None,
            },
    {
        match self {
            JsonValue::Str(s) => Some(s),
            _ => None,
        }
    }
}

} // verus!
