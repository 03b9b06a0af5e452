//! A plain model of JSON values.
//!
//! The HTTP layer of the shell deserializes responses with an outside
//! parser and converts them into this type, so the response-shape logic of
//! the library works on data it fully owns. Numeric payloads are never
//! inspected by that logic, so the number variant records only that a
//! number was present. An object is a key-ordered list of entries; lookup
//! takes the first entry with the requested key.

use vstd::prelude::*;

use crate::text::str_eq;

verus! {

/// A JSON document.
#[derive(Debug)]
pub enum JsonValue {
    Null,
    Bool(bool),
    Number,
    Str(String),
    Arr(Vec<JsonValue>),
    Obj(Vec<(String, JsonValue)>),
}

/// The first value under `key` in `entries`, if any.
pub open spec fn spec_obj_get(entries: Seq<(String, JsonValue)>, key: Seq<char>) -> Option<
    JsonValue,
>
    decreases entries.len(),
{
    if entries.len() == 0 {
        None
    } else if entries[0].0@ == key {
        Some(entries[0].1)
    } else {
        spec_obj_get(entries.subrange(1, entries.len() as int), key)
    }
}

/// Skipping entries whose keys do not match leaves the lookup unchanged.
proof fn lemma_obj_get_skip(entries: Seq<(String, JsonValue)>, key: Seq<char>, i: int)
    requires
        0 <= i <= entries.len(),
        forall|k: int| 0 <= k < i ==> (#[trigger] entries[k]).0@ != key,
    ensures
        spec_obj_get(entries, key) == spec_obj_get(entries.subrange(i, entries.len() as int), key),
    decreases i,
{
    if i > 0 {
        lemma_obj_get_skip(entries, key, i - 1);
        let s1 = entries.subrange(i - 1, entries.len() as int);
        let s2 = entries.subrange(i, entries.len() as int);
        assert(s1[0] == entries[i - 1]);
        assert(s1[0].0@ != key);
        assert(s1.subrange(1, s1.len() as int) =~= s2);
        assert(spec_obj_get(s1, key) == spec_obj_get(s2, key));
        assert(spec_obj_get(entries, key) == spec_obj_get(s1, key));
    } else {
        assert(entries.subrange(0, entries.len() as int) =~= entries);
    }
}

impl JsonValue {
    /// The value under `key`, when this is an object holding one.
    pub open spec fn spec_get(self, key: Seq<char>) -> Option<JsonValue> {
        match self {
            JsonValue::Obj(entries) => spec_obj_get(entries@, key),
            _ => None,
        }
    }

    /// The element at `i`, when this is an array long enough.
    pub open spec fn spec_index(self, i: int) -> Option<JsonValue> {
        match self {
            JsonValue::Arr(items) => if 0 <= i < items@.len() {
                Some(items@[i])
            } else {
                None
            },
            _ => None,
        }
    }

    /// The string payload, when this is a string.
    pub fn as_str(&self) -> (r: Option<&String>)
        ensures
            match r {
                Some(s) => *self matches JsonValue::Str(t) && s@ == t@,
                None => !(*self matches JsonValue::Str(_)),
            },
    {
        match self {
            JsonValue::Str(s) => Some(s),
            _ => None,
        }
    }

    /// The elements, when this is an array.
    pub fn as_array(&self) -> (r: Option<&Vec<JsonValue>>)
        ensures
            match r {
                Some(items) => *self == JsonValue::Arr(*items),
                None => !(*self matches JsonValue::Arr(_)),
            },
    {
        match self {
            JsonValue::Arr(items) => Some(items),
            _ => None,
        }
    }

    /// The entries, when this is an object.
    pub fn as_object(&self) -> (r: Option<&Vec<(String, JsonValue)>>)
        ensures
            match r {
                Some(entries) => *self == JsonValue::Obj(*entries),
                None => !(*self matches JsonValue::Obj(_)),
            },
    {
        match self {
            JsonValue::Obj(entries) => Some(entries),
            _ => None,
        }
    }

    /// Look a key up: the first entry under `key` when this is an object
    /// holding one, `None` otherwise.
    pub fn get<'a>(&'a self, key: &str) -> (r: Option<&'a JsonValue>)
        ensures
            match r {
                Some(v) => self.spec_get(key@) == Some(*v),
                None => self.spec_get(key@) is None,
            },
    {
        match self {
            JsonValue::Obj(entries) => {
                let mut i: usize = 0;
                while i < entries.len()
                    invariant
                        i <= entries@.len(),
                        self.spec_get(key@) == spec_obj_get(entries@, key@),
                        forall|k: int| 0 <= k < i ==> (#[trigger] entries@[k]).0@ != key@,
                    decreases entries@.len() - i,
                {
                    if str_eq(entries[i].0.as_str(), key) {
                        proof {
                            lemma_obj_get_skip(entries@, key@, i as int);
                            let s = entries@.subrange(i as int, entries@.len() as int);
                            assert(s[0] == entries@[i as int]);
                            assert(s[0].0@ == key@);
                            assert(spec_obj_get(s, key@) == Some(s[0].1));
                            assert(self.spec_get(key@) == spec_obj_get(entries@, key@));
                        }
                        return Some(&entries[i].1);
                    }
                    i += 1;
                }
                proof {
                    lemma_obj_get_skip(entries@, key@, entries@.len() as int);
                    assert(entries@.subrange(
                        entries@.len() as int,
                        entries@.len() as int,
                    ).len() == 0);
                }
                None
            },
            _ => None,
        }
    }

    /// Index an array: the element at `i` when this is an array long
    /// enough, `None` otherwise.
    pub fn get_index(&self, i: usize) -> (r: Option<&JsonValue>)
        ensures
            match r {
                Some(v) => self.spec_index(i as int) == Some(*v),
                None => self.spec_index(i as int) is None,
            },
    {
        match self {
            JsonValue::Arr(items) => {
                if i < items.len() {
                    Some(&items[i])
                } else {
                    None
                }
            },
            _ => None,
        }
    }
}

} // verus!
