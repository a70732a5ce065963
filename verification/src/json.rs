//! A minimal JSON value model.
//!
//! The remote API answers with JSON whose shape varies (a single object,
//! or an array whose first element is the object of interest).  The
//! workflow logic only ever reads integer and string fields of such
//! payloads, so this model carries exactly that; the unverified shell
//! converts wire-format values into it and back.

use vstd::prelude::*;

verus! {

/// A JSON value as this client reads and writes it.
///
/// Numbers are carried as signed integers: every field the workflow
/// inspects (`status`, `id`, `animation_id`) is integral.
#[derive(Debug, PartialEq)]
pub enum JsonValue {
    Null,
    Bool(bool),
    Int(i64),
    Str(String),
    Arr(Vec<JsonValue>),
    Obj(Vec<(String, JsonValue)>),
}

/// First match of `key` among `pairs`, scanning from index `i`.
pub open spec fn pairs_lookup_from(pairs: Seq<(String, JsonValue)>, key: Seq<char>, i: int) -> Option<
    JsonValue,
>
    decreases pairs.len() - i,
{
    if i < 0 || i >= pairs.len() {
        None
    } else if pairs[i].0@ == key {
        Some(pairs[i].1)
    } else {
        pairs_lookup_from(pairs, key, i + 1)
    }
}

/// First match of `key` among `pairs`.
pub open spec fn pairs_lookup(pairs: Seq<(String, JsonValue)>, key: Seq<char>) -> Option<JsonValue> {
    pairs_lookup_from(pairs, key, 0)
}

impl JsonValue {
    /// The value of `key` in an object; `None` for any other shape.
    pub open spec fn spec_get(self, key: Seq<char>) -> Option<JsonValue> {
        match self {
            JsonValue::Obj(pairs) => pairs_lookup(pairs@, key),
            _ => None,
        }
    }

    /// The integer carried by this value, if it is one.
    pub open spec fn spec_as_int(self) -> Option<i64> {
        match self {
            JsonValue::Int(i) => Some(i),
            _ => None,
        }
    }

    /// The canonical record of a status payload: an array stands for its
    /// first element (an empty array has no record), anything else for
    /// itself.
    pub open spec fn spec_normalized(self) -> Option<JsonValue> {
        match self {
            JsonValue::Arr(items) => if items@.len() > 0 {
                Some(items@[0])
            } else {
                None
            },
            _ => Some(self),
        }
    }

    /// The integer field `key` of an object.
    pub open spec fn spec_int_field(self, key: Seq<char>) -> Option<i64> {
        match self.spec_get(key) {
            Some(v) => v.spec_as_int(),
            None => None,
        }
    }

    /// The string field `key` of an object.
    pub open spec fn spec_str_field(self, key: Seq<char>) -> Option<Seq<char>> {
        match self.spec_get(key) {
            Some(JsonValue::Str(s)) => Some(s@),
            _ => None,
        }
    }

    /// Look a key up in an object.
    pub fn get<'a>(&'a self, key: &str) -> (r: Option<&'a JsonValue>)
        ensures
            match r {
                Some(v) => self.spec_get(key@) == Some(*v),
                None => self.spec_get(key@) is None,
            },
    {
        match self {
            JsonValue::Obj(pairs) => {
                let key_string = key.to_owned();
                let n = pairs.len();
                let mut i: usize = 0;
                while i < n
                    invariant
                        0 <= i <= n,
                        n == pairs@.len(),
                        key_string@ == key@,
                        self.spec_get(key@) == pairs_lookup(pairs@, key@),
                        pairs_lookup(pairs@, key@) == pairs_lookup_from(pairs@, key@, i as int),
                    decreases n - i,
                {
                    let p = &pairs[i];
                    if p.0 == key_string {
                        return Some(&p.1);
                    }
                    i = i + 1;
                }
                None
            },
            _ => None,
        }
    }

    /// Read this value as an integer.
    pub fn as_int(&self) -> (r: Option<i64>)
        ensures
            r == self.spec_as_int(),
    {
        match self {
            JsonValue::Int(i) => Some(*i),
            _ => None,
        }
    }

    /// Normalize the object-or-array-of-object wire shapes into the one
    /// record the workflow reads.
    pub fn normalized<'a>(&'a self) -> (r: Option<&'a JsonValue>)
        ensures
            match r {
                Some(v) => self.spec_normalized() == Some(*v),
                None => self.spec_normalized() is None,
            },
    {
        match self {
            JsonValue::Arr(items) => if items.len() > 0 {
                Some(&items[0])
            } else {
                None
            },
            _ => Some(self),
        }
    }

    /// Read the integer field `key` of an object.
    pub fn int_field(&self, key: &str) -> (r: Option<i64>)
        ensures
            r == self.spec_int_field(key@),
    {
        match self.get(key) {
            Some(v) => v.as_int(),
            None => None,
        }
    }
}

} // verus!
