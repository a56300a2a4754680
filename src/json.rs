//! A JSON document as the dispatcher reads it.
use vstd::prelude::*;

verus! {

/// One JSON value. Numbers keep their textual form: nothing here computes
/// with them. An object holds each key at most once, as a parsed JSON map
/// does; a lookup reads the first entry with the key it asks for.
#[derive(Debug, PartialEq, Eq)]
pub enum JsonValue {
    Null,
    Bool(bool),
    Number(String),
    Str(String),
    Array(Vec<JsonValue>),
    Object(Vec<(String, JsonValue)>),
}

/// The value of the first entry at or after index `i` whose key is `key`.
pub open spec fn first_entry_from(
    entries: Seq<(String, JsonValue)>,
    key: Seq<char>,
    i: int,
) -> Option<JsonValue>
    decreases entries.len() - i,
{
    if i < 0 || i >= entries.len() {
        None
    } else if entries[i].0@ == key {
        Some(entries[i].1)
    } else {
        first_entry_from(entries, key, i + 1)
    }
}

/// The member `key` of `v`: the first entry with that key when `v` is an
/// object, nothing otherwise.
pub open spec fn member(v: JsonValue, key: Seq<char>) -> Option<JsonValue> {
    match v {
        JsonValue::Object(entries) => first_entry_from(entries@, key, 0),
        _ => None,
    }
}

/// The text of `v` when it is a string.
pub open spec fn text_of(v: JsonValue) -> Option<Seq<char>> {
    match v {
        JsonValue::Str(s) => Some(s@),
        _ => None,
    }
}

impl JsonValue {
    /// The member `key` of this value, when it is an object that has one.
    pub fn get(&self, key: &String) -> (r: Option<&JsonValue>)
        ensures
            match r {
                Some(m) => member(*self, key@) == Some(*m),
                None => member(*self, key@) is None,
            },
    {
        match self {
            JsonValue::Object(entries) => {
                let mut i: usize = 0;
                while i < entries.len()
                    invariant
                        i <= entries@.len(),
                        member(*self, key@) == first_entry_from(entries@, key@, 0),
                        first_entry_from(entries@, key@, 0) == first_entry_from(
                            entries@,
                            key@,
                            i as int,
                        ),
                    decreases entries@.len() - i,
                {
                    let entry = &entries[i];
                    if entry.0 == *key {
                        assert(first_entry_from(entries@, key@, i as int) == Some(entry.1));
                        return Some(&entry.1);
                    }
                    i = i + 1;
                }
                None
            },
            _ => None,
        }
    }

    /// The text of this value, when it is a string.
    pub fn as_text(&self) -> (r: Option<&String>)
        ensures
            match r {
                Some(s) => text_of(*self) == Some(s@),
                None => text_of(*self) is None,
            },
    {
        match self {
            JsonValue::Str(s) => Some(s),
            _ => None,
        }
    }
}

} // verus!
