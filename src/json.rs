//! A generic JSON value, the shape in which a raw record is read.
//!
//! Only the handful of fields that the pipeline consumes are ever looked up;
//! the accessors below return `None` (or `Json::Null`) where a path is absent,
//! as the usual JSON libraries do.

use vstd::prelude::*;

verus! {

/// A JSON document. An object keeps its members in document order, each key
/// once; a number keeps its textual form, which nothing here interprets.
pub enum Json {
    Null,
    Bool(bool),
    Number(String),
    Text(String),
    Array(Vec<Json>),
    Object(Vec<(String, Json)>),
}

/// The value stored under `key` among `entries`, searching from the front.
pub open spec fn entry_of(entries: Seq<(String, Json)>, key: Seq<char>) -> Option<Json>
    decreases entries.len(),
{
    if entries.len() == 0 {
        None
    } else if entries[0].0@ == key {
        Some(entries[0].1)
    } else {
        entry_of(entries.drop_first(), key)
    }
}

/// The member `key` of an object; `None` for a missing key or a non-object.
pub open spec fn member(v: Json, key: Seq<char>) -> Option<Json> {
    match v {
        Json::Object(entries) => entry_of(entries@, key),
        _ => None,
    }
}

/// Indexing by key: a missing member reads as `null`.
pub open spec fn at(v: Json, key: Seq<char>) -> Json {
    match member(v, key) {
        Some(m) => m,
        None => Json::Null,
    }
}

/// The characters of a string value.
pub open spec fn text_of(v: Json) -> Option<Seq<char>> {
    match v {
        Json::Text(s) => Some(s@),
        _ => None,
    }
}

/// The elements of an array value.
pub open spec fn elements_of(v: Json) -> Option<Seq<Json>> {
    match v {
        Json::Array(items) => Some(items@),
        _ => None,
    }
}

/// The number of members of an object value.
pub open spec fn member_count(v: Json) -> Option<nat> {
    match v {
        Json::Object(entries) => Some(entries@.len()),
        _ => None,
    }
}

proof fn lemma_entry_of_skip(entries: Seq<(String, Json)>, i: int, key: Seq<char>)
    requires
        0 <= i < entries.len(),
        entries[i].0@ != key,
    ensures
        entry_of(entries.subrange(i, entries.len() as int), key)
            == entry_of(entries.subrange(i + 1, entries.len() as int), key),
{
    assert(entries.subrange(i, entries.len() as int).drop_first()
        =~= entries.subrange(i + 1, entries.len() as int));
}

impl Json {
    /// The member `key` of an object.
    pub fn get(&self, key: &str) -> (r: Option<&Json>)
        ensures
            match r {
                Some(m) => member(*self, key@) == Some(*m),
                None => member(*self, key@) is None,
            },
    {
        match self {
            Json::Object(entries) => {
                let wanted = String::from_str(key);
                let mut i: usize = 0;
                assert(member(*self, key@) == entry_of(entries@, key@));
                assert(entries@.subrange(0, entries@.len() as int) =~= entries@);
                while i < entries.len()
                    invariant
                        i <= entries.len(),
                        wanted@ == key@,
                        member(*self, key@) == entry_of(entries@, key@),
                        entry_of(entries@, key@)
                            == entry_of(entries@.subrange(i as int, entries@.len() as int), key@),
                    decreases entries.len() - i,
                {
                    if entries[i].0 == wanted {
                        let ghost rest = entries@.subrange(i as int, entries@.len() as int);
                        assert(rest[0] == entries@[i as int]);
                        return Some(&entries[i].1);
                    }
                    proof {
                        lemma_entry_of_skip(entries@, i as int, key@);
                    }
                    i = i + 1;
                }
                None
            },
            _ => None,
        }
    }

    /// The text of a string value.
    pub fn as_text(&self) -> (r: Option<String>)
        ensures
            match r {
                Some(s) => text_of(*self) == Some(s@),
                None => text_of(*self) is None,
            },
    {
        match self {
            Json::Text(s) => Some(s.clone()),
            _ => None,
        }
    }

    /// The elements of an array value.
    pub fn as_array(&self) -> (r: Option<&Vec<Json>>)
        ensures
            match r {
                Some(items) => elements_of(*self) == Some(items@),
                None => elements_of(*self) is None,
            },
    {
        match self {
            Json::Array(items) => Some(items),
            _ => None,
        }
    }

    /// The number of members of an object value.
    pub fn member_count(&self) -> (r: Option<usize>)
        ensures
            match r {
                Some(n) => member_count(*self) == Some(n as nat),
                None => member_count(*self) is None,
            },
    {
        match self {
            Json::Object(entries) => Some(entries.len()),
            _ => None,
        }
    }
}

} // verus!
