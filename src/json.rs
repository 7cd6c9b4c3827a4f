//! A decoded JSON value, held as plain data.
use vstd::prelude::*;
use vstd::string::StringExecFns;

verus! {

/// A JSON value. Integers that fit in `i64` or `u64` are held exactly;
/// any other number is kept as its decimal text.
#[derive(Debug)]
pub enum Json {
    Null,
    Bool(bool),
    Int(i128),
    Float(String),
    Str(String),
    Array(Vec<Json>),
    Object(Vec<(String, Json)>),
}

/// Index of the first entry at or after `i` whose key is `key`.
pub open spec fn key_pos_from(entries: Seq<(String, Json)>, key: Seq<char>, i: int) -> Option<int>
    decreases entries.len() - i,
{
    if i < 0 || i >= entries.len() {
        None
    } else if entries[i].0@ == key {
        Some(i)
    } else {
        key_pos_from(entries, key, i + 1)
    }
}

/// Index of the first entry whose key is `key`.
pub open spec fn key_pos(entries: Seq<(String, Json)>, key: Seq<char>) -> Option<int> {
    key_pos_from(entries, key, 0)
}

proof fn lemma_key_pos_from_bounds(entries: Seq<(String, Json)>, key: Seq<char>, i: int)
    ensures
        key_pos_from(entries, key, i) matches Some(j) ==> i <= j < entries.len()
            && entries[j].0@ == key,
    decreases entries.len() - i,
{
    if 0 <= i < entries.len() && entries[i].0@ != key {
        lemma_key_pos_from_bounds(entries, key, i + 1);
    }
}

/// Finds the first entry of an object whose key is `key`.
pub fn find_key(entries: &Vec<(String, Json)>, key: &String) -> (r: Option<usize>)
    ensures
        r matches Some(i) ==> key_pos(entries@, key@) == Some(i as int) && i < entries@.len()
            && entries@[i as int].0@ == key@,
        r is None ==> key_pos(entries@, key@) is None,
{
    let mut i: usize = 0;
    while i < entries.len()
        invariant
            i <= entries@.len(),
            key_pos(entries@, key@) == key_pos_from(entries@, key@, i as int),
        decreases entries.len() - i,
    {
        if entries[i].0 == *key {
            proof {
                lemma_key_pos_from_bounds(entries@, key@, 0);
            }
            return Some(i);
        }
        i = i + 1;
    }
    None
}

impl Json {
    /// The value stored under `key`, when this is an object holding it.
    pub open spec fn field(self, key: Seq<char>) -> Option<Json> {
        match self {
            Json::Object(entries) => match key_pos(entries@, key) {
                Some(i) => Some(entries@[i].1),
                None => None,
            },
            _ => None,
        }
    }

    pub open spec fn u64_value(self) -> Option<u64> {
        match self {
            Json::Int(n) => if 0 <= n <= u64::MAX {
                Some(n as u64)
            } else {
                None
            },
            _ => None,
        }
    }

    pub open spec fn bool_value(self) -> Option<bool> {
        match self {
            Json::Bool(b) => Some(b),
            _ => None,
        }
    }

    pub open spec fn str_value(self) -> Option<String> {
        match self {
            Json::Str(s) => Some(s),
            _ => None,
        }
    }

    /// Looks up `key` in an object; `None` for a missing key or a non-object.
    pub fn get(&self, key: &str) -> (r: Option<&Json>)
        ensures
            r matches Some(v) ==> self.field(key@) == Some(*v),
            r is None ==> self.field(key@) is None,
    {
        match self {
            Json::Object(entries) => {
                let k = String::from_str(key);
                match find_key(entries, &k) {
                    Some(i) => Some(&entries[i].1),
                    None => None,
                }
            },
            _ => None,
        }
    }

    pub fn as_u64(&self) -> (r: Option<u64>)
        ensures
            r == self.u64_value(),
    {
        match self {
            Json::Int(n) => if 0 <= *n && *n <= u64::MAX as i128 {
                Some(*n as u64)
            } else {
                None
            },
            _ => None,
        }
    }

    pub fn as_bool(&self) -> (r: Option<bool>)
        ensures
            r == self.bool_value(),
    {
        match self {
            Json::Bool(b) => Some(*b),
            _ => None,
        }
    }
}

} // verus!
