//! A JSON document as plain values, with the lookups the session logic uses.

use vstd::prelude::*;

verus! {

/// A JSON value. Numbers are kept as non-negative integers, negative
/// integers, or (for any other number) the number's text. An object keeps
/// its members in order.
#[derive(Debug)]
pub enum Json {
    Null,
    Bool(bool),
    UInt(u64),
    Int(i64),
    Float(String),
    Str(String),
    Array(Vec<Json>),
    Object(Vec<(String, Json)>),
}

/// The value of the first member named `key`.
pub open spec fn member_lookup(members: Seq<(String, Json)>, key: Seq<char>) -> Option<Json>
    decreases members.len(),
{
    if members.len() == 0 {
        None
    } else if members[0].0@ == key {
        Some(members[0].1)
    } else {
        member_lookup(members.drop_first(), key)
    }
}

/// The member `key` of an object; nothing for any other value.
pub open spec fn json_get(v: Json, key: Seq<char>) -> Option<Json> {
    match v {
        Json::Object(members) => member_lookup(members@, key),
        _ => None,
    }
}

/// The value reached from `v` by looking up each key of `keys` in turn.
pub open spec fn json_path(v: Json, keys: Seq<Seq<char>>) -> Option<Json>
    decreases keys.len(),
{
    if keys.len() == 0 {
        Some(v)
    } else {
        match json_get(v, keys[0]) {
            Some(next) => json_path(next, keys.drop_first()),
            None => None,
        }
    }
}

/// The text of a string value; nothing for any other value.
pub open spec fn json_str(v: Json) -> Option<Seq<char>> {
    match v {
        Json::Str(s) => Some(s@),
        _ => None,
    }
}

/// The text of an optional value that is a string.
pub open spec fn opt_json_str(o: Option<Json>) -> Option<Seq<char>> {
    match o {
        Some(v) => json_str(v),
        None => None,
    }
}

/// A reference to an optional value agrees with an optional value.
pub open spec fn same_json(r: Option<&Json>, o: Option<Json>) -> bool {
    match r {
        Some(v) => o == Some(*v),
        None => o is None,
    }
}

impl Json {
    /// The member `key` of an object, as `serde_json::Value::get` with a
    /// string index gives it; nothing for any other value.
    pub fn get(&self, key: &str) -> (res: Option<&Json>)
        ensures
            same_json(res, json_get(*self, key@)),
    {
        match self {
            Json::Object(members) => {
                let wanted = String::from_str(key);
                let mut i: usize = 0;
                assert(members@.skip(0) =~= members@);
                while i < members.len()
                    invariant
                        i <= members@.len(),
                        wanted@ == key@,
                        json_get(*self, key@) == member_lookup(members@, key@),
                        member_lookup(members@, key@) == member_lookup(members@.skip(i as int), key@),
                    decreases members.len() - i,
                {
                    if members[i].0 == wanted {
                        assert(members@.skip(i as int)[0] == members@[i as int]);
                        return Some(&members[i].1);
                    }
                    assert(members@.skip(i as int).drop_first() =~= members@.skip(i + 1));
                    i = i + 1;
                }
                None
            },
            _ => None,
        }
    }

    /// The text of a string value, as `serde_json::Value::as_str` gives it.
    pub fn as_str(&self) -> (res: Option<&String>)
        ensures
            match res {
                Some(s) => json_str(*self) == Some(s@),
                None => json_str(*self) is None,
            },
    {
        match self {
            Json::Str(s) => Some(s),
            _ => None,
        }
    }
}

} // verus!
