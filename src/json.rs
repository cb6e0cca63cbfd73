//! A JSON document as the protocol reads and writes it.
//!
//! Numbers keep their textual form, so that no floating point is involved:
//! every numeric field of the protocol is an unsigned integer, read from that
//! text by `crate::number`.

use vstd::prelude::*;

verus! {

/// One JSON value. An object keeps its members in order; a key is looked up
/// by its first occurrence.
#[derive(Debug, PartialEq)]
pub enum Json {
    Null,
    Bool(bool),
    Number(String),
    Text(String),
    Array(Vec<Json>),
    Object(Vec<(String, Json)>),
}

/// The value under `key` in a list of object members: its first occurrence.
pub open spec fn field_of(members: Seq<(String, Json)>, key: Seq<char>) -> Option<Json>
    decreases members.len(),
{
    if members.len() == 0 {
        None
    } else if members[0].0@ == key {
        Some(members[0].1)
    } else {
        field_of(members.drop_first(), key)
    }
}

/// The member `key` of `j`, where `j` is an object that has one.
pub open spec fn member(j: Json, key: Seq<char>) -> Option<Json> {
    match j {
        Json::Object(members) => field_of(members@, key),
        _ => None,
    }
}

/// Whether two texts are equal, character by character.
pub fn same_text(a: &str, b: &str) -> (r: bool)
    ensures
        r == (a@ == b@),
{
    let n = a.unicode_len();
    if n != b.unicode_len() {
        return false;
    }
    let mut i: usize = 0;
    while i < n
        invariant
            n == a@.len(),
            n == b@.len(),
            i <= n,
            a@.subrange(0, i as int) == b@.subrange(0, i as int),
        decreases n - i,
    {
        if a.get_char(i) != b.get_char(i) {
            assert(a@[i as int] != b@[i as int]);
            return false;
        }
        assert(a@.subrange(0, i + 1) == a@.subrange(0, i as int).push(a@[i as int]));
        assert(b@.subrange(0, i + 1) == b@.subrange(0, i as int).push(b@[i as int]));
        i = i + 1;
    }
    assert(a@ == a@.subrange(0, n as int));
    assert(b@ == b@.subrange(0, n as int));
    true
}

impl Json {
    /// The member `key` of this value, if it is an object that has one.
    pub fn get(&self, key: &str) -> (r: Option<&Json>)
        ensures
            match r {
                Some(v) => member(*self, key@) == Some(*v),
                None => member(*self, key@) is None,
            },
    {
        match self {
            Json::Object(members) => {
                let mut i: usize = 0;
                assert(members@.subrange(0, members@.len() as int) == members@);
                while i < members.len()
                    invariant
                        i <= members@.len(),
                        member(*self, key@) == field_of(members@, key@),
                        field_of(members@, key@) == field_of(members@.subrange(i as int, members@.len() as int), key@),
                    decreases members@.len() - i,
                {
                    let ghost rest = members@.subrange(i as int, members@.len() as int);
                    assert(rest.drop_first() == members@.subrange(i + 1, members@.len() as int));
                    assert(rest[0] == members@[i as int]);
                    if same_text(members[i].0.as_str(), key) {
                        assert(field_of(rest, key@) == Some(rest[0].1));
                        return Some(&members[i].1);
                    }
                    i = i + 1;
                }
                None
            },
            _ => None,
        }
    }
}

/// Member `i` of `m` is `key` with the value `v`.
pub open spec fn entry(m: Seq<(String, Json)>, i: int, key: Seq<char>, v: Json) -> bool {
    &&& 0 <= i < m.len()
    &&& m[i].0@ == key
    &&& m[i].1 == v
}

/// Member `i` of `m` is `key` with a text value equal to `t`.
pub open spec fn text_entry(m: Seq<(String, Json)>, i: int, key: Seq<char>, t: Seq<char>) -> bool {
    &&& 0 <= i < m.len()
    &&& m[i].0@ == key
    &&& m[i].1 matches Json::Text(s) && s@ == t
}

/// Member `i` of `m` is `key` with the number `n`.
pub open spec fn number_entry(m: Seq<(String, Json)>, i: int, key: Seq<char>, n: u32) -> bool {
    &&& 0 <= i < m.len()
    &&& m[i].0@ == key
    &&& m[i].1 matches Json::Number(s) && s@ == crate::number::decimal_of(n as nat)
}

/// The members of `j`, if it is an object.
pub open spec fn members(j: Json) -> Seq<(String, Json)> {
    match j {
        Json::Object(m) => m@,
        _ => Seq::empty(),
    }
}

/// An optional text as a JSON value: `null` where there is none.
pub open spec fn text_or_null(t: Option<String>) -> Json {
    match t {
        Some(s) => Json::Text(s),
        None => Json::Null,
    }
}

pub fn text_or_null_json(t: &Option<String>) -> (r: Json)
    ensures
        r == text_or_null(*t),
{
    match t {
        Some(s) => Json::Text(s.clone()),
        None => Json::Null,
    }
}

/// A member `key` with a text value.
pub fn text_member(key: &str, value: &str) -> (r: (String, Json))
    ensures
        r.0@ == key@,
        r.1 matches Json::Text(s) && s@ == value@,
{
    (key.to_string(), Json::Text(value.to_string()))
}

/// A member `key` with a number.
pub fn number_member(key: &str, n: u32) -> (r: (String, Json))
    ensures
        r.0@ == key@,
        r.1 matches Json::Number(s) && s@ == crate::number::decimal_of(n as nat),
{
    (key.to_string(), Json::Number(crate::number::decimal_text(n)))
}

} // verus!
