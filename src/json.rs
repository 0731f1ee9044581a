//! A JSON value tree as the feed handlers read it, and the parse that builds it.

use vstd::prelude::*;

verus! {

#[verifier::external_type_specification]
#[verifier::external_body]
pub struct ExValue(serde_json::Value);

/// A parsed JSON value. A number keeps what it reads as a `u64`: `None` for a
/// negative number, for one above `u64::MAX`, and for any number written with
/// a fraction or an exponent (`1.0` and `1e3` included).
#[derive(Debug)]
pub enum Json {
    Null,
    Bool(bool),
    Number(Option<u64>),
    Str(String),
    Array(Vec<Json>),
    Object(Vec<(String, Json)>),
}

/// What `serde_json` makes of a text: `None` where the text is not JSON.
pub uninterp spec fn json_parsed(text: Seq<char>) -> Option<Json>;

/// Relies on serde_json::from_str (into serde_json::Value): parses JSON text;
/// the tree depends on the text alone (objects come back in key order).
#[verifier::external_body]
fn parse_value(text: &str) -> (r: Option<Json>)
    ensures
        r == json_parsed(text@),
{
    serde_json::from_str::<serde_json::Value>(text).ok().map(from_value)
}

/// Relies on the variants of serde_json::Value and on Number::as_u64:
/// moves a value tree into a `Json` tree, one node for one node.
#[verifier::external_body]
fn from_value(v: serde_json::Value) -> Json {
    match v {
        serde_json::Value::Null => Json::Null,
        serde_json::Value::Bool(b) => Json::Bool(b),
        serde_json::Value::Number(n) => Json::Number(n.as_u64()),
        serde_json::Value::String(s) => Json::Str(s),
        serde_json::Value::Array(a) => Json::Array(a.into_iter().map(from_value).collect()),
        serde_json::Value::Object(o) => Json::Object(o.into_iter().map(|(k, x)| (k, from_value(x))).collect()),
    }
}

/// Parses JSON text; `None` where it is not JSON.
pub fn parse_json(text: &str) -> (r: Option<Json>)
    ensures
        r == json_parsed(text@),
{
    parse_value(text)
}

/// The value under `key` in a list of object entries: the first entry with
/// that key.
pub open spec fn entry_of(es: Seq<(String, Json)>, key: Seq<char>) -> Option<Json>
    decreases es.len(),
{
    if es.len() == 0 {
        None
    } else if es[0].0@ == key {
        Some(es[0].1)
    } else {
        entry_of(es.drop_first(), key)
    }
}

/// The member `key` of an object; `None` for a missing key or a non-object.
pub open spec fn member(v: Json, key: Seq<char>) -> Option<Json> {
    match v {
        Json::Object(es) => entry_of(es@, key),
        _ => None,
    }
}

/// Element `i` of an array; `None` past its end or for a non-array.
pub open spec fn element(v: Json, i: int) -> Option<Json> {
    match v {
        Json::Array(a) => if 0 <= i < a@.len() { Some(a@[i]) } else { None },
        _ => None,
    }
}

/// The value behind an optional reference.
pub open spec fn deref(v: Option<&Json>) -> Option<Json> {
    match v {
        Some(x) => Some(*x),
        None => None,
    }
}

/// The items of an array, or `None` for a non-array.
pub open spec fn items(v: Option<Json>) -> Option<Seq<Json>> {
    match v {
        Some(Json::Array(a)) => Some(a@),
        _ => None,
    }
}

/// The text of a string, or `None` for anything else.
pub open spec fn text(v: Option<Json>) -> Option<Seq<char>> {
    match v {
        Some(Json::Str(s)) => Some(s@),
        _ => None,
    }
}

/// A non-negative integer that fits a `u64`, or `None` for anything else.
pub open spec fn unsigned(v: Option<Json>) -> Option<u64> {
    match v {
        Some(Json::Number(n)) => n,
        _ => None,
    }
}

/// Whether two texts are equal, character by character.
pub fn same_text(a: &str, b: &str) -> (r: bool)
    ensures
        r == (a@ == b@),
{
    let n = a.unicode_len();
    if n != b.unicode_len() {
        return false;
    }
    let mut i: usize = 0;
    while i < n
        invariant
            n == a@.len(),
            n == b@.len(),
            i <= n,
            forall|j: int| 0 <= j < i ==> a@[j] == b@[j],
        decreases n - i,
    {
        if a.get_char(i) != b.get_char(i) {
            return false;
        }
        i = i + 1;
    }
    assert(a@ =~= b@);
    true
}

impl Json {
    /// The member `key` of an object (the first entry with that key).
    pub fn get(&self, key: &str) -> (r: Option<&Json>)
        ensures
            match r {
                Some(x) => member(*self, key@) == Some(*x),
                None => member(*self, key@) is None,
            },
    {
        match self {
            Json::Object(es) => {
                let mut i: usize = 0;
                assert(member(*self, key@) == entry_of(es@, key@));
                assert(es@.skip(0) =~= es@);
                while i < es.len()
                    invariant
                        i <= es@.len(),
                        entry_of(es@, key@) == entry_of(es@.skip(i as int), key@),
                        member(*self, key@) == entry_of(es@, key@),
                    decreases es@.len() - i,
                {
                    assert(es@.skip(i as int).drop_first() =~= es@.skip(i + 1));
                    assert(es@.skip(i as int)[0] == es@[i as int]);
                    if same_text(es[i].0.as_str(), key) {
                        assert(entry_of(es@.skip(i as int), key@) == Some(es@[i as int].1));
                        return Some(&es[i].1);
                    }
                    i = i + 1;
                }
                None
            },
            _ => None,
        }
    }

    /// Element `i` of an array.
    pub fn at(&self, i: usize) -> (r: Option<&Json>)
        ensures
            match r {
                Some(x) => element(*self, i as int) == Some(*x),
                None => element(*self, i as int) is None,
            },
    {
        match self {
            Json::Array(a) => if i < a.len() { Some(&a[i]) } else { None },
            _ => None,
        }
    }
}

/// The items of an array.
pub fn as_array(v: Option<&Json>) -> (r: Option<&Vec<Json>>)
    ensures
        match r {
            Some(a) => items(deref(v)) == Some(a@),
            None => items(deref(v)) is None,
        },
{
    match v {
        Some(Json::Array(a)) => Some(a),
        _ => None,
    }
}

/// The text of a string.
pub fn as_str(v: Option<&Json>) -> (r: Option<&str>)
    ensures
        match r {
            Some(s) => text(deref(v)) == Some(s@),
            None => text(deref(v)) is None,
        },
{
    match v {
        Some(Json::Str(s)) => Some(s.as_str()),
        _ => None,
    }
}

/// A non-negative integer that fits a `u64`.
pub fn as_u64(v: Option<&Json>) -> (r: Option<u64>)
    ensures
        r == unsigned(deref(v)),
{
    match v {
        Some(Json::Number(n)) => *n,
        _ => None,
    }
}

} // verus!
