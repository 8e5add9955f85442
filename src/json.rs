use vstd::prelude::*;
use vstd::string::*;

verus! {

/// A parsed JSON value. Numbers keep their literal text, and their integer
/// value when they have one that fits an `i64`. Object members come in the
/// order that the parser hands them over: serde_json's map sorts them by
/// name, and of a repeated name keeps the last value.
#[derive(Debug)]
pub enum Json {
    Null,
    Bool(bool),
    Number(Option<i64>, String),
    Str(String),
    Array(Vec<Json>),
    Object(Vec<(String, Json)>),
}

#[verifier::external_type_specification]
#[verifier::external_body]
pub struct ExJsonValue(serde_json::Value);

/// The tree that a text parses to, or `None` where it is not JSON.
pub uninterp spec fn parsed_json(text: Seq<char>) -> Option<Json>;

/// Relies on serde_json::from_str into a `serde_json::Value`: whether the text
/// parses, and to which tree, depends on the text alone.
#[verifier::external_body]
pub(crate) fn parse_json(text: &str) -> (r: Option<Json>)
    ensures
        r == parsed_json(text@),
{
    serde_json::from_str::<serde_json::Value>(text).ok().map(json_from_value)
}

/// Moves a `serde_json::Value` into a `Json`, node for node.
#[verifier::external_body]
fn json_from_value(v: serde_json::Value) -> Json {
    match v {
        serde_json::Value::Null => Json::Null,
        serde_json::Value::Bool(b) => Json::Bool(b),
        serde_json::Value::Number(n) => Json::Number(n.as_i64(), n.to_string()),
        serde_json::Value::String(s) => Json::Str(s),
        serde_json::Value::Array(a) => Json::Array(a.into_iter().map(json_from_value).collect()),
        serde_json::Value::Object(o) => Json::Object(
            o.into_iter().map(|(k, x)| (k, json_from_value(x))).collect(),
        ),
    }
}

/// The value of the first member named `key`.
pub open spec fn lookup(entries: Seq<(String, Json)>, key: Seq<char>) -> Option<Json>
    decreases entries.len(),
{
    if entries.len() == 0 {
        None
    } else if entries[0].0@ == key {
        Some(entries[0].1)
    } else {
        lookup(entries.drop_first(), key)
    }
}

/// The string held by a value, if it is a string.
pub open spec fn str_of(j: Option<Json>) -> Option<String> {
    match j {
        Some(Json::Str(s)) => Some(s),
        _ => None,
    }
}

/// The integer held by a value, if it is an integer within `lo..=hi`.
pub open spec fn int_in(j: Option<Json>, lo: int, hi: int) -> Option<int> {
    match j {
        Some(Json::Number(Some(i), _)) => if lo <= i <= hi {
            Some(i as int)
        } else {
            None
        },
        _ => None,
    }
}

/// Whether `j` is a string whose characters are `s`.
pub open spec fn is_str(j: Option<Json>, s: Seq<char>) -> bool {
    j matches Some(Json::Str(t)) && t@ == s
}

/// Character-wise equality of two strings.
pub fn str_eq(a: &str, b: &str) -> (r: bool)
    ensures
        r == (a@ == b@),
{
    let n = a.unicode_len();
    if n != b.unicode_len() {
        return false;
    }
    let mut i: usize = 0;
    while i < n
        invariant
            n == a@.len(),
            n == b@.len(),
            i <= n,
            forall|j: int| 0 <= j < i ==> a@[j] == b@[j],
        decreases n - i,
    {
        if a.get_char(i) != b.get_char(i) {
            return false;
        }
        i += 1;
    }
    proof {
        assert(a@ =~= b@);
    }
    true
}

/// Finds the first member named `key`.
pub fn get_field<'a>(entries: &'a Vec<(String, Json)>, key: &str) -> (r: Option<&'a Json>)
    ensures
        match r {
            Some(v) => lookup(entries@, key@) == Some(*v),
            None => lookup(entries@, key@) is None,
        },
{
    let n = entries.len();
    let mut i: usize = 0;
    assert(entries@.subrange(0, n as int) =~= entries@);
    while i < n
        invariant
            n == entries@.len(),
            i <= n,
            lookup(entries@, key@) == lookup(entries@.subrange(i as int, n as int), key@),
        decreases n - i,
    {
        let rest = Ghost(entries@.subrange(i as int, n as int));
        assert(rest@[0] == entries@[i as int]);
        if str_eq(entries[i].0.as_str(), key) {
            return Some(&entries[i].1);
        }
        assert(rest@.drop_first() =~= entries@.subrange(i + 1, n as int));
        i += 1;
    }
    assert(entries@.subrange(n as int, n as int).len() == 0);
    None
}

/// The string member named `key`, if there is one.
pub fn field_str(entries: &Vec<(String, Json)>, key: &str) -> (r: Option<String>)
    ensures
        r == str_of(lookup(entries@, key@)),
{
    match get_field(entries, key) {
        Some(Json::Str(s)) => Some(s.clone()),
        _ => None,
    }
}

/// Whether the member named `key` is the string `s`.
pub fn field_is(entries: &Vec<(String, Json)>, key: &str, s: &str) -> (r: bool)
    ensures
        r == is_str(lookup(entries@, key@), s@),
{
    match get_field(entries, key) {
        Some(Json::Str(t)) => str_eq(t.as_str(), s),
        _ => false,
    }
}

/// The integer member named `key`, if it lies within `lo..=hi`.
pub fn field_int(entries: &Vec<(String, Json)>, key: &str, lo: i64, hi: i64) -> (r: Option<i64>)
    ensures
        match r {
            Some(i) => int_in(lookup(entries@, key@), lo as int, hi as int) == Some(i as int),
            None => int_in(lookup(entries@, key@), lo as int, hi as int) is None,
        },
{
    match get_field(entries, key) {
        Some(Json::Number(Some(i), _)) => if lo <= *i && *i <= hi {
            Some(*i)
        } else {
            None
        },
        _ => None,
    }
}

} // verus!
