//! A plain data model of one JSON document, filled in by serde_json.
use vstd::prelude::*;

verus! {

/// One JSON value. Object members keep the order in which the parser
/// listed them; keys are unique, so a lookup by key finds at most one member.
#[derive(Debug)]
pub enum JsonValue {
    Null,
    Bool(bool),
    /// A number in the textual form that serde_json prints for it.
    Number(String),
    Str(String),
    Array(Vec<JsonValue>),
    Object(Vec<(String, JsonValue)>),
}

/// serde_json's parsed document, carried through only into the conversion below.
#[verifier::external_type_specification]
#[verifier::external_body]
pub struct ExJsonDocument(serde_json::Value);

/// What serde_json reads from a line of text: the document, or `None` when the
/// line is not one well-formed JSON document.
pub uninterp spec fn json_of(line: Seq<char>) -> Option<JsonValue>;

/// Relies on `serde_json::from_str::<serde_json::Value>`: parses the whole text
/// as one JSON document; the result depends on the text alone.
#[verifier::external_body]
pub(crate) fn parse_json(line: &str) -> (r: Option<JsonValue>)
    ensures
        r == json_of(line@),
{
    serde_json::from_str::<serde_json::Value>(line).ok().map(from_serde)
}

/// Moves the value that `parse_json` got from serde_json into the library's
/// model: one arm per variant, moving its fields;
/// numbers keep serde_json's own textual form (`Number`'s `Display`).
#[verifier::external_body]
fn from_serde(v: serde_json::Value) -> JsonValue {
    match v {
        serde_json::Value::Null => JsonValue::Null,
        serde_json::Value::Bool(b) => JsonValue::Bool(b),
        serde_json::Value::Number(n) => JsonValue::Number(n.to_string()),
        serde_json::Value::String(s) => JsonValue::Str(s),
        serde_json::Value::Array(a) => JsonValue::Array(a.into_iter().map(from_serde).collect()),
        serde_json::Value::Object(m) => JsonValue::Object(
            m.into_iter().map(|(k, x)| (k, from_serde(x))).collect(),
        ),
    }
}

/// The index of the first member of `members`, from position `i` on, whose key
/// is `key`.
pub open spec fn member_index_from(members: Seq<(String, JsonValue)>, key: Seq<char>, i: int) -> Option<int>
    decreases members.len() - i,
{
    if i < 0 || i >= members.len() {
        None
    } else if members[i].0@ == key {
        Some(i)
    } else {
        member_index_from(members, key, i + 1)
    }
}

/// The member named `key` of an object; `None` for a missing key or a value
/// that is not an object.
pub open spec fn member(v: JsonValue, key: Seq<char>) -> Option<JsonValue> {
    match v {
        JsonValue::Object(m) => match member_index_from(m@, key, 0) {
            Some(i) => Some(m@[i].1),
            None => None,
        },
        _ => None,
    }
}

/// Whether `v` is the string `s`.
pub open spec fn is_string(v: JsonValue, s: Seq<char>) -> bool {
    match v {
        JsonValue::Str(x) => x@ == s,
        _ => false,
    }
}

/// Whether the string `s` is among `items`.
pub open spec fn items_have_string(items: Seq<JsonValue>, s: Seq<char>) -> bool {
    exists|i: int| 0 <= i < items.len() && is_string(#[trigger] items[i], s)
}

/// Whether `v` is an array with the string `s` among its items.
pub open spec fn array_has_string(v: JsonValue, s: Seq<char>) -> bool {
    match v {
        JsonValue::Array(a) => items_have_string(a@, s),
        _ => false,
    }
}

/// Finds the member named `key` among `members`.
pub fn find_member(members: &Vec<(String, JsonValue)>, key: &str) -> (r: Option<usize>)
    ensures
        match r {
            Some(i) => i < members@.len() && member_index_from(members@, key@, 0) == Some(i as int),
            None => member_index_from(members@, key@, 0) is None,
        },
{
    let want = key.to_owned();
    let mut i: usize = 0;
    while i < members.len()
        invariant
            i <= members@.len(),
            want@ == key@,
            member_index_from(members@, key@, 0) == member_index_from(members@, key@, i as int),
        decreases members@.len() - i,
    {
        if members[i].0 == want {
            return Some(i);
        }
        i = i + 1;
    }
    None
}

/// The member named `key` of `v`, when `v` is an object that has one.
pub fn get_member<'a>(v: &'a JsonValue, key: &str) -> (r: Option<&'a JsonValue>)
    ensures
        match r {
            Some(x) => member(*v, key@) == Some(*x),
            None => member(*v, key@) is None,
        },
{
    match v {
        JsonValue::Object(m) => match find_member(m, key) {
            Some(i) => Some(&m[i].1),
            None => None,
        },
        _ => None,
    }
}

/// Whether `v` is the string `s`.
pub fn value_is_string(v: &JsonValue, s: &str) -> (r: bool)
    ensures
        r == is_string(*v, s@),
{
    match v {
        JsonValue::Str(x) => *x == s.to_owned(),
        _ => false,
    }
}

/// Whether `v` is an array that holds the string `s`.
pub fn array_contains_string(v: &JsonValue, s: &str) -> (r: bool)
    ensures
        r == array_has_string(*v, s@),
{
    match v {
        JsonValue::Array(a) => {
            let mut i: usize = 0;
            while i < a.len()
                invariant
                    *v == JsonValue::Array(*a),
                    i <= a@.len(),
                    forall|j: int| 0 <= j < i ==> !is_string(#[trigger] a@[j], s@),
                decreases a@.len() - i,
            {
                if value_is_string(&a[i], s) {
                    assert(is_string(a@[i as int], s@));
                    return true;
                }
                i = i + 1;
            }
            false
        },
        _ => false,
    }
}

} // verus!
