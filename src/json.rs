//! JSON values as the schema reads them, and member lookup.

use vstd::prelude::*;

verus! {

#[verifier::external_type_specification]
#[verifier::external_body]
pub struct ExValue(serde_json::Value);

/// A JSON value as the schema reads it.
#[derive(Debug)]
pub enum Json {
    Null,
    Bool(bool),
    /// A number; the integer when it is one that fits an `i64`
    Number(Option<i64>),
    Text(String),
    Array(Vec<Json>),
    /// Members in the order the parser hands them out
    Object(Vec<(String, Json)>),
}

/// The JSON value that the text `s` holds, if `s` is JSON.
pub uninterp spec fn json_text(s: Seq<char>) -> Option<Json>;

/// Relies on serde_json::from_str::<serde_json::Value>: parses `s` as one JSON
/// value (an empty text is no JSON), or gives the parser's message.
#[verifier::external_body]
pub(crate) fn parse_json(s: &str) -> (r: Result<Json, String>)
    ensures
        r is Ok <==> json_text(s@) is Some,
        r matches Ok(j) ==> json_text(s@) == Some(j),
        s@.len() == 0 ==> r is Err,
{
    serde_json::from_str::<serde_json::Value>(s).map(json_of_value).map_err(|e| e.to_string())
}

/// Relies on serde_json::Value's variants and on serde_json::Number::as_i64;
/// moves a parsed value into the library's own tree.
#[verifier::external_body]
fn json_of_value(v: serde_json::Value) -> Json {
    match v {
        serde_json::Value::Null => Json::Null,
        serde_json::Value::Bool(b) => Json::Bool(b),
        serde_json::Value::Number(n) => Json::Number(n.as_i64()),
        serde_json::Value::String(s) => Json::Text(s),
        serde_json::Value::Array(a) => Json::Array(a.into_iter().map(json_of_value).collect()),
        serde_json::Value::Object(m) => Json::Object(
            m.into_iter().map(|(k, v)| (k, json_of_value(v))).collect(),
        ),
    }
}

/// Whether member `i` is the first of `members` with key `key`.
pub open spec fn first_with_key(members: Seq<(String, Json)>, key: Seq<char>, i: int) -> bool {
    &&& 0 <= i < members.len()
    &&& members[i].0@ == key
    &&& forall|k: int| 0 <= k < i ==> (#[trigger] members[k]).0@ != key
}

/// The value of the first member of object `j` with key `key`.
pub open spec fn field_of(j: Json, key: Seq<char>) -> Option<Json> {
    match j {
        Json::Object(members) => if exists|i: int| first_with_key(members@, key, i) {
            Some(members@[choose|i: int| first_with_key(members@, key, i)].1)
        } else {
            None
        },
        _ => None,
    }
}

/// An absent member, or one that is `null`.
pub open spec fn absent(f: Option<Json>) -> bool {
    f is None || f == Some(Json::Null)
}

/// The value of the first member of object `j` with key `key`.
pub fn get_field<'a>(j: &'a Json, key: &str) -> (r: Option<&'a Json>)
    ensures
        r is None <==> field_of(*j, key@) is None,
        r matches Some(v) ==> field_of(*j, key@) == Some(*v),
{
    match j {
        Json::Object(members) => {
            let k = key.to_owned();
            let mut i: usize = 0;
            while i < members.len()
                invariant
                    *j == Json::Object(*members),
                    k@ == key@,
                    i <= members@.len(),
                    forall|m: int| 0 <= m < i ==> (#[trigger] members@[m]).0@ != key@,
                decreases members.len() - i,
            {
                if members[i].0 == k {
                    assert(first_with_key(members@, key@, i as int));
                    let ghost c = choose|c: int| first_with_key(members@, key@, c);
                    assert(c == i) by {
                        if c < i {
                            assert(members@[c].0@ != key@);
                        } else if c > i {
                            assert(members@[i as int].0@ != key@);
                        }
                    }
                    return Some(&members[i].1);
                }
                i = i + 1;
            }
            None
        },
        _ => None,
    }
}

/// In an object whose earlier keys differ from the key of member `i`, that
/// key names member `i`.
pub proof fn lemma_member_at(members: Vec<(String, Json)>, i: int)
    requires
        0 <= i < members@.len(),
        forall|k: int| 0 <= k < i ==> (#[trigger] members@[k]).0@ != members@[i].0@,
    ensures
        field_of(Json::Object(members), members@[i].0@) == Some(members@[i].1),
{
    let key = members@[i].0@;
    assert(first_with_key(members@, key, i));
    let c = choose|c: int| first_with_key(members@, key, c);
    if c < i {
        assert(members@[c].0@ != key);
    } else if c > i {
        assert(members@[i].0@ != key);
    }
}

} // verus!
