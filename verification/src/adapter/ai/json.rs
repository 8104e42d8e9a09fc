//! JSON replies of the AI services as plain values, read with `serde_json`.
use crate::text::{chars_eq, join, str_views, to_chars};
use vstd::prelude::*;

verus! {

/// A JSON value; numbers are kept as the text `serde_json` writes for them.
#[derive(Debug)]
pub enum JsonValue {
    Null,
    Bool(bool),
    Number(String),
    Str(String),
    Array(Vec<JsonValue>),
    Object(Vec<(String, JsonValue)>),
}

#[verifier::external_type_specification]
#[verifier::external_body]
pub struct ExSerdeJsonValue(serde_json::Value);

/// The value that `serde_json::from_str::<serde_json::Value>` reads from a text, object
/// members in the order the parsed map holds them; `None` where the text is not JSON.
pub uninterp spec fn json_document(text: Seq<char>) -> Option<JsonValue>;

/// The message `serde_json` gives for a text that is not JSON.
pub uninterp spec fn json_document_error(text: Seq<char>) -> Seq<char>;

/// Converts a `serde_json::Value` into a `JsonValue`, variant by variant.
#[verifier::external_body]
fn json_from_serde(v: &serde_json::Value) -> JsonValue {
    match v {
        serde_json::Value::Null => JsonValue::Null,
        serde_json::Value::Bool(b) => JsonValue::Bool(*b),
        serde_json::Value::Number(n) => JsonValue::Number(n.to_string()),
        serde_json::Value::String(s) => JsonValue::Str(s.clone()),
        serde_json::Value::Array(a) => JsonValue::Array(a.iter().map(json_from_serde).collect()),
        serde_json::Value::Object(o) => JsonValue::Object(
            o.iter().map(|(k, x)| (k.clone(), json_from_serde(x))).collect(),
        ),
    }
}

/// Calls `serde_json::from_str::<serde_json::Value>`; the contract claims that the outcome
/// is a function of the text alone.
#[verifier::external_body]
pub(crate) fn parse_json(text: &str) -> (r: Result<JsonValue, String>)
    ensures
        r matches Ok(v) ==> json_document(text@) == Some(v),
        r matches Err(m) ==> json_document(text@) is None && m@ == json_document_error(text@),
{
    serde_json::from_str::<serde_json::Value>(text).map(|v| json_from_serde(&v)).map_err(
        |e| e.to_string(),
    )
}

/// The value of the first member named `key` among the members.
pub open spec fn member_of(members: Seq<(String, JsonValue)>, key: Seq<char>) -> Option<JsonValue>
    decreases members.len(),
{
    if members.len() == 0 {
        None
    } else if members[0].0@ == key {
        Some(members[0].1)
    } else {
        member_of(members.drop_first(), key)
    }
}

/// The member `key` of an object; none for another value.
pub open spec fn field_of(v: JsonValue, key: Seq<char>) -> Option<JsonValue> {
    match v {
        JsonValue::Object(members) => member_of(members@, key),
        _ => None,
    }
}

/// The string of a JSON string.
pub open spec fn str_of(v: Option<JsonValue>) -> Option<Seq<char>> {
    match v {
        Some(JsonValue::Str(s)) => Some(s@),
        _ => None,
    }
}

/// The first element of an array.
pub open spec fn first_of(v: Option<JsonValue>) -> Option<JsonValue> {
    match v {
        Some(JsonValue::Array(items)) => if items@.len() > 0 {
            Some(items@[0])
        } else {
            None
        },
        _ => None,
    }
}

/// The member `key` of an optional object.
pub open spec fn get_of(v: Option<JsonValue>, key: Seq<char>) -> Option<JsonValue> {
    match v {
        Some(x) => field_of(x, key),
        None => None,
    }
}

proof fn lemma_member_at(members: Seq<(String, JsonValue)>, key: Seq<char>, i: int)
    requires
        0 <= i <= members.len(),
        forall|j: int| 0 <= j < i ==> (#[trigger] members[j]).0@ != key,
    ensures
        i < members.len() && members[i].0@ == key ==> member_of(members, key) == Some(
            members[i].1,
        ),
        i == members.len() ==> member_of(members, key) is None,
    decreases i,
{
    if i > 0 {
        let t = members.drop_first();
        assert forall|j: int| 0 <= j < i - 1 implies (#[trigger] t[j]).0@ != key by {
            assert(t[j] == members[j + 1]);
        }
        lemma_member_at(t, key, i - 1);
    }
}

/// The member `key` of a value that is an object.
pub fn get_field<'a>(v: &'a JsonValue, key: &str) -> (r: Option<&'a JsonValue>)
    ensures
        r matches Some(x) ==> field_of(*v, key@) == Some(*x),
        r is None ==> field_of(*v, key@) is None,
{
    match v {
        JsonValue::Object(members) => {
            let k = to_chars(key);
            let mut i: usize = 0;
            while i < members.len()
                invariant
                    i <= members.len(),
                    k@ == key@,
                    *v == JsonValue::Object(*members),
                    forall|j: int| 0 <= j < i ==> (#[trigger] members@[j]).0@ != key@,
                decreases members.len() - i,
            {
                if chars_eq(&to_chars(members[i].0.as_str()), &k) {
                    proof {
                        assert(members@[i as int].0@ == key@);
                        lemma_member_at(members@, key@, i as int);
                    }
                    return Some(&members[i].1);
                }
                i = i + 1;
            }
            proof {
                lemma_member_at(members@, key@, i as int);
            }
            None
        },
        _ => None,
    }
}

/// The member `key` of an optional object.
pub fn get_opt<'a>(v: Option<&'a JsonValue>, key: &str) -> (r: Option<&'a JsonValue>)
    ensures
        r matches Some(x) ==> get_of(opt_value(v), key@) == Some(*x),
        r is None ==> get_of(opt_value(v), key@) is None,
{
    match v {
        Some(x) => get_field(x, key),
        None => None,
    }
}

/// The first element of an optional array.
pub fn first_element<'a>(v: Option<&'a JsonValue>) -> (r: Option<&'a JsonValue>)
    ensures
        r matches Some(x) ==> first_of(opt_value(v)) == Some(*x),
        r is None ==> first_of(opt_value(v)) is None,
{
    match v {
        Some(JsonValue::Array(items)) => if items.len() > 0 {
            Some(&items[0])
        } else {
            None
        },
        _ => None,
    }
}

/// The string of an optional JSON string.
pub fn as_str_value(v: Option<&JsonValue>) -> (r: Option<String>)
    ensures
        r matches Some(s) ==> str_of(opt_value(v)) == Some(s@),
        r is None ==> str_of(opt_value(v)) is None,
{
    match v {
        Some(JsonValue::Str(s)) => Some(crate::text::from_chars(to_chars(s.as_str()).as_slice())),
        _ => None,
    }
}

/// The value behind an optional reference.
pub open spec fn opt_value(v: Option<&JsonValue>) -> Option<JsonValue> {
    match v {
        Some(x) => Some(*x),
        None => None,
    }
}

/// The `text` strings of the items that have one, in order.
pub open spec fn texts_of(items: Seq<JsonValue>) -> Seq<Seq<char>>
    decreases items.len(),
{
    if items.len() == 0 {
        Seq::empty()
    } else {
        let rest = texts_of(items.drop_last());
        match str_of(field_of(items.last(), "text"@)) {
            Some(t) => rest.push(t),
            None => rest,
        }
    }
}

/// The `text` strings of an array's items joined by line breaks; none where the value is
/// not an array or no item has a text.
pub open spec fn joined_texts(v: Option<JsonValue>) -> Option<Seq<char>> {
    match v {
        Some(JsonValue::Array(items)) => {
            let t = texts_of(items@);
            if t.len() > 0 {
                Some(join(t, "\n"@))
            } else {
                None
            }
        },
        _ => None,
    }
}

/// The `text` strings of an array's items, joined by line breaks.
pub fn joined_texts_of(v: Option<&JsonValue>) -> (r: Option<String>)
    ensures
        r matches Some(s) ==> joined_texts(opt_value(v)) == Some(s@),
        r is None ==> joined_texts(opt_value(v)) is None,
{
    match v {
        Some(JsonValue::Array(items)) => {
            let mut texts: Vec<String> = Vec::new();
            let mut i: usize = 0;
            while i < items.len()
                invariant
                    i <= items.len(),
                    str_views(texts@) == texts_of(items@.take(i as int)),
                decreases items.len() - i,
            {
                assert(items@.take(i + 1).drop_last() =~= items@.take(i as int));
                assert(items@.take(i + 1).last() == items@[i as int]);
                let t = as_str_value(get_field(&items[i], "text"));
                match t {
                    Some(x) => {
                        let ghost before = texts@;
                        texts.push(x);
                        proof {
                            crate::text::lemma_str_views_push(before, x);
                        }
                    },
                    None => {},
                }
                i = i + 1;
            }
            assert(items@.take(items.len() as int) =~= items@);
            if texts.len() > 0 {
                Some(crate::text::join_strings(&texts, "\n"))
            } else {
                None
            }
        },
        _ => None,
    }
}

} // verus!
