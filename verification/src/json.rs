use vstd::prelude::*;

verus! {

/// `serde_json::Value`, made known to Verus as an opaque type. It is only
/// carried from the parser to `json_from_value`.
#[verifier::external_type_specification]
#[verifier::external_body]
pub struct ExSerdeJsonValue(serde_json::Value);

/// A parsed JSON document. An object lists its members in the order the
/// parser keeps them (sorted by key, each key once). A number is held as
/// the text the parser writes for it: decimal digits for an integer in the
/// `u64` range, a leading '-' for a negative integer, and a '.' or an
/// exponent for any other number.
#[derive(Debug)]
pub enum JsonValue {
    Null,
    Bool(bool),
    Number(String),
    Text(String),
    Array(Vec<JsonValue>),
    Object(Vec<(String, JsonValue)>),
}

/// The document that `serde_json::from_str` reads from a text, or `None`
/// when the text is not valid JSON.
pub uninterp spec fn json_of(text: Seq<char>) -> Option<JsonValue>;

/// The conversion `parse_json` applies to what `serde_json` parsed: each
/// variant to its counterpart, numbers by their `Display` text.
#[verifier::external_body]
fn json_from_value(v: serde_json::Value) -> JsonValue {
    match v {
        serde_json::Value::Null => JsonValue::Null,
        serde_json::Value::Bool(b) => JsonValue::Bool(b),
        serde_json::Value::Number(n) => JsonValue::Number(n.to_string()),
        serde_json::Value::String(s) => JsonValue::Text(s),
        serde_json::Value::Array(a) => JsonValue::Array(a.into_iter().map(json_from_value).collect()),
        serde_json::Value::Object(m) => JsonValue::Object(m.into_iter().map(|(k, x)| (k, json_from_value(x))).collect()),
    }
}

/// `serde_json::from_str` into a `serde_json::Value`, converted to a
/// `JsonValue`; `None` where the parser reports an error. The contract
/// only names the result: it is a function of the text.
#[verifier::external_body]
pub fn parse_json(text: &str) -> (r: Option<JsonValue>)
    ensures
        r == json_of(text@),
{
    serde_json::from_str::<serde_json::Value>(text).ok().map(json_from_value)
}

/// The value of the first member named `key`, if any.
pub open spec fn member_in(fs: Seq<(String, JsonValue)>, key: Seq<char>) -> Option<JsonValue>
    decreases fs.len(),
{
    if fs.len() == 0 {
        None
    } else {
        match member_in(fs.drop_last(), key) {
            Some(v) => Some(v),
            None => if fs.last().0@ == key {
                Some(fs.last().1)
            } else {
                None
            },
        }
    }
}

/// The member `key` of an object; `None` for a value that is not an
/// object or has no such member (what indexing a `serde_json::Value` by a
/// key reads as `Null`).
pub open spec fn member(v: JsonValue, key: Seq<char>) -> Option<JsonValue> {
    match v {
        JsonValue::Object(fs) => member_in(fs@, key),
        _ => None,
    }
}

/// The member `key` of `v`, as `member` says.
pub fn get_member<'a>(v: &'a JsonValue, key: &str) -> (r: Option<&'a JsonValue>)
    ensures
        match r {
            Some(x) => member(*v, key@) == Some(*x),
            None => member(*v, key@) is None,
        },
{
    match v {
        JsonValue::Object(fs) => {
            assert(*v == JsonValue::Object(*fs));
            let mut i: usize = 0;
            while i < fs.len()
                invariant
                    0 <= i <= fs@.len(),
                    *v == JsonValue::Object(*fs),
                    member_in(fs@.take(i as int), key@) is None,
                decreases fs@.len() - i,
            {
                assert(fs@.take(i + 1).drop_last() =~= fs@.take(i as int));
                if crate::text::str_eq(fs[i].0.as_str(), key) {
                    assert(fs@.take(i + 1).last() == fs@[i as int]);
                    assert(member_in(fs@.take(i + 1), key@) == Some(fs@[i as int].1));
                    proof { lemma_member_prefix(fs@, key@, i + 1); }
                    return Some(&fs[i].1);
                }
                i += 1;
            }
            assert(fs@.take(i as int) =~= fs@);
            None
        },
        _ => None,
    }
}

/// A member found in a prefix is the member of the whole list.
pub proof fn lemma_member_prefix(fs: Seq<(String, JsonValue)>, key: Seq<char>, n: int)
    requires
        0 <= n <= fs.len(),
        member_in(fs.take(n), key) is Some,
    ensures
        member_in(fs, key) == member_in(fs.take(n), key),
    decreases fs.len() - n,
{
    if n < fs.len() {
        assert(fs.take(n + 1).drop_last() =~= fs.take(n));
        lemma_member_prefix(fs, key, n + 1);
    } else {
        assert(fs.take(n) =~= fs);
    }
}

/// The text of a scalar: a string as it is, a flag as "true" or "false",
/// a number by its text. `None` for null, arrays and objects.
pub open spec fn scalar_text(v: JsonValue) -> Option<Seq<char>> {
    match v {
        JsonValue::Text(s) => Some(s@),
        JsonValue::Bool(b) => Some(if b { "true"@ } else { "false"@ }),
        JsonValue::Number(t) => Some(t@),
        _ => None,
    }
}

/// The text of a scalar, as `scalar_text` says.
pub fn scalar_to_text(v: &JsonValue) -> (r: Option<String>)
    ensures
        match r {
            Some(s) => scalar_text(*v) == Some(s@),
            None => scalar_text(*v) is None,
        },
{
    match v {
        JsonValue::Text(s) => Some(s.clone()),
        JsonValue::Bool(b) => Some(if *b { crate::text::owned("true") } else { crate::text::owned("false") }),
        JsonValue::Number(t) => Some(t.clone()),
        _ => None,
    }
}

/// A prefix in which no member has the key has no member of that name.
pub proof fn lemma_member_absent(fs: Seq<(String, JsonValue)>, key: Seq<char>, n: int)
    requires
        0 <= n <= fs.len(),
        forall|i: int| 0 <= i < n ==> (#[trigger] fs[i]).0@ != key,
    ensures
        member_in(fs.take(n), key) is None,
    decreases n,
{
    if n > 0 {
        lemma_member_absent(fs, key, n - 1);
        assert(fs.take(n).drop_last() =~= fs.take(n - 1));
        assert(fs.take(n).last() == fs[n - 1]);
    }
}

/// The first member with the key is the one found.
pub proof fn lemma_member_first(fs: Seq<(String, JsonValue)>, key: Seq<char>, j: int)
    requires
        0 <= j < fs.len(),
        fs[j].0@ == key,
        forall|i: int| 0 <= i < j ==> (#[trigger] fs[i]).0@ != key,
    ensures
        member_in(fs, key) == Some(fs[j].1),
{
    lemma_member_absent(fs, key, j);
    assert(fs.take(j + 1).drop_last() =~= fs.take(j));
    assert(fs.take(j + 1).last() == fs[j]);
    lemma_member_prefix(fs, key, j + 1);
}

} // verus!
