use vstd::prelude::*;

use crate::text::same_text;

verus! {

/// A JSON document as the library reads it. Numbers are kept as their
/// decimal text, since nothing here computes with them.
pub enum JsonValue {
    Null,
    Bool(bool),
    Number(String),
    Str(String),
    Array(Vec<JsonValue>),
    Object(Vec<JsonMember>),
}

/// One `"key": value` member of a JSON object.
pub struct JsonMember {
    pub key: String,
    pub value: JsonValue,
}

/// The value of the first member named `key`, if there is one.
pub open spec fn member_value(members: Seq<JsonMember>, key: Seq<char>) -> Option<JsonValue>
    decreases members.len(),
{
    if members.len() == 0 {
        None
    } else if members[0].key@ == key {
        Some(members[0].value)
    } else {
        member_value(members.drop_first(), key)
    }
}

/// `v[key]`: the member of an object; absent (read as `null`) on anything else.
pub open spec fn field(v: JsonValue, key: Seq<char>) -> Option<JsonValue> {
    match v {
        JsonValue::Object(members) => member_value(members@, key),
        _ => None,
    }
}

/// `v[i]`: the element of an array; absent (read as `null`) on anything else.
pub open spec fn element(v: JsonValue, i: int) -> Option<JsonValue> {
    match v {
        JsonValue::Array(items) => if 0 <= i < items@.len() {
            Some(items@[i])
        } else {
            None
        },
        _ => None,
    }
}

/// `field` applied to something that may itself be absent.
pub open spec fn then_field(v: Option<JsonValue>, key: Seq<char>) -> Option<JsonValue> {
    match v {
        Some(inner) => field(inner, key),
        None => None,
    }
}

/// `element` applied to something that may itself be absent.
pub open spec fn then_element(v: Option<JsonValue>, i: int) -> Option<JsonValue> {
    match v {
        Some(inner) => element(inner, i),
        None => None,
    }
}

/// The text of a JSON string; the empty text for anything else.
pub open spec fn text_or_empty(v: Option<JsonValue>) -> Seq<char> {
    match v {
        Some(JsonValue::Str(s)) => s@,
        _ => Seq::empty(),
    }
}

/// What a JSON string literal for `text` reads as, quotes and escapes included,
/// as `serde_json` writes it.
pub uninterp spec fn json_string_literal(text: Seq<char>) -> Seq<char>;

/// Calls `serde_json::to_string` on a `str`. The contract claims that it
/// succeeds and gives the JSON string literal of the text: serde_json writes
/// the string into a `Vec<u8>`, its only errors are those of the writer, and
/// writing into a `Vec<u8>` does not fail.
#[verifier::external_body]
fn encode_json_string(text: &str) -> (r: Option<String>)
    ensures
        r is Some,
        r matches Some(s) ==> s@ == json_string_literal(text@),
{
    serde_json::to_string(text).ok()
}

/// The JSON string literal for `text`.
pub fn json_string(text: &str) -> (r: Option<String>)
    ensures
        r is Some,
        r matches Some(s) ==> s@ == json_string_literal(text@),
{
    encode_json_string(text)
}

impl JsonValue {
    /// `self[key]`, with `None` standing for the `null` that serde_json gives
    /// for a missing member or a value that is not an object.
    pub fn get_field(&self, key: &str) -> (r: Option<&JsonValue>)
        ensures
            match r {
                Some(v) => field(*self, key@) == Some(*v),
                None => field(*self, key@) is None,
            },
    {
        match self {
            JsonValue::Object(members) => {
                let n = members.len();
                let mut i: usize = 0;
                assert(members@.skip(0) =~= members@);
                while i < n
                    invariant
                        n == members@.len(),
                        field(*self, key@) == member_value(members@, key@),
                        0 <= i <= n,
                        member_value(members@, key@) == member_value(members@.skip(i as int), key@),
                    decreases n - i,
                {
                    assert(members@.skip(i as int).drop_first() =~= members@.skip(i + 1));
                    assert(members@.skip(i as int)[0] == members@[i as int]);
                    if same_text(members[i].key.as_str(), key) {
                        assert(member_value(members@.skip(i as int), key@) == Some(members@[i as int].value));
                        return Some(&members[i].value);
                    }
                    i = i + 1;
                }
                None
            },
            _ => None,
        }
    }

    /// `self[index]`, with `None` standing for `null`.
    pub fn get_element(&self, index: usize) -> (r: Option<&JsonValue>)
        ensures
            match r {
                Some(v) => element(*self, index as int) == Some(*v),
                None => element(*self, index as int) is None,
            },
    {
        match self {
            JsonValue::Array(items) => {
                if index < items.len() {
                    Some(&items[index])
                } else {
                    None
                }
            },
            _ => None,
        }
    }
}

/// The value behind a reference that may be absent.
pub open spec fn present(v: Option<&JsonValue>) -> Option<JsonValue> {
    match v {
        Some(x) => Some(*x),
        None => None,
    }
}

/// `v[key]` on something that may be absent.
pub fn then_get_field<'a>(v: Option<&'a JsonValue>, key: &str) -> (r: Option<&'a JsonValue>)
    ensures
        present(r) == then_field(present(v), key@),
{
    match v {
        Some(inner) => inner.get_field(key),
        None => None,
    }
}

/// `v[index]` on something that may be absent.
pub fn then_get_element<'a>(v: Option<&'a JsonValue>, index: usize) -> (r: Option<&'a JsonValue>)
    ensures
        present(r) == then_element(present(v), index as int),
{
    match v {
        Some(inner) => inner.get_element(index),
        None => None,
    }
}

/// `v.as_str().unwrap_or_default()` on something that may be absent.
pub fn text_or_default(v: Option<&JsonValue>) -> (r: String)
    ensures
        r@ == text_or_empty(present(v)),
{
    match v {
        Some(JsonValue::Str(s)) => s.clone(),
        _ => String::new(),
    }
}

/// Looking a key up in an object finds the first member with that key,
/// wherever in the object it stands.
pub proof fn law_field_finds_first_member(v: JsonValue, key: Seq<char>, j: int)
    requires
        v matches JsonValue::Object(members) && 0 <= j < members@.len() && members@[j].key@ == key
            && forall|i: int| 0 <= i < j ==> (#[trigger] members@[i]).key@ != key,
    ensures
        field(v, key) == Some(v->Object_0@[j].value),
{
    let members = v->Object_0@;
    lemma_member_value_first(members, key, j);
}

/// Looking up a key that no member of an object has finds nothing.
pub proof fn law_field_missing_key(v: JsonValue, key: Seq<char>)
    requires
        v matches JsonValue::Object(members) && forall|i: int|
            0 <= i < members@.len() ==> (#[trigger] members@[i]).key@ != key,
    ensures
        field(v, key) is None,
{
    lemma_member_value_absent(v->Object_0@, key);
}

proof fn lemma_member_value_first(members: Seq<JsonMember>, key: Seq<char>, j: int)
    requires
        0 <= j < members.len(),
        members[j].key@ == key,
        forall|i: int| 0 <= i < j ==> (#[trigger] members[i]).key@ != key,
    ensures
        member_value(members, key) == Some(members[j].value),
    decreases j,
{
    if j > 0 {
        let rest = members.drop_first();
        assert(members[0].key@ != key);
        assert forall|i: int| 0 <= i < j - 1 implies (#[trigger] rest[i]).key@ != key by {
            assert(rest[i] == members[i + 1]);
        }
        lemma_member_value_first(rest, key, j - 1);
    }
}

proof fn lemma_member_value_absent(members: Seq<JsonMember>, key: Seq<char>)
    requires
        forall|i: int| 0 <= i < members.len() ==> (#[trigger] members[i]).key@ != key,
    ensures
        member_value(members, key) is None,
    decreases members.len(),
{
    if members.len() > 0 {
        let rest = members.drop_first();
        assert(members[0].key@ != key);
        assert forall|i: int| 0 <= i < rest.len() implies (#[trigger] rest[i]).key@ != key by {
            assert(rest[i] == members[i + 1]);
        }
        lemma_member_value_absent(rest, key);
    }
}

} // verus!
