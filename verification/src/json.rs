//! JSON values as the library reads and edits them.

use vstd::prelude::*;

use serde_json::Value;

use crate::text::copy_str;

verus! {

/// A JSON value. Numbers keep the distinction that serde_json makes: a
/// non-negative integer, a negative integer, or any other number (kept as
/// its text). Object members keep their order and each key occurs once.
#[derive(Debug)]
pub enum JsonValue {
    Null,
    Bool(bool),
    UInt(u64),
    Int(i64),
    Float(String),
    Str(String),
    Array(Vec<JsonValue>),
    Object(Vec<(String, JsonValue)>),
}

pub enum JsonSpec {
    Null,
    Bool(bool),
    UInt(u64),
    Int(i64),
    Float(Seq<char>),
    Str(Seq<char>),
    Array(Seq<JsonSpec>),
    Object(Seq<(Seq<char>, JsonSpec)>),
}

pub open spec fn json_view(v: JsonValue) -> JsonSpec
    decreases v,
{
    match v {
        JsonValue::Null => JsonSpec::Null,
        JsonValue::Bool(b) => JsonSpec::Bool(b),
        JsonValue::UInt(n) => JsonSpec::UInt(n),
        JsonValue::Int(n) => JsonSpec::Int(n),
        JsonValue::Float(t) => JsonSpec::Float(t@),
        JsonValue::Str(t) => JsonSpec::Str(t@),
        JsonValue::Array(items) => JsonSpec::Array(
            Seq::new(
                items@.len(),
                |i: int|
                    if 0 <= i < items@.len() {
                        json_view(items@[i])
                    } else {
                        JsonSpec::Null
                    },
            ),
        ),
        JsonValue::Object(members) => JsonSpec::Object(
            Seq::new(
                members@.len(),
                |i: int|
                    if 0 <= i < members@.len() {
                        (members@[i].0@, json_view(members@[i].1))
                    } else {
                        (Seq::empty(), JsonSpec::Null)
                    },
            ),
        ),
    }
}

impl View for JsonValue {
    type V = JsonSpec;

    open spec fn view(&self) -> JsonSpec {
        json_view(*self)
    }
}


#[verifier::external_type_specification]
#[verifier::external_body]
pub struct ExSerdeValue(serde_json::Value);

/// What serde_json makes of a text: the value it reads, in this library's
/// model of JSON values, or the text of its error.
pub uninterp spec fn json_parse(text: Seq<char>) -> Result<JsonSpec, Seq<char>>;

/// A `serde_json::Value` as this library's value, one for one: the
/// variant, and a number as `as_u64`, else `as_i64`, else its text.
#[verifier::external_body]
fn json_from_serde(value: &Value) -> JsonValue {
    match value {
        Value::Null => JsonValue::Null,
        Value::Bool(flag) => JsonValue::Bool(*flag),
        Value::Number(n) => match (n.as_u64(), n.as_i64()) {
            (Some(u), _) => JsonValue::UInt(u),
            (None, Some(i)) => JsonValue::Int(i),
            (None, None) => JsonValue::Float(n.to_string()),
        },
        Value::String(text) => JsonValue::Str(text.clone()),
        Value::Array(items) => JsonValue::Array(items.iter().map(json_from_serde).collect()),
        Value::Object(ms) => JsonValue::Object(
            ms.iter().map(|(k, v)| (k.clone(), json_from_serde(v))).collect(),
        ),
    }
}

/// `serde_json::from_str::<serde_json::Value>(text)`, the value converted
/// one for one and the error as its text. The contract claims that the
/// outcome is the named function of the text.
#[verifier::external_body]
fn serde_parse(text: &str) -> (out: Result<JsonValue, String>)
    ensures
        match out {
            Ok(v) => json_parse(text@) == Ok::<JsonSpec, Seq<char>>(v@),
            Err(e) => json_parse(text@) == Err::<JsonSpec, Seq<char>>(e@),
        },
{
    match serde_json::from_str::<serde_json::Value>(text) {
        Ok(value) => Ok(json_from_serde(&value)),
        Err(error) => Err(error.to_string()),
    }
}

/// The JSON value a text holds, or the parser's error message.
pub fn parse_json(text: &str) -> (out: Result<JsonValue, String>)
    ensures
        match out {
            Ok(v) => json_parse(text@) == Ok::<JsonSpec, Seq<char>>(v@),
            Err(e) => json_parse(text@) == Err::<JsonSpec, Seq<char>>(e@),
        },
{
    serde_parse(text)
}

/// The members of the JSON object a text holds; `None` when the text is no
/// JSON or holds another kind of value.
pub open spec fn object_in_text(text: Seq<char>) -> Option<Seq<(Seq<char>, JsonSpec)>> {
    match json_parse(text) {
        Ok(JsonSpec::Object(ms)) => Some(ms),
        _ => None,
    }
}

/// The members of the JSON object a text holds, if it holds one.
pub fn parse_json_object(text: &str) -> (out: Option<Vec<(String, JsonValue)>>)
    ensures
        match out {
            Some(ms) => object_in_text(text@) == Some(members_view(ms@)),
            None => object_in_text(text@) is None,
        },
{
    match parse_json(text) {
        Ok(JsonValue::Object(members)) => {
            proof {
                lemma_object_view(members);
            }
            Some(members)
        },
        _ => None,
    }
}

/// Index of the first member named `key`, or -1.
pub open spec fn member_index_from(ms: Seq<(Seq<char>, JsonSpec)>, key: Seq<char>, i: int) -> int
    decreases ms.len() - i,
{
    if i < 0 || i >= ms.len() {
        -1
    } else if ms[i].0 == key {
        i
    } else {
        member_index_from(ms, key, i + 1)
    }
}

pub open spec fn member_index(ms: Seq<(Seq<char>, JsonSpec)>, key: Seq<char>) -> int {
    member_index_from(ms, key, 0)
}

pub proof fn lemma_member_index(ms: Seq<(Seq<char>, JsonSpec)>, key: Seq<char>, i: int)
    requires
        0 <= i <= ms.len(),
    ensures
        member_index_from(ms, key, i) == -1 || (i <= member_index_from(ms, key, i) < ms.len()
            && ms[member_index_from(ms, key, i)].0 == key),
        forall|k: int| i <= k < ms.len() && member_index_from(ms, key, i) == -1 ==> (#[trigger] ms[k]).0 != key,
        forall|k: int| i <= k < member_index_from(ms, key, i) ==> (#[trigger] ms[k]).0 != key,
    decreases ms.len() - i,
{
    if i < ms.len() && ms[i].0 != key {
        lemma_member_index(ms, key, i + 1);
    }
}

/// `Value::get(key)`: the member of an object, nothing for other values.
pub open spec fn get_spec(v: JsonSpec, key: Seq<char>) -> Option<JsonSpec> {
    match v {
        JsonSpec::Object(ms) => if member_index(ms, key) >= 0 {
            Some(ms[member_index(ms, key)].1)
        } else {
            None
        },
        _ => None,
    }
}

/// `Value::as_str`.
pub open spec fn as_str_spec(v: Option<JsonSpec>) -> Option<Seq<char>> {
    match v {
        Some(JsonSpec::Str(s)) => Some(s),
        _ => None,
    }
}

/// `Value::as_u64`.
pub open spec fn as_u64_spec(v: Option<JsonSpec>) -> Option<u64> {
    match v {
        Some(JsonSpec::UInt(n)) => Some(n),
        _ => None,
    }
}

pub fn duplicate(v: &JsonValue) -> (out: JsonValue)
    ensures
        out@ == v@,
    decreases v,
{
    match v {
        JsonValue::Null => JsonValue::Null,
        JsonValue::Bool(b) => JsonValue::Bool(*b),
        JsonValue::UInt(n) => JsonValue::UInt(*n),
        JsonValue::Int(n) => JsonValue::Int(*n),
        JsonValue::Float(t) => JsonValue::Float(copy_str(t.as_str())),
        JsonValue::Str(t) => JsonValue::Str(copy_str(t.as_str())),
        JsonValue::Array(items) => {
            let mut out: Vec<JsonValue> = Vec::new();
            let mut i: usize = 0;
            while i < items.len()
                invariant
                    *v == JsonValue::Array(*items),
                    i <= items.len(),
                    out@.len() == i,
                    forall|k: int| 0 <= k < i ==> (#[trigger] out@[k])@ == items@[k]@,
                decreases items.len() - i,
            {
                proof {
                    assert(*v == JsonValue::Array(*items));
                    assert(decreases_to!(*v => (*v)->Array_0));
                    assert(decreases_to!(*items => items@));
                    assert(decreases_to!(items@ => items@[i as int]));
                }
                out.push(duplicate(&items[i]));
                i = i + 1;
            }
            let ghost a = Seq::new(
                out@.len(),
                |i: int|
                    if 0 <= i < out@.len() {
                        json_view(out@[i])
                    } else {
                        JsonSpec::Null
                    },
            );
            let ghost b = Seq::new(
                items@.len(),
                |i: int|
                    if 0 <= i < items@.len() {
                        json_view(items@[i])
                    } else {
                        JsonSpec::Null
                    },
            );
            assert(a =~= b);
            let r = JsonValue::Array(out);
            assert(json_view(r)->Array_0 =~= json_view(*v)->Array_0);
            r
        },
        JsonValue::Object(members) => {
            let mut out: Vec<(String, JsonValue)> = Vec::new();
            let mut i: usize = 0;
            while i < members.len()
                invariant
                    *v == JsonValue::Object(*members),
                    i <= members.len(),
                    out@.len() == i,
                    forall|k: int|
                        0 <= k < i ==> (#[trigger] out@[k]).0@ == members@[k].0@ && out@[k].1@
                            == members@[k].1@,
                decreases members.len() - i,
            {
                proof {
                    assert(*v == JsonValue::Object(*members));
                    assert(decreases_to!(*v => (*v)->Object_0));
                    assert(decreases_to!(*members => members@));
                    assert(decreases_to!(members@ => members@[i as int]));
                    assert(decreases_to!(members@[i as int] => members@[i as int].1));
                }
                let key = copy_str(members[i].0.as_str());
                let value = duplicate(&members[i].1);
                out.push((key, value));
                i = i + 1;
            }
            let ghost a = Seq::new(
                out@.len(),
                |i: int|
                    if 0 <= i < out@.len() {
                        (out@[i].0@, json_view(out@[i].1))
                    } else {
                        (Seq::empty(), JsonSpec::Null)
                    },
            );
            let ghost b = Seq::new(
                members@.len(),
                |i: int|
                    if 0 <= i < members@.len() {
                        (members@[i].0@, json_view(members@[i].1))
                    } else {
                        (Seq::empty(), JsonSpec::Null)
                    },
            );
            assert(a =~= b);
            let r = JsonValue::Object(out);
            assert(json_view(r)->Object_0 =~= json_view(*v)->Object_0);
            r
        },
    }
}


/// The members of an object as values.
pub open spec fn members_view(members: Seq<(String, JsonValue)>) -> Seq<(Seq<char>, JsonSpec)> {
    Seq::new(
        members.len(),
        |i: int|
            if 0 <= i < members.len() {
                (members[i].0@, json_view(members[i].1))
            } else {
                (Seq::empty(), JsonSpec::Null)
            },
    )
}

pub proof fn lemma_object_view(members: Vec<(String, JsonValue)>)
    ensures
        json_view(JsonValue::Object(members)) == JsonSpec::Object(members_view(members@)),
{
    assert(json_view(JsonValue::Object(members))->Object_0 =~= members_view(members@));
}

/// The elements of an array as values.
pub open spec fn items_view(items: Seq<JsonValue>) -> Seq<JsonSpec> {
    Seq::new(
        items.len(),
        |i: int|
            if 0 <= i < items.len() {
                json_view(items[i])
            } else {
                JsonSpec::Null
            },
    )
}

pub proof fn lemma_array_view(items: Vec<JsonValue>)
    ensures
        json_view(JsonValue::Array(items)) == JsonSpec::Array(items_view(items@)),
{
    assert(json_view(JsonValue::Array(items))->Array_0 =~= items_view(items@));
}

/// `Value::as_array`.
pub fn as_array<'a>(v: Option<&'a JsonValue>) -> (out: Option<&'a Vec<JsonValue>>)
    ensures
        match out {
            Some(items) => v is Some && v.unwrap()@ == JsonSpec::Array(items_view(items@)),
            None => !(v matches Some(x) && x@ is Array),
        },
{
    match v {
        Some(JsonValue::Array(items)) => {
            proof {
                lemma_array_view(*items);
            }
            Some(items)
        },
        _ => None,
    }
}

/// Position of the first member named `key`.
pub fn find_member(members: &Vec<(String, JsonValue)>, key: &str) -> (out: Option<usize>)
    ensures
        match out {
            Some(k) => k < members@.len() && k as int == member_index(members_view(members@), key@),
            None => member_index(members_view(members@), key@) == -1,
        },
{
    let ghost ms = members_view(members@);
    let wanted = copy_str(key);
    let mut i: usize = 0;
    while i < members.len()
        invariant
            i <= members.len(),
            ms == members_view(members@),
            wanted@ == key@,
            member_index(ms, key@) == member_index_from(ms, key@, i as int),
        decreases members.len() - i,
    {
        assert(ms[i as int].0 == members@[i as int].0@);
        if members[i].0 == wanted {
            return Some(i);
        }
        i = i + 1;
    }
    None
}

/// `Value::get(key)`.
pub fn get<'a>(v: &'a JsonValue, key: &str) -> (out: Option<&'a JsonValue>)
    ensures
        match out {
            Some(x) => get_spec(v@, key@) == Some(x@),
            None => get_spec(v@, key@) is None,
        },
{
    match v {
        JsonValue::Object(members) => {
            proof {
                lemma_object_view(*members);
            }
            match find_member(members, key) {
                Some(k) => Some(&members[k].1),
                None => None,
            }
        },
        _ => None,
    }
}

/// `Value::as_str`.
pub fn as_str<'a>(v: Option<&'a JsonValue>) -> (out: Option<&'a String>)
    ensures
        match out {
            Some(s) => as_str_spec(
                match v {
                    Some(x) => Some(x@),
                    None => None,
                },
            ) == Some(s@),
            None => as_str_spec(
                match v {
                    Some(x) => Some(x@),
                    None => None,
                },
            ) is None,
        },
{
    match v {
        Some(JsonValue::Str(s)) => Some(s),
        _ => None,
    }
}

/// `Value::as_u64`.
pub fn as_u64(v: Option<&JsonValue>) -> (out: Option<u64>)
    ensures
        out == as_u64_spec(
            match v {
                Some(x) => Some(x@),
                None => None,
            },
        ),
{
    match v {
        Some(JsonValue::UInt(n)) => Some(*n),
        _ => None,
    }
}

/// `Map::insert`: a member named `key` is replaced in place, otherwise the
/// member is appended.
pub open spec fn insert_spec(ms: Seq<(Seq<char>, JsonSpec)>, key: Seq<char>, value: JsonSpec) -> Seq<
    (Seq<char>, JsonSpec),
> {
    let k = member_index(ms, key);
    if k >= 0 {
        ms.update(k, (key, value))
    } else {
        ms.push((key, value))
    }
}

proof fn lemma_index_is(ms: Seq<(Seq<char>, JsonSpec)>, key: Seq<char>, j: int, i: int)
    requires
        0 <= i <= j < ms.len(),
        ms[j].0 == key,
        forall|k: int| i <= k < j ==> (#[trigger] ms[k]).0 != key,
    ensures
        member_index_from(ms, key, i) == j,
    decreases j - i,
{
    if i < j {
        lemma_index_is(ms, key, j, i + 1);
    }
}

proof fn lemma_index_absent(ms: Seq<(Seq<char>, JsonSpec)>, key: Seq<char>, i: int)
    requires
        0 <= i <= ms.len(),
        forall|k: int| i <= k < ms.len() ==> (#[trigger] ms[k]).0 != key,
    ensures
        member_index_from(ms, key, i) == -1,
    decreases ms.len() - i,
{
    if i < ms.len() {
        lemma_index_absent(ms, key, i + 1);
    }
}

/// Reading a member right after inserting it gives the inserted value.
pub proof fn lemma_get_inserted(ms: Seq<(Seq<char>, JsonSpec)>, key: Seq<char>, value: JsonSpec)
    ensures
        get_spec(JsonSpec::Object(insert_spec(ms, key, value)), key) == Some(value),
{
    lemma_member_index(ms, key, 0);
    let out = insert_spec(ms, key, value);
    let k = member_index(ms, key);
    if k >= 0 {
        assert forall|t: int| 0 <= t < k implies (#[trigger] out[t]).0 != key by {
            assert(out[t] == ms[t]);
        }
        lemma_index_is(out, key, k, 0);
    } else {
        assert forall|t: int| 0 <= t < ms.len() implies (#[trigger] out[t]).0 != key by {
            assert(out[t] == ms[t]);
            assert(ms[t].0 != key);
        }
        lemma_index_is(out, key, ms.len() as int, 0);
    }
}

/// Inserting a member leaves every other member as it was.
pub proof fn lemma_get_other(
    ms: Seq<(Seq<char>, JsonSpec)>,
    key: Seq<char>,
    value: JsonSpec,
    other: Seq<char>,
)
    requires
        other != key,
    ensures
        get_spec(JsonSpec::Object(insert_spec(ms, key, value)), other) == get_spec(
            JsonSpec::Object(ms),
            other,
        ),
{
    lemma_member_index(ms, key, 0);
    lemma_member_index(ms, other, 0);
    let out = insert_spec(ms, key, value);
    let j = member_index(ms, other);
    assert forall|t: int| 0 <= t < ms.len() implies (#[trigger] out[t]).0 == key || out[t] == ms[t] by {}
    if j >= 0 {
        assert forall|t: int| 0 <= t < j implies (#[trigger] out[t]).0 != other by {
            assert(out[t].0 == key || out[t] == ms[t]);
        }
        assert(out[j] == ms[j]);
        lemma_index_is(out, other, j, 0);
    } else {
        assert forall|t: int| 0 <= t < out.len() implies (#[trigger] out[t]).0 != other by {
            if t < ms.len() {
                assert(out[t].0 == key || out[t] == ms[t]);
                assert(ms[t].0 != other);
            }
        }
        lemma_index_absent(out, other, 0);
    }
}

/// `Map::remove`.
pub open spec fn remove_spec(ms: Seq<(Seq<char>, JsonSpec)>, key: Seq<char>) -> Seq<
    (Seq<char>, JsonSpec),
> {
    let k = member_index(ms, key);
    if k >= 0 {
        ms.remove(k)
    } else {
        ms
    }
}

/// Removing a member leaves every other member as it was.
pub proof fn lemma_get_removed_other(ms: Seq<(Seq<char>, JsonSpec)>, key: Seq<char>, other: Seq<char>)
    requires
        other != key,
    ensures
        get_spec(JsonSpec::Object(remove_spec(ms, key)), other) == get_spec(
            JsonSpec::Object(ms),
            other,
        ),
{
    lemma_member_index(ms, key, 0);
    lemma_member_index(ms, other, 0);
    let k = member_index(ms, key);
    if k >= 0 {
        let out = ms.remove(k);
        let j = member_index(ms, other);
        if j >= 0 {
            assert(j != k);
            if j < k {
                assert forall|t: int| 0 <= t < j implies (#[trigger] out[t]).0 != other by {
                    assert(out[t] == ms[t]);
                }
                assert(out[j] == ms[j]);
                lemma_index_is(out, other, j, 0);
            } else {
                assert forall|t: int| 0 <= t < j - 1 implies (#[trigger] out[t]).0 != other by {
                    if t < k {
                        assert(out[t] == ms[t]);
                    } else {
                        assert(out[t] == ms[t + 1]);
                    }
                }
                assert(out[j - 1] == ms[j]);
                lemma_index_is(out, other, j - 1, 0);
            }
        } else {
            assert forall|t: int| 0 <= t < out.len() implies (#[trigger] out[t]).0 != other by {
                if t < k {
                    assert(out[t] == ms[t]);
                } else {
                    assert(out[t] == ms[t + 1]);
                }
            }
            lemma_index_absent(out, other, 0);
        }
    }
}

/// Removing a member leaves no member of that name.
pub proof fn lemma_get_removed(ms: Seq<(Seq<char>, JsonSpec)>, key: Seq<char>)
    requires
        forall|i: int, j: int| 0 <= i < j < ms.len() ==> ms[i].0 != ms[j].0,
    ensures
        get_spec(JsonSpec::Object(remove_spec(ms, key)), key) is None,
{
    lemma_member_index(ms, key, 0);
    let k = member_index(ms, key);
    if k >= 0 {
        let out = ms.remove(k);
        assert forall|t: int| 0 <= t < out.len() implies (#[trigger] out[t]).0 != key by {
            if t < k {
                assert(out[t] == ms[t]);
            } else {
                assert(out[t] == ms[t + 1]);
                assert(ms[k].0 != ms[t + 1].0);
            }
        }
        lemma_index_absent(out, key, 0);
    } else {
        lemma_index_absent(ms, key, 0);
    }
}

pub fn insert_member(members: &mut Vec<(String, JsonValue)>, key: String, value: JsonValue)
    ensures
        members_view(final(members)@) == insert_spec(members_view(old(members)@), key@, value@),
{
    let ghost ms = members_view(members@);
    match find_member(members, key.as_str()) {
        Some(k) => {
            let ghost kv = (key@, value@);
            members.set(k, (key, value));
            assert(members_view(members@) =~= ms.update(k as int, kv));
        },
        None => {
            let ghost kv = (key@, value@);
            members.push((key, value));
            assert(members_view(members@) =~= ms.push(kv));
        },
    }
}

pub fn remove_member(members: &mut Vec<(String, JsonValue)>, key: &str)
    ensures
        members_view(final(members)@) == remove_spec(members_view(old(members)@), key@),
{
    let ghost ms = members_view(members@);
    match find_member(members, key) {
        Some(k) => {
            members.remove(k);
            assert(members_view(members@) =~= ms.remove(k as int));
        },
        None => {},
    }
}

} // verus!
