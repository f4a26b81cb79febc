//! A plain model of JSON values, filled by serde_json's parser.
use vstd::prelude::*;

verus! {

/// A JSON value. Object entries keep the order in which the parser hands
/// them out; the parser keeps each key once.
#[derive(Debug)]
pub enum Json {
    Null,
    Bool(bool),
    Number(String),
    Str(String),
    Array(Vec<Json>),
    Object(Vec<(String, Json)>),
}

/// What serde_json makes of a text: the value, or the parser's error
/// message when the text is not JSON.
pub uninterp spec fn parsed_json(text: Seq<char>) -> Result<Json, Seq<char>>;

/// No two entries share a key.
pub open spec fn unique_keys(entries: Seq<(String, Json)>) -> bool {
    forall|a: int, b: int| 0 <= a < b < entries.len() ==> entries[a].0@ != entries[b].0@
}

/// Every object met in `j`, down to `depth` levels, has distinct keys.
pub open spec fn keys_unique_to(j: Json, depth: nat) -> bool
    decreases depth,
{
    if depth == 0 {
        true
    } else {
        match j {
            Json::Object(entries) => unique_keys(entries@) && forall|i: int|
                0 <= i < entries@.len() ==> keys_unique_to(#[trigger] entries@[i].1, (depth - 1) as nat),
            Json::Array(items) => forall|i: int|
                0 <= i < items@.len() ==> keys_unique_to(#[trigger] items@[i], (depth - 1) as nat),
            _ => true,
        }
    }
}

/// Relies on serde_json::from_str into serde_json::Value: the result, and the
/// error's message, depend on the text alone; its objects are `BTreeMap`s,
/// which hold each key once.
#[verifier::external_body]
pub(crate) fn parse_json(text: &str) -> (r: Result<Json, String>)
    ensures
        match r {
            Ok(j) => parsed_json(text@) == Ok::<Json, Seq<char>>(j) && forall|d: nat| #[trigger] keys_unique_to(j, d),
            Err(m) => parsed_json(text@) == Err::<Json, Seq<char>>(m@),
        },
{
    serde_json::from_str::<serde_json::Value>(text).map(json_from_value).map_err(|e| e.to_string())
}

/// serde_json's value type, carried only from the parser to `json_from_value`.
#[verifier::external_type_specification]
#[verifier::external_body]
pub struct ExValue(serde_json::Value);

/// Rebuilds a serde_json::Value variant by variant, moving each field; used
/// only inside `parse_json`, whose contract covers the result.
#[verifier::external_body]
fn json_from_value(v: serde_json::Value) -> Json {
    match v {
        serde_json::Value::Null => Json::Null,
        serde_json::Value::Bool(b) => Json::Bool(b),
        serde_json::Value::Number(n) => Json::Number(n.to_string()),
        serde_json::Value::String(s) => Json::Str(s),
        serde_json::Value::Array(a) => Json::Array(a.into_iter().map(json_from_value).collect()),
        serde_json::Value::Object(m) => Json::Object(
            m.into_iter().map(|(k, x)| (k, json_from_value(x))).collect(),
        ),
    }
}

/// The value stored under `key` in a list of object entries: the first entry
/// with that key.
pub open spec fn lookup(entries: Seq<(String, Json)>, key: Seq<char>) -> Option<Json>
    decreases entries.len(),
{
    if entries.len() == 0 {
        None
    } else if entries[0].0@ == key {
        Some(entries[0].1)
    } else {
        lookup(entries.drop_first(), key)
    }
}

/// The member `key` of `j`, where `j` is an object that has one.
pub open spec fn member(j: Json, key: Seq<char>) -> Option<Json> {
    match j {
        Json::Object(entries) => lookup(entries@, key),
        _ => None,
    }
}

/// The text of `j`, where `j` is a string.
pub open spec fn text_of(j: Json) -> Option<Seq<char>> {
    match j {
        Json::Str(s) => Some(s@),
        _ => None,
    }
}

/// The member `key` of `j` when it is a string.
pub open spec fn str_member(j: Json, key: Seq<char>) -> Option<Seq<char>> {
    match member(j, key) {
        Some(m) => text_of(m),
        None => None,
    }
}

/// A member found by `lookup` is the value of one of the entries.
pub proof fn lemma_lookup_entry(entries: Seq<(String, Json)>, key: Seq<char>)
    ensures
        lookup(entries, key) is Some ==> exists|i: int| 0 <= i < entries.len() && #[trigger] entries[i].1 == lookup(entries, key)->0,
    decreases entries.len(),
{
    if entries.len() > 0 && entries[0].0@ != key {
        let rest = entries.drop_first();
        lemma_lookup_entry(rest, key);
        if lookup(rest, key) is Some {
            let i = choose|i: int| 0 <= i < rest.len() && #[trigger] rest[i].1 == lookup(rest, key)->0;
            assert(entries[i + 1].1 == rest[i].1);
        }
    }
}

/// A member of a value whose objects have distinct keys to `depth + 1`
/// levels has distinct keys to `depth` levels.
pub proof fn lemma_member_keys_unique(j: Json, key: Seq<char>, depth: nat)
    requires
        keys_unique_to(j, depth + 1),
        member(j, key) is Some,
    ensures
        keys_unique_to(member(j, key)->0, depth),
{
    if let Json::Object(entries) = j {
        lemma_lookup_entry(entries@, key);
        let i = choose|i: int| 0 <= i < entries@.len() && #[trigger] entries@[i].1 == lookup(entries@, key)->0;
        assert(keys_unique_to(entries@[i].1, depth));
    }
}

/// Finds the member `key` of an object.
pub fn get_member<'a>(j: &'a Json, key: &str) -> (r: Option<&'a Json>)
    ensures
        match r {
            Some(m) => member(*j, key@) == Some(*m),
            None => member(*j, key@).is_none(),
        },
{
    match j {
        Json::Object(entries) => {
            let k = String::from_str(key);
            let mut i: usize = 0;
            assert(entries@.subrange(0, entries@.len() as int) =~= entries@);
            while i < entries.len()
                invariant
                    0 <= i <= entries@.len(),
                    k@ == key@,
                    member(*j, key@) == lookup(entries@, key@),
                    lookup(entries@, key@) == lookup(entries@.subrange(i as int, entries@.len() as int), key@),
                decreases entries@.len() - i,
            {
                assert(entries@.subrange(i as int, entries@.len() as int).drop_first()
                    =~= entries@.subrange(i + 1, entries@.len() as int));
                assert(entries@.subrange(i as int, entries@.len() as int)[0] == entries@[i as int]);
                if entries[i].0 == k {
                    assert(lookup(entries@.subrange(i as int, entries@.len() as int), key@) == Some(entries@[i as int].1));
                    return Some(&entries[i].1);
                }
                i = i + 1;
            }
            None
        },
        _ => None,
    }
}

/// Reads the member `key` of an object when it is a string.
pub fn get_str_member<'a>(j: &'a Json, key: &str) -> (r: Option<&'a String>)
    ensures
        match r {
            Some(s) => str_member(*j, key@) == Some(s@),
            None => str_member(*j, key@).is_none(),
        },
{
    match get_member(j, key) {
        Some(Json::Str(s)) => Some(s),
        _ => None,
    }
}

} // verus!
