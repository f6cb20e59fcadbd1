//! The JSON that the library reads and writes, as flat objects: the members of
//! an object with what the library asks of each.

use vstd::prelude::*;
use vstd::string::*;

verus! {

/// The value of one member of a JSON object.
#[derive(Debug, Clone, PartialEq, Eq)]
pub struct JsonField {
    /// What the value says, where it is a string.
    pub text: Option<String>,
    /// The value as compact JSON.
    pub json: String,
}

/// What a [`JsonField`] says.
#[verifier::ext_equal]
pub struct JsonFieldView {
    pub text: Option<Seq<char>>,
    pub json: Seq<char>,
}

impl DeepView for JsonField {
    type V = JsonFieldView;

    open spec fn deep_view(&self) -> JsonFieldView {
        JsonFieldView { text: self.text.deep_view(), json: self.json@ }
    }
}

/// The first value that `fields` gives for `key`.
pub open spec fn lookup<V>(fields: Seq<(Seq<char>, V)>, key: Seq<char>) -> Option<V>
    decreases fields.len(),
{
    if fields.len() == 0 {
        None
    } else if fields[0].0 == key {
        Some(fields[0].1)
    } else {
        lookup(fields.drop_first(), key)
    }
}

/// The members that a list of fields stands for.
pub open spec fn members<V>(fields: Seq<(Seq<char>, V)>) -> Map<Seq<char>, V> {
    Map::new(|key: Seq<char>| lookup(fields, key) is Some, |key: Seq<char>| lookup(fields, key)->0)
}

/// The members of the JSON object that `text` is; `None` where `text` is not
/// JSON or not an object.
pub uninterp spec fn parsed_object(text: Seq<char>) -> Option<Map<Seq<char>, JsonFieldView>>;

/// `serde_json::from_str` into a `Value`, taken apart: the members of the
/// object, each with `Value::as_str` and the compact `to_string` of its value.
/// What a given text parses to is not stated here.
#[verifier::external_body]
pub(crate) fn parse_object(text: &str) -> (r: Option<Vec<(String, JsonField)>>)
    ensures
        r is Some <==> parsed_object(text@) is Some,
        r matches Some(fields) ==> Some(members(fields.deep_view())) == parsed_object(text@),
{
    match serde_json::from_str::<serde_json::Value>(text) {
        Ok(serde_json::Value::Object(map)) => Some(
            map.into_iter().map(
                |(key, value)|
                    (
                        key,
                        JsonField {
                            text: value.as_str().map(String::from),
                            json: value.to_string(),
                        },
                    ),
            ).collect(),
        ),
        _ => None,
    }
}

/// The compact JSON text of the object that has the given members, all of them
/// strings.
pub uninterp spec fn object_json(fields: Map<Seq<char>, Seq<char>>) -> Seq<char>;

/// No two fields have the same key, and no key begins with a dollar sign.
pub open spec fn plain_keys<V>(fields: Seq<(Seq<char>, V)>) -> bool {
    &&& forall|i: int, j: int|
        0 <= i < j < fields.len() ==> (#[trigger] fields[i]).0 != (#[trigger] fields[j]).0
    &&& forall|i: int|
        0 <= i < fields.len() ==> (#[trigger] fields[i]).0.len() > 0 && fields[i].0[0] != '$'
}

/// `text` is a JSON object whose members are just `fields`, all of them
/// strings.
pub open spec fn reads_back(text: Seq<char>, fields: Map<Seq<char>, Seq<char>>) -> bool {
    parsed_object(text) matches Some(m) && m.dom() == fields.dom() && forall|key: Seq<char>|
        #[trigger] m.contains_key(key) ==> m[key].text == Some(fields[key])
}

/// `serde_json::Value`'s compact `to_string` of an object whose members are all
/// strings. Reading the text back gives an object with the same members. Keys
/// that begin with a dollar sign are left out, since `serde_json` keeps some of
/// those to itself.
#[verifier::external_body]
pub(crate) fn write_object(fields: Vec<(String, String)>) -> (r: String)
    requires
        plain_keys(fields.deep_view()),
    ensures
        r@ == object_json(members(fields.deep_view())),
        reads_back(r@, members(fields.deep_view())),
{
    let map: serde_json::Map<String, serde_json::Value> = fields.into_iter().map(
        |(key, value)| (key, serde_json::Value::String(value)),
    ).collect();
    serde_json::Value::Object(map).to_string()
}

/// Finds the value of the member `key`.
pub fn get<'a>(fields: &'a Vec<(String, JsonField)>, key: &str) -> (r: Option<&'a JsonField>)
    ensures
        r.deep_view() == lookup(fields.deep_view(), key@),
{
    let ghost all = fields.deep_view();
    let mut i: usize = 0;
    assert(all.skip(0) =~= all);
    while i < fields.len()
        invariant
            i <= fields.len(),
            all == fields.deep_view(),
            lookup(all, key@) == lookup(all.skip(i as int), key@),
        decreases fields.len() - i,
    {
        assert(all.skip(i as int)[0] == fields@[i as int].deep_view());
        if *fields[i].0.as_str() == *key {
            return Some(&fields[i].1);
        }
        assert(all.skip(i as int).drop_first() =~= all.skip(i + 1));
        i += 1;
    }
    None
}

/// Looking a key up gives the value of the first field with that key, and
/// nothing where no field has it.
pub proof fn lookup_gives_the_first<V>(fields: Seq<(Seq<char>, V)>, key: Seq<char>, i: int)
    ensures
        0 <= i < fields.len() && fields[i].0 == key && (forall|j: int|
            0 <= j < i ==> (#[trigger] fields[j]).0 != key) ==> lookup(fields, key) == Some(
            fields[i].1,
        ),
        (forall|j: int| 0 <= j < fields.len() ==> (#[trigger] fields[j]).0 != key) ==> lookup(
            fields,
            key,
        ) is None,
    decreases fields.len(),
{
    if fields.len() > 0 {
        let rest = fields.drop_first();
        lookup_gives_the_first(rest, key, i - 1);
        assert forall|j: int|
            0 <= j < rest.len() && (forall|k: int|
                0 <= k < fields.len() ==> (#[trigger] fields[k]).0 != key) implies (
        #[trigger] rest[j]).0 != key by {
            assert(rest[j] == fields[j + 1]);
        }
        if 0 <= i < fields.len() && fields[i].0 == key && (forall|j: int|
            0 <= j < i ==> (#[trigger] fields[j]).0 != key) {
            if i > 0 {
                assert(fields[0].0 != key);
                assert(rest[i - 1] == fields[i]);
                assert forall|j: int| 0 <= j < i - 1 implies (#[trigger] rest[j]).0 != key by {
                    assert(rest[j] == fields[j + 1]);
                }
            }
        }
    }
}

/// The members of an object are its fields: a key is among them exactly when
/// some field has it, and its value is then that of the first such field.
pub proof fn members_are_the_fields<V>(fields: Seq<(Seq<char>, V)>, key: Seq<char>)
    ensures
        members(fields).contains_key(key) <==> exists|i: int|
            0 <= i < fields.len() && (#[trigger] fields[i]).0 == key,
        forall|i: int|
            0 <= i < fields.len() && (#[trigger] fields[i]).0 == key && (forall|j: int|
                0 <= j < i ==> (#[trigger] fields[j]).0 != key) ==> members(fields)[key]
                == fields[i].1,
    decreases fields.len(),
{
    lookup_gives_the_first(fields, key, 0);
    if fields.len() > 0 {
        let rest = fields.drop_first();
        members_are_the_fields(rest, key);
        if fields[0].0 != key {
            if exists|i: int| 0 <= i < fields.len() && (#[trigger] fields[i]).0 == key {
                let i = choose|i: int| 0 <= i < fields.len() && (#[trigger] fields[i]).0 == key;
                assert(rest[i - 1].0 == key);
            }
            if members(rest).contains_key(key) {
                let i = choose|i: int| 0 <= i < rest.len() && (#[trigger] rest[i]).0 == key;
                assert(fields[i + 1].0 == key);
            }
        } else {
            assert(fields[0].0 == key);
        }
    }
    assert forall|i: int|
        0 <= i < fields.len() && (#[trigger] fields[i]).0 == key && (forall|j: int|
            0 <= j < i ==> (#[trigger] fields[j]).0 != key) implies members(fields)[key]
        == fields[i].1 by {
        lookup_gives_the_first(fields, key, i);
    }
}

} // verus!
