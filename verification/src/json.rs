//! JSON values, read and written through `serde_json`.
//!
//! The wire protocol and the registry file are JSON. `serde_json` turns text into
//! values and values into text; the library reads and builds `JsonValue`s, whose
//! mathematical model is `Json`.

use vstd::prelude::*;

use crate::text::text_eq;

verus! {

/// A JSON value. Integers that fit are kept exactly: non-negative ones as
/// `UInt`, negative ones as `NegInt`; any other number is a `Fraction`, whose
/// value the library never reads. Object entries keep their document order.
#[derive(Debug)]
pub enum JsonValue {
    Null,
    Bool(bool),
    UInt(u64),
    NegInt(i64),
    Fraction,
    Str(String),
    Array(Vec<JsonValue>),
    Object(Vec<(String, JsonValue)>),
}

/// The model of a JSON value: texts as character sequences.
pub enum Json {
    Null,
    Bool(bool),
    UInt(u64),
    NegInt(i64),
    Fraction,
    Str(Seq<char>),
    Array(Seq<Json>),
    Object(Seq<(Seq<char>, Json)>),
}

/// The model of a value, node for node.
pub open spec fn json_model(v: JsonValue) -> Json
    decreases v,
{
    match v {
        JsonValue::Null => Json::Null,
        JsonValue::Bool(b) => Json::Bool(b),
        JsonValue::UInt(n) => Json::UInt(n),
        JsonValue::NegInt(n) => Json::NegInt(n),
        JsonValue::Fraction => Json::Fraction,
        JsonValue::Str(s) => Json::Str(s@),
        JsonValue::Array(items) => Json::Array(
            Seq::new(
                items@.len(),
                |i: int|
                    if 0 <= i < items@.len() {
                        json_model(items@[i])
                    } else {
                        Json::Null
                    },
            ),
        ),
        JsonValue::Object(entries) => Json::Object(
            Seq::new(
                entries@.len(),
                |i: int|
                    if 0 <= i < entries@.len() {
                        (entries@[i].0@, json_model(entries@[i].1))
                    } else {
                        (Seq::empty(), Json::Null)
                    },
            ),
        ),
    }
}

impl View for JsonValue {
    type V = Json;

    open spec fn view(&self) -> Json {
        json_model(*self)
    }
}

/// The keys of an object's entries.
pub open spec fn keys_of(entries: Seq<(Seq<char>, Json)>) -> Seq<Seq<char>> {
    entries.map_values(|e: (Seq<char>, Json)| e.0)
}

/// A value that JSON text carries unchanged: no fractions, negative integers
/// only under `NegInt`, distinct keys in each object, and nesting no deeper than
/// `depth`.
pub open spec fn json_wf(v: Json, depth: nat) -> bool
    decreases v,
{
    match v {
        Json::Fraction => false,
        Json::NegInt(n) => n < 0,
        Json::Array(items) => depth > 0 && forall|i: int|
            0 <= i < items.len() ==> json_wf(#[trigger] items[i], (depth - 1) as nat),
        Json::Object(entries) => {
            &&& depth > 0
            &&& keys_of(entries).no_duplicates()
            &&& forall|i: int|
                0 <= i < entries.len() ==> json_wf(#[trigger] entries[i].1, (depth - 1) as nat)
        },
        _ => true,
    }
}

/// The nesting depth up to which values are carried unchanged; serde_json's
/// parser accepts twice as much.
pub open spec fn max_depth() -> nat {
    64
}

/// What `serde_json::from_str` gives for a text, as a model value; nothing when
/// the text is no JSON document.
pub uninterp spec fn json_parsed(text: Seq<char>) -> Option<Json>;

/// The compact text that `serde_json::to_string` writes for a value.
pub uninterp spec fn json_written(v: Json) -> Seq<char>;

/// The indented text that `serde_json::to_string_pretty` writes for a value.
pub uninterp spec fn json_written_pretty(v: Json) -> Seq<char>;

#[verifier::external_type_specification]
#[verifier::external_body]
pub struct ExJsonValue(serde_json::Value);

/// Parses JSON text with `serde_json::from_str` into a `serde_json::Value` (object
/// keys in document order, the crate's `preserve_order` feature) and converts it
/// node for node with `model_of`. What it gives is named `json_parsed`.
#[verifier::external_body]
pub fn parse_json(text: &str) -> (r: Option<JsonValue>)
    ensures
        match r {
            Some(v) => json_parsed(text@) == Some(v@),
            None => json_parsed(text@) is None,
        },
{
    match serde_json::from_str::<serde_json::Value>(text) {
        Ok(v) => Some(model_of(&v)),
        Err(_) => None,
    }
}

/// Converts a `serde_json::Value` node for node: a number by `as_u64`, else
/// `as_i64`, else `Fraction`; arrays and objects entry by entry in their order.
#[verifier::external_body]
fn model_of(v: &serde_json::Value) -> JsonValue {
    match v {
        serde_json::Value::Null => JsonValue::Null,
        serde_json::Value::Bool(b) => JsonValue::Bool(*b),
        serde_json::Value::Number(n) => match (n.as_u64(), n.as_i64()) {
            (Some(u), _) => JsonValue::UInt(u),
            (None, Some(i)) => JsonValue::NegInt(i),
            (None, None) => JsonValue::Fraction,
        },
        serde_json::Value::String(s) => JsonValue::Str(s.clone()),
        serde_json::Value::Array(a) => JsonValue::Array(a.iter().map(model_of).collect()),
        serde_json::Value::Object(m) => JsonValue::Object(
            m.iter().map(|(k, x)| (k.clone(), model_of(x))).collect(),
        ),
    }
}

/// Converts a value to a `serde_json::Value` node for node; a `Fraction`, which
/// carries no number, becomes `null`. The values the library writes (frames and
/// the registry file) are built by its encoders, which never make a `Fraction`,
/// so that case is never reached when writing them.
#[verifier::external_body]
fn value_of(v: &JsonValue) -> serde_json::Value {
    match v {
        JsonValue::Null | JsonValue::Fraction => serde_json::Value::Null,
        JsonValue::Bool(b) => serde_json::Value::Bool(*b),
        JsonValue::UInt(u) => serde_json::Value::from(*u),
        JsonValue::NegInt(i) => serde_json::Value::from(*i),
        JsonValue::Str(s) => serde_json::Value::String(s.clone()),
        JsonValue::Array(a) => serde_json::Value::Array(a.iter().map(value_of).collect()),
        JsonValue::Object(o) => serde_json::Value::Object(
            o.iter().map(|(k, x)| (k.clone(), value_of(x))).collect(),
        ),
    }
}

/// Writes a value as compact JSON with `serde_json::to_string`, which cannot fail
/// on a `serde_json::Value`. The text is never empty and holds no line feed: the
/// compact formatter puts no whitespace between tokens and strings escape a line
/// feed as `\n`. serde_json parses its own output of a well-formed value back to
/// that value.
#[verifier::external_body]
pub fn write_json(v: &JsonValue) -> (r: String)
    ensures
        r@ == json_written(v@),
        r@.len() > 0,
        r@.last() != '\n',
        !r@.contains('\n'),
        json_wf(v@, max_depth()) ==> json_parsed(r@) == Some(v@),
{
    serde_json::to_string(&value_of(v)).unwrap_or_default()
}

/// Writes a value as indented JSON with `serde_json::to_string_pretty`; serde_json
/// parses it back to the value when the value is well formed.
#[verifier::external_body]
pub fn write_json_pretty(v: &JsonValue) -> (r: String)
    ensures
        r@ == json_written_pretty(v@),
        json_wf(v@, max_depth()) ==> json_parsed(r@) == Some(v@),
{
    serde_json::to_string_pretty(&value_of(v)).unwrap_or_default()
}

/// The value of the first entry named `key`.
pub open spec fn spec_field(entries: Seq<(Seq<char>, Json)>, key: Seq<char>) -> Option<Json>
    decreases entries.len(),
{
    if entries.len() == 0 {
        None
    } else if entries[0].0 == key {
        Some(entries[0].1)
    } else {
        spec_field(entries.drop_first(), key)
    }
}

/// The model of an object's entries.
pub open spec fn entries_model(entries: Seq<(String, JsonValue)>) -> Seq<(Seq<char>, Json)> {
    Seq::new(entries.len(), |i: int| (entries[i].0@, entries[i].1@))
}

pub proof fn lemma_object_model(entries: Vec<(String, JsonValue)>)
    ensures
        JsonValue::Object(entries)@ == Json::Object(entries_model(entries@)),
{
    let j = json_model(JsonValue::Object(entries));
    if let Json::Object(t) = j {
        assert(t =~= entries_model(entries@));
    }
}

/// The model of an array's items.
pub open spec fn items_model(items: Seq<JsonValue>) -> Seq<Json> {
    Seq::new(items.len(), |i: int| items[i]@)
}

pub proof fn lemma_array_model(items: Vec<JsonValue>)
    ensures
        JsonValue::Array(items)@ == Json::Array(items_model(items@)),
{
    let j = json_model(JsonValue::Array(items));
    if let Json::Array(t) = j {
        assert(t =~= items_model(items@));
    }
}

/// The first entry named `key`.
pub fn get_field<'a>(entries: &'a Vec<(String, JsonValue)>, key: &str) -> (r: Option<&'a JsonValue>)
    ensures
        match r {
            Some(v) => spec_field(entries_model(entries@), key@) == Some(v@),
            None => spec_field(entries_model(entries@), key@) is None,
        },
{
    let ghost m = entries_model(entries@);
    let mut i: usize = 0;
    assert(m.skip(0) =~= m);
    while i < entries.len()
        invariant
            i <= entries@.len(),
            m == entries_model(entries@),
            spec_field(m, key@) == spec_field(m.skip(i as int), key@),
        decreases entries.len() - i,
    {
        assert(m.skip(i as int).drop_first() =~= m.skip(i + 1));
        if text_eq(entries[i].0.as_str(), key) {
            return Some(&entries[i].1);
        }
        i = i + 1;
    }
    None
}

/// With distinct keys, the field named by an entry's key is that entry's value.
pub proof fn lemma_field_of_distinct(entries: Seq<(Seq<char>, Json)>, i: int)
    requires
        keys_of(entries).no_duplicates(),
        0 <= i < entries.len(),
    ensures
        spec_field(entries, entries[i].0) == Some(entries[i].1),
    decreases entries.len(),
{
    if i > 0 {
        assert(keys_of(entries)[0] != keys_of(entries)[i]);
        assert(keys_of(entries.drop_first()) =~= keys_of(entries).drop_first());
        lemma_field_of_distinct(entries.drop_first(), i - 1);
    }
}

/// A key not among the entries names no field.
pub proof fn lemma_field_absent(entries: Seq<(Seq<char>, Json)>, key: Seq<char>)
    requires
        forall|i: int| 0 <= i < entries.len() ==> entries[i].0 != key,
    ensures
        spec_field(entries, key) is None,
    decreases entries.len(),
{
    if entries.len() > 0 {
        lemma_field_absent(entries.drop_first(), key);
    }
}

} // verus!
