//! JSON documents as plain values.
//!
//! `Json` holds what the rest of the library reads from a document: integers
//! that fit `i64`, every other number as its text, strings, arrays and objects
//! as ordered lists of fields. Reading and printing go through `serde_json`.
use crate::text::str_eq;
use serde_json::Value;
use vstd::prelude::*;

verus! {

/// A JSON document.
#[derive(Debug, PartialEq, Eq)]
pub enum Json {
    Null,
    Bool(bool),
    /// A number that is an integer within `i64`.
    Int(i64),
    /// Any other number, as the text that prints it.
    Number(String),
    Str(String),
    Array(Vec<Json>),
    /// The fields of an object, in order. A key is looked up from the front.
    Object(Vec<(String, Json)>),
}

/// The mathematical value of a `Json`.
pub enum JsonV {
    Null,
    Bool(bool),
    Int(int),
    Number(Seq<char>),
    Str(Seq<char>),
    Array(Seq<JsonV>),
    Object(Seq<(Seq<char>, JsonV)>),
}

impl Json {
    /// The value of a document, member by member.
    pub open spec fn model(self) -> JsonV
        decreases self,
    {
        match self {
            Json::Null => JsonV::Null,
            Json::Bool(b) => JsonV::Bool(b),
            Json::Int(i) => JsonV::Int(i as int),
            Json::Number(t) => JsonV::Number(t@),
            Json::Str(s) => JsonV::Str(s@),
            Json::Array(items) => JsonV::Array(spec_models(items@)),
            Json::Object(fields) => JsonV::Object(spec_field_models(fields@)),
        }
    }
}

/// The values of a run of documents.
pub open spec fn spec_models(items: Seq<Json>) -> Seq<JsonV>
    decreases items,
{
    if items.len() == 0 {
        Seq::empty()
    } else {
        spec_models(items.drop_last()).push(items.last().model())
    }
}

/// The values of a run of fields.
pub open spec fn spec_field_models(fields: Seq<(String, Json)>) -> Seq<(Seq<char>, JsonV)>
    decreases fields,
{
    if fields.len() == 0 {
        Seq::empty()
    } else {
        spec_field_models(fields.drop_last()).push((fields.last().0@, fields.last().1.model()))
    }
}

impl View for Json {
    type V = JsonV;

    open spec fn view(&self) -> JsonV {
        self.model()
    }
}

impl DeepView for Json {
    type V = JsonV;

    open spec fn deep_view(&self) -> JsonV {
        self.model()
    }
}

/// The fields of an object as the library passes them around.
pub type Fields = Seq<(Seq<char>, JsonV)>;

proof fn lemma_models(items: Seq<Json>)
    ensures
        spec_models(items).len() == items.len(),
        forall|i: int| 0 <= i < items.len() ==> (#[trigger] spec_models(items)[i]) == items[i].model(),
    decreases items.len(),
{
    if items.len() > 0 {
        lemma_models(items.drop_last());
    }
}

proof fn lemma_field_models(fields: Seq<(String, Json)>)
    ensures
        spec_field_models(fields).len() == fields.len(),
        forall|i: int|
            0 <= i < fields.len() ==> (#[trigger] spec_field_models(fields)[i]) == (
                fields[i].0@,
                fields[i].1.model(),
            ),
    decreases fields.len(),
{
    if fields.len() > 0 {
        lemma_field_models(fields.drop_last());
    }
}

pub proof fn lemma_array_view(items: Vec<Json>)
    ensures
        Json::Array(items)@ == JsonV::Array(items.deep_view()),
{
    lemma_models(items@);
    assert(spec_models(items@) =~= items.deep_view());
}

pub proof fn lemma_object_view(fields: Vec<(String, Json)>)
    ensures
        Json::Object(fields)@ == JsonV::Object(fields.deep_view()),
{
    lemma_field_models(fields@);
    assert(spec_field_models(fields@) =~= fields.deep_view());
}

// ---------------------------------------------------------------------------
// Reading
// ---------------------------------------------------------------------------

/// The value of the first field named `key`.
pub open spec fn spec_lookup(fields: Fields, key: Seq<char>) -> Option<JsonV>
    decreases fields.len(),
{
    if fields.len() == 0 {
        None
    } else if fields[0].0 == key {
        Some(fields[0].1)
    } else {
        spec_lookup(fields.drop_first(), key)
    }
}

impl JsonV {
    /// The member `key` of an object; `None` for a missing member and for
    /// anything that is no object.
    pub open spec fn get(self, key: Seq<char>) -> Option<JsonV> {
        match self {
            JsonV::Object(fields) => spec_lookup(fields, key),
            _ => None,
        }
    }

    /// The member `key`, or `Null` where `get` finds none.
    pub open spec fn member(self, key: Seq<char>) -> JsonV {
        match self.get(key) {
            Some(v) => v,
            None => JsonV::Null,
        }
    }

    pub open spec fn as_i64(self) -> Option<i64> {
        match self {
            JsonV::Int(i) => Some(i as i64),
            _ => None,
        }
    }

    pub open spec fn as_str(self) -> Option<Seq<char>> {
        match self {
            JsonV::Str(s) => Some(s),
            _ => None,
        }
    }

    pub open spec fn as_bool(self) -> Option<bool> {
        match self {
            JsonV::Bool(b) => Some(b),
            _ => None,
        }
    }

    pub open spec fn as_array(self) -> Option<Seq<JsonV>> {
        match self {
            JsonV::Array(items) => Some(items),
            _ => None,
        }
    }

    pub open spec fn as_object(self) -> Option<Fields> {
        match self {
            JsonV::Object(fields) => Some(fields),
            _ => None,
        }
    }
}

/// Integer member `key` of a field list.
pub open spec fn spec_field_i64(fields: Fields, key: Seq<char>) -> Option<i64> {
    match spec_lookup(fields, key) {
        Some(v) => v.as_i64(),
        None => None,
    }
}

/// String member `key` of a field list.
pub open spec fn spec_field_str(fields: Fields, key: Seq<char>) -> Option<Seq<char>> {
    match spec_lookup(fields, key) {
        Some(v) => v.as_str(),
        None => None,
    }
}

/// Boolean member `key` of a field list.
pub open spec fn spec_field_bool(fields: Fields, key: Seq<char>) -> Option<bool> {
    match spec_lookup(fields, key) {
        Some(v) => v.as_bool(),
        None => None,
    }
}

/// Member `key` of a field list, `Null` where it is missing.
pub open spec fn spec_field_or_null(fields: Fields, key: Seq<char>) -> JsonV {
    match spec_lookup(fields, key) {
        Some(v) => v,
        None => JsonV::Null,
    }
}

pub proof fn lemma_lookup_skip(fields: Fields, key: Seq<char>, i: int)
    requires
        0 <= i < fields.len(),
        forall|j: int| 0 <= j < i ==> (#[trigger] fields[j]).0 != key,
    ensures
        spec_lookup(fields, key) == spec_lookup(fields.skip(i), key),
        fields[i].0 == key ==> spec_lookup(fields, key) == Some(fields[i].1),
    decreases i,
{
    if i == 0 {
        assert(fields.skip(0) =~= fields);
    } else {
        let rest = fields.drop_first();
        lemma_lookup_skip(rest, key, i - 1);
        assert(rest.skip(i - 1) =~= fields.skip(i));
    }
}

pub proof fn lemma_lookup_none(fields: Fields, key: Seq<char>)
    requires
        forall|j: int| 0 <= j < fields.len() ==> (#[trigger] fields[j]).0 != key,
    ensures
        spec_lookup(fields, key).is_none(),
    decreases fields.len(),
{
    if fields.len() > 0 {
        let rest = fields.drop_first();
        lemma_lookup_none(rest, key);
    }
}

/// The first field named `key` in a field list.
pub fn lookup<'a>(fields: &'a Vec<(String, Json)>, key: &str) -> (r: Option<&'a Json>)
    ensures
        r.deep_view() == spec_lookup(fields.deep_view(), key@),
{
    let ghost fs = fields.deep_view();
    let mut i: usize = 0;
    while i < fields.len()
        invariant
            i <= fields.len(),
            fs == fields.deep_view(),
            forall|j: int| 0 <= j < i ==> (#[trigger] fs[j]).0 != key@,
        decreases fields.len() - i,
    {
        if str_eq(fields[i].0.as_str(), key) {
            proof {
                lemma_lookup_skip(fs, key@, i as int);
            }
            return Some(&fields[i].1);
        }
        i = i + 1;
    }
    proof {
        lemma_lookup_none(fs, key@);
    }
    None
}

pub fn field_i64(fields: &Vec<(String, Json)>, key: &str) -> (r: Option<i64>)
    ensures
        r == spec_field_i64(fields.deep_view(), key@),
{
    match lookup(fields, key) {
        Some(v) => v.as_i64(),
        None => None,
    }
}

pub fn field_str<'a>(fields: &'a Vec<(String, Json)>, key: &str) -> (r: Option<&'a str>)
    ensures
        r.deep_view() == spec_field_str(fields.deep_view(), key@),
{
    match lookup(fields, key) {
        Some(v) => v.as_str(),
        None => None,
    }
}

pub fn field_bool(fields: &Vec<(String, Json)>, key: &str) -> (r: Option<bool>)
    ensures
        r == spec_field_bool(fields.deep_view(), key@),
{
    match lookup(fields, key) {
        Some(v) => v.as_bool(),
        None => None,
    }
}

/// A copy of member `key`, `Null` where it is missing.
pub fn field_or_null(fields: &Vec<(String, Json)>, key: &str) -> (r: Json)
    ensures
        r@ == spec_field_or_null(fields.deep_view(), key@),
{
    match lookup(fields, key) {
        Some(v) => v.clone_json(),
        None => Json::Null,
    }
}

impl Json {
    pub fn get(&self, key: &str) -> (r: Option<&Json>)
        ensures
            r.deep_view() == self@.get(key@),
    {
        match self {
            Json::Object(fields) => {
                proof {
                    lemma_object_view(*fields);
                }
                lookup(fields, key)
            },
            _ => None,
        }
    }

    pub fn as_i64(&self) -> (r: Option<i64>)
        ensures
            r == self@.as_i64(),
    {
        match self {
            Json::Int(i) => Some(*i),
            _ => None,
        }
    }

    pub fn as_str(&self) -> (r: Option<&str>)
        ensures
            r.deep_view() == self@.as_str(),
    {
        match self {
            Json::Str(s) => Some(s.as_str()),
            _ => None,
        }
    }

    pub fn as_bool(&self) -> (r: Option<bool>)
        ensures
            r == self@.as_bool(),
    {
        match self {
            Json::Bool(b) => Some(*b),
            _ => None,
        }
    }

    pub fn as_array(&self) -> (r: Option<&Vec<Json>>)
        ensures
            r.deep_view() == self@.as_array(),
    {
        match self {
            Json::Array(items) => {
                proof {
                    lemma_array_view(*items);
                }
                Some(items)
            },
            _ => None,
        }
    }

    pub fn as_object(&self) -> (r: Option<&Vec<(String, Json)>>)
        ensures
            r.deep_view() == self@.as_object(),
    {
        match self {
            Json::Object(fields) => {
                proof {
                    lemma_object_view(*fields);
                }
                Some(fields)
            },
            _ => None,
        }
    }

    /// A copy of the document.
    #[verifier::loop_isolation(false)]
    pub fn clone_json(&self) -> (r: Json)
        ensures
            r@ == self@,
        decreases self,
    {
        match self {
            Json::Null => Json::Null,
            Json::Bool(b) => Json::Bool(*b),
            Json::Int(i) => Json::Int(*i),
            Json::Number(t) => Json::Number(t.clone()),
            Json::Str(s) => Json::Str(s.clone()),
            Json::Array(items) => {
                let mut out: Vec<Json> = Vec::new();
                let mut i: usize = 0;
                while i < items.len()
                    invariant
                        i <= items.len(),
                        out@.len() == i,
                        forall|j: int| 0 <= j < i ==> (#[trigger] out@[j])@ == items@[j]@,
                    decreases items.len() - i,
                {
                    let c = items[i].clone_json();
                    out.push(c);
                    i = i + 1;
                }
                proof {
                    lemma_array_view(out);
                    lemma_array_view(*items);
                    assert(out.deep_view() =~= items.deep_view());
                }
                Json::Array(out)
            },
            Json::Object(fields) => {
                let out = clone_fields(fields);
                proof {
                    lemma_object_view(out);
                    lemma_object_view(*fields);
                }
                Json::Object(out)
            },
        }
    }

    /// The string `s` as a document.
    pub fn string(s: &str) -> (r: Json)
        ensures
            r@ == JsonV::Str(s@),
    {
        Json::Str(String::from_str(s))
    }
}

/// A copy of a field list.
#[verifier::loop_isolation(false)]
pub fn clone_fields(fields: &Vec<(String, Json)>) -> (r: Vec<(String, Json)>)
    ensures
        r.deep_view() == fields.deep_view(),
    decreases fields,
{
    let mut out: Vec<(String, Json)> = Vec::new();
    let mut i: usize = 0;
    while i < fields.len()
        invariant
            i <= fields.len(),
            out@.len() == i,
            forall|j: int| 0 <= j < i ==> (#[trigger] out@[j]).deep_view() == fields@[j].deep_view(),
        decreases fields.len() - i,
    {
        let v = fields[i].1.clone_json();
        out.push((fields[i].0.clone(), v));
        i = i + 1;
    }
    out
}

pub fn clone_opt_fields(fields: &Option<Vec<(String, Json)>>) -> (r: Option<Vec<(String, Json)>>)
    ensures
        r.deep_view() == fields.deep_view(),
{
    match fields {
        Some(f) => Some(clone_fields(f)),
        None => None,
    }
}

// ---------------------------------------------------------------------------
// Writing
// ---------------------------------------------------------------------------

/// A field list without the fields named `key`.
pub open spec fn spec_remove(fields: Fields, key: Seq<char>) -> Fields
    decreases fields.len(),
{
    if fields.len() == 0 {
        Seq::empty()
    } else if fields[0].0 == key {
        spec_remove(fields.drop_first(), key)
    } else {
        seq![fields[0]] + spec_remove(fields.drop_first(), key)
    }
}

/// A field list in which `key` holds `value`: the first field of that name
/// is replaced where there is one, else the field is added at the end.
pub open spec fn spec_set(fields: Fields, key: Seq<char>, value: JsonV) -> Fields
    decreases fields.len(),
{
    if fields.len() == 0 {
        seq![(key, value)]
    } else if fields[0].0 == key {
        seq![(key, value)] + fields.drop_first()
    } else {
        seq![fields[0]] + spec_set(fields.drop_first(), key, value)
    }
}

/// After `spec_set`, `key` holds `value` and every other key holds what it held.
pub proof fn lemma_set_lookup(fields: Fields, key: Seq<char>, value: JsonV, other: Seq<char>)
    ensures
        spec_lookup(spec_set(fields, key, value), key) == Some(value),
        other != key ==> spec_lookup(spec_set(fields, key, value), other) == spec_lookup(fields, other),
    decreases fields.len(),
{
    let after = spec_set(fields, key, value);
    if fields.len() == 0 {
        assert(after.drop_first() =~= fields);
    } else if fields[0].0 == key {
        assert(after.drop_first() =~= fields.drop_first());
    } else {
        lemma_set_lookup(fields.drop_first(), key, value, other);
        assert(after.drop_first() =~= spec_set(fields.drop_first(), key, value));
    }
}

/// After `spec_remove`, `key` is missing and every other key holds what it held.
pub proof fn lemma_remove_lookup(fields: Fields, key: Seq<char>, other: Seq<char>)
    ensures
        spec_lookup(spec_remove(fields, key), key).is_none(),
        other != key ==> spec_lookup(spec_remove(fields, key), other) == spec_lookup(fields, other),
    decreases fields.len(),
{
    if fields.len() > 0 {
        let rest = fields.drop_first();
        lemma_remove_lookup(rest, key, other);
        if fields[0].0 != key {
            assert(spec_remove(fields, key).drop_first() =~= spec_remove(rest, key));
        }
    }
}

/// Sets `key` to `value` in a field list.
#[verifier::loop_isolation(false)]
pub fn set_field(fields: &mut Vec<(String, Json)>, key: &str, value: Json)
    ensures
        final(fields).deep_view() == spec_set(old(fields).deep_view(), key@, value@),
{
    let ghost before = fields.deep_view();
    let mut i: usize = 0;
    while i < fields.len()
        invariant
            i <= fields.len(),
            before == fields.deep_view(),
            forall|j: int| 0 <= j < i ==> (#[trigger] before[j]).0 != key@,
        decreases fields.len() - i,
    {
        if str_eq(fields[i].0.as_str(), key) {
            fields.set(i, (String::from_str(key), value));
            proof {
                lemma_set_at(before, key@, value@, i as int);
            }
            return ;
        }
        i = i + 1;
    }
    fields.push((String::from_str(key), value));
    proof {
        lemma_set_absent(before, key@, value@);
    }
}

proof fn lemma_set_at(fields: Fields, key: Seq<char>, value: JsonV, i: int)
    requires
        0 <= i < fields.len(),
        forall|j: int| 0 <= j < i ==> (#[trigger] fields[j]).0 != key,
        fields[i].0 == key,
    ensures
        spec_set(fields, key, value) == fields.update(i, (key, value)),
    decreases i,
{
    if i > 0 {
        lemma_set_at(fields.drop_first(), key, value, i - 1);
    }
}

proof fn lemma_set_absent(fields: Fields, key: Seq<char>, value: JsonV)
    requires
        forall|j: int| 0 <= j < fields.len() ==> (#[trigger] fields[j]).0 != key,
    ensures
        spec_set(fields, key, value) == fields.push((key, value)),
    decreases fields.len(),
{
    if fields.len() > 0 {
        lemma_set_absent(fields.drop_first(), key, value);
    }
}

/// A copy of a field list without the fields named `key`.
pub fn without_field(fields: &Vec<(String, Json)>, key: &str) -> (r: Vec<(String, Json)>)
    ensures
        r.deep_view() == spec_remove(fields.deep_view(), key@),
{
    let ghost fs = fields.deep_view();
    let mut out: Vec<(String, Json)> = Vec::new();
    let mut i: usize = 0;
    assert(fs.skip(0) =~= fs);
    while i < fields.len()
        invariant
            i <= fields.len(),
            fs == fields.deep_view(),
            out.deep_view() + spec_remove(fs.skip(i as int), key@) == spec_remove(fs, key@),
        decreases fields.len() - i,
    {
        let ghost before = out.deep_view();
        let ghost tail = fs.skip(i as int);
        proof {
            assert(tail.drop_first() =~= fs.skip(i + 1));
        }
        if !str_eq(fields[i].0.as_str(), key) {
            let v = fields[i].1.clone_json();
            out.push((fields[i].0.clone(), v));
            proof {
                assert(out.deep_view() + spec_remove(fs.skip(i + 1), key@) =~= before + spec_remove(
                    tail,
                    key@,
                ));
            }
        }
        i = i + 1;
    }
    out
}

// ---------------------------------------------------------------------------
// Text
// ---------------------------------------------------------------------------

/// The document that `serde_json` reads from a text, `None` where the text is
/// no JSON document. An object that names a key twice keeps the last value.
pub uninterp spec fn spec_parse(text: Seq<char>) -> Option<JsonV>;

/// The compact text that `serde_json` prints for a document, `None` where it
/// fails: a `Number` whose text is no JSON number cannot be printed.
pub uninterp spec fn spec_text(doc: JsonV) -> Option<Seq<char>>;

/// The indented text that `serde_json` prints for a document, `None` where it
/// fails as `spec_text` does.
pub uninterp spec fn spec_pretty_text(doc: JsonV) -> Option<Seq<char>>;

/// `serde_json::Value`, carried through as it is: nothing is known of what
/// is inside one.
#[verifier::external_type_specification]
#[verifier::external_body]
pub struct ExValue(Value);

/// A `serde_json::Value` as a `Json`, variant by variant; a number is an `Int`
/// where `Number::as_i64` has it, else its printed text.
#[verifier::external_body]
fn from_value(v: &Value) -> Json {
    match v {
        Value::Null => Json::Null,
        Value::Bool(b) => Json::Bool(*b),
        Value::Number(n) => match n.as_i64() {
            Some(i) => Json::Int(i),
            None => Json::Number(n.to_string()),
        },
        Value::String(s) => Json::Str(s.clone()),
        Value::Array(a) => Json::Array(a.iter().map(from_value).collect()),
        Value::Object(o) => Json::Object(o.iter().map(|(k, x)| (k.clone(), from_value(x))).collect()),
    }
}

/// A `Json` as a `serde_json::Value`, variant by variant, the first of two
/// fields of one name winning; `None` where a `Number` holds a text that
/// `serde_json` does not read as a number.
#[verifier::external_body]
fn to_value(j: &Json) -> Option<Value> {
    Some(match j {
        Json::Null => Value::Null,
        Json::Bool(b) => Value::Bool(*b),
        Json::Int(i) => Value::Number((*i).into()),
        Json::Number(t) => Value::Number(serde_json::from_str(t).ok()?),
        Json::Str(s) => Value::String(s.clone()),
        Json::Array(a) => Value::Array(a.iter().map(to_value).collect::<Option<_>>()?),
        Json::Object(o) => Value::Object(
            o.iter().rev().map(|(k, x)| Some((k.clone(), to_value(x)?))).collect::<Option<_>>()?,
        ),
    })
}

/// `serde_json::from_str`, read as a `serde_json::Value`: the result is the
/// text's `spec_parse`.
#[verifier::external_body]
fn read_text(text: &str) -> (r: Option<Json>)
    ensures
        r.deep_view() == spec_parse(text@),
{
    match serde_json::from_str::<Value>(text) {
        Ok(v) => Some(from_value(&v)),
        Err(_) => None,
    }
}

/// `serde_json::to_string`: the result is the document's `spec_text`.
#[verifier::external_body]
fn print_compact(doc: &Json) -> (r: Option<String>)
    ensures
        r.deep_view() == spec_text(doc@),
{
    match to_value(doc) {
        Some(v) => serde_json::to_string(&v).ok(),
        None => None,
    }
}

/// `serde_json::to_string_pretty`: the result is the document's
/// `spec_pretty_text`.
#[verifier::external_body]
fn print_pretty(doc: &Json) -> (r: Option<String>)
    ensures
        r.deep_view() == spec_pretty_text(doc@),
{
    match to_value(doc) {
        Some(v) => serde_json::to_string_pretty(&v).ok(),
        None => None,
    }
}

/// The document that a text holds, `None` where it holds none.
pub fn parse(text: &str) -> (r: Option<Json>)
    ensures
        r.deep_view() == spec_parse(text@),
{
    read_text(text)
}

/// The compact text of a document, `None` where it cannot be printed.
pub fn to_text(doc: &Json) -> (r: Option<String>)
    ensures
        r.deep_view() == spec_text(doc@),
{
    print_compact(doc)
}

/// The indented text of a document, `None` where it cannot be printed.
pub fn to_pretty_text(doc: &Json) -> (r: Option<String>)
    ensures
        r.deep_view() == spec_pretty_text(doc@),
{
    print_pretty(doc)
}

} // verus!
