//! The JSON tree that upstream responses are decoded from, and the helpers
//! that read typed, optional fields out of a JSON object.

use vstd::prelude::*;
use vstd::string::StringExecFns;

verus! {

broadcast use vstd::std_specs::vec::group_vec_axioms;

/// A JSON value. Numbers that fit an unsigned 64-bit integer are kept exactly;
/// any other number (negative, fractional) is remembered only as a number,
/// since no record field here reads one.
#[derive(Debug, PartialEq)]
pub enum Json {
    Null,
    Bool(bool),
    UInt(u64),
    NumOther,
    Str(String),
    Arr(Vec<Json>),
    Obj(Vec<(String, Json)>),
}

/// The mathematical model of a `Json` value.
pub enum JsonView {
    Null,
    Bool(bool),
    UInt(u64),
    NumOther,
    Str(Seq<char>),
    Arr(Seq<JsonView>),
    Obj(Seq<(Seq<char>, JsonView)>),
}

/// The view of a sequence of JSON values, element by element.
pub open spec fn json_seq_view(items: Seq<Json>) -> Seq<JsonView>
    decreases items,
{
    if items.len() == 0 {
        Seq::empty()
    } else {
        seq![json_view(items[0])] + json_seq_view(items.drop_first())
    }
}

/// The view of an object's field list, entry by entry.
pub open spec fn json_fields_view(fields: Seq<(String, Json)>) -> Seq<(Seq<char>, JsonView)>
    decreases fields,
{
    if fields.len() == 0 {
        Seq::empty()
    } else {
        seq![(fields[0].0@, json_view(fields[0].1))] + json_fields_view(fields.drop_first())
    }
}

/// The model of a JSON value.
pub open spec fn json_view(j: Json) -> JsonView
    decreases j,
{
    match j {
        Json::Null => JsonView::Null,
        Json::Bool(b) => JsonView::Bool(b),
        Json::UInt(n) => JsonView::UInt(n),
        Json::NumOther => JsonView::NumOther,
        Json::Str(s) => JsonView::Str(s@),
        Json::Arr(items) => JsonView::Arr(json_seq_view(items@)),
        Json::Obj(fields) => JsonView::Obj(json_fields_view(fields@)),
    }
}

impl DeepView for Json {
    type V = JsonView;

    open spec fn deep_view(&self) -> JsonView {
        json_view(*self)
    }
}

/// A sequence view is taken pointwise.
pub broadcast proof fn lemma_json_seq_view(items: Seq<Json>)
    ensures
        (#[trigger] json_seq_view(items)).len() == items.len(),
        forall|i: int| 0 <= i < items.len() ==> json_seq_view(items)[i] == json_view(items[i]),
    decreases items,
{
    if items.len() > 0 {
        lemma_json_seq_view(items.drop_first());
    }
}

/// A field-list view is taken pointwise.
pub broadcast proof fn lemma_json_fields_view(fields: Seq<(String, Json)>)
    ensures
        (#[trigger] json_fields_view(fields)).len() == fields.len(),
        forall|i: int| 0 <= i < fields.len() ==> json_fields_view(fields)[i] == (
        fields[i].0@,
        json_view(fields[i].1),
        ),
    decreases fields,
{
    if fields.len() > 0 {
        lemma_json_fields_view(fields.drop_first());
    }
}

#[verifier::external_type_specification]
#[verifier::external_body]
pub struct ExSerdeValue(serde_json::Value);

/// The JSON tree that serde_json parses a text to, if it parses at all,
/// stated in the model of `JsonView`. The parse is a function of the
/// characters alone.
pub uninterp spec fn text_json(s: Seq<char>) -> Option<JsonView>;

/// The model of what a `serde_json::Value` holds.
pub uninterp spec fn value_json(v: serde_json::Value) -> JsonView;

/// The diagnostic serde_json gives for a text it rejects. Like the parse
/// itself, it depends on the characters alone.
pub uninterp spec fn parse_diag(s: Seq<char>) -> Seq<char>;

/// Relies on serde_json::from_str::<serde_json::Value>, which parses a text
/// into a JSON tree or rejects it, and on its error's Display for the
/// diagnostic: both depend on the text alone.
#[verifier::external_body]
fn from_str_value(s: &str) -> (r: Result<serde_json::Value, String>)
    ensures
        r matches Ok(v) ==> text_json(s@) == Some(value_json(v)),
        r matches Err(m) ==> text_json(s@) is None && m@ == parse_diag(s@),
{
    serde_json::from_str(s).map_err(|e| e.to_string())
}

/// Relies on serde_json::Value being a finite tree of the six JSON variants:
/// each variant is moved one-for-one to the matching `Json` variant, numbers
/// through `Number::as_u64`.
#[verifier::external_body]
fn json_of_value(v: &serde_json::Value) -> (r: Json)
    ensures
        r.deep_view() == value_json(*v),
{
    match v {
        serde_json::Value::Null => Json::Null,
        serde_json::Value::Bool(b) => Json::Bool(*b),
        serde_json::Value::Number(n) => match n.as_u64() {
            Some(u) => Json::UInt(u),
            None => Json::NumOther,
        },
        serde_json::Value::String(s) => Json::Str(s.clone()),
        serde_json::Value::Array(a) => Json::Arr(a.iter().map(json_of_value).collect()),
        serde_json::Value::Object(m) => Json::Obj(
            m.iter().map(|(k, x)| (k.clone(), json_of_value(x))).collect(),
        ),
    }
}

/// Parses a text as JSON. The result is `Ok` exactly when serde_json accepts
/// the text, and then holds the parsed tree; on `Err` the message is the
/// parse diagnostic.
pub fn parse_json(s: &str) -> (r: Result<Json, String>)
    ensures
        r matches Ok(j) ==> text_json(s@) == Some(j.deep_view()),
        r matches Err(m) ==> text_json(s@) is None && m@ == parse_diag(s@),
{
    match from_str_value(s) {
        Ok(v) => Ok(json_of_value(&v)),
        Err(m) => Err(m),
    }
}

/// The value under `key` in an object's field list: the first binding wins.
pub open spec fn lookup_field(fields: Seq<(Seq<char>, JsonView)>, key: Seq<char>) -> Option<
    JsonView,
>
    decreases fields.len(),
{
    if fields.len() == 0 {
        None
    } else if fields[0].0 == key {
        Some(fields[0].1)
    } else {
        lookup_field(fields.drop_first(), key)
    }
}

/// The field list of an object; an empty list for any other value.
pub open spec fn obj_fields(j: JsonView) -> Seq<(Seq<char>, JsonView)> {
    match j {
        JsonView::Obj(fields) => fields,
        _ => Seq::empty(),
    }
}

/// Looks a key up in an object's field list.
pub fn get_field<'a>(fields: &'a Vec<(String, Json)>, key: &str) -> (r: Option<&'a Json>)
    ensures
        match r {
            Some(j) => lookup_field(fields.deep_view(), key@) == Some(j.deep_view()),
            None => lookup_field(fields.deep_view(), key@) is None,
        },
{
    let needle: String = key.to_owned();
    let ghost all = fields.deep_view();
    proof {
        assert(all.skip(0) =~= all);
    }
    let mut i: usize = 0;
    while i < fields.len()
        invariant
            0 <= i <= fields.len(),
            all == fields.deep_view(),
            needle@ == key@,
            lookup_field(all.skip(i as int), key@) == lookup_field(all, key@),
        decreases fields.len() - i,
    {
        proof {
            assert(all.skip(i as int)[0] == all[i as int]);
        }
        if fields[i].0 == needle {
            return Some(&fields[i].1);
        }
        proof {
            assert(all.skip(i as int).drop_first() =~= all.skip(i as int + 1));
        }
        i += 1;
    }
    proof {
        assert(all.skip(fields.len() as int) =~= Seq::<(Seq<char>, JsonView)>::empty());
    }
    None
}

/// The diagnostic text for a field whose value has an unexpected type.
pub open spec fn field_error_text(key: Seq<char>) -> Seq<char> {
    "unexpected type for field `"@ + key + "`"@
}

/// The diagnostic for a field whose value has an unexpected type.
pub(crate) fn field_error(key: &str) -> (r: String)
    ensures
        r@ == field_error_text(key@),
{
    let mut m = String::from_str("unexpected type for field `");
    m.append(key);
    m.append("`");
    proof {
        assert(m@ =~= field_error_text(key@));
    }
    m
}

/// The diagnostic text for a value that should be a JSON object and is not.
pub open spec fn not_object_text() -> Seq<char> {
    "expected a JSON object"@
}

/// The diagnostic for a value that should be a JSON object and is not.
pub(crate) fn not_object_error() -> (r: String)
    ensures
        r@ == not_object_text(),
{
    String::from_str("expected a JSON object")
}

/// Reads a required array field out of an object's field list: a missing or
/// null value is a shape error.
pub fn get_req_arr<'a>(fields: &'a Vec<(String, Json)>, key: &str) -> (r: Result<
    &'a Vec<Json>,
    String,
>)
    ensures
        r matches Ok(items) ==> lookup_field(fields.deep_view(), key@) == Some(
            JsonView::Arr(items.deep_view()),
        ),
        r matches Err(m) ==> !(lookup_field(fields.deep_view(), key@) matches Some(
            JsonView::Arr(_),
        )) && m@ == field_error_text(key@),
{
    match get_field(fields, key) {
        Some(Json::Arr(items)) => {
            proof {
                lemma_json_seq_view(items@);
                assert(json_seq_view(items@) =~= items.deep_view());
            }
            Ok(items)
        },
        _ => Err(field_error(key)),
    }
}

/// An optional unsigned field is absent, null, or an unsigned number that
/// fits 32 bits.
pub open spec fn ok_opt_u32(fields: Seq<(Seq<char>, JsonView)>, key: Seq<char>) -> bool {
    match lookup_field(fields, key) {
        None => true,
        Some(JsonView::Null) => true,
        Some(JsonView::UInt(n)) => n <= u32::MAX,
        Some(_) => false,
    }
}

/// The number an optional unsigned field holds, if any.
pub open spec fn val_opt_u32(fields: Seq<(Seq<char>, JsonView)>, key: Seq<char>) -> Option<u32> {
    match lookup_field(fields, key) {
        Some(JsonView::UInt(n)) => Some(n as u32),
        _ => None,
    }
}

/// Reads an optional unsigned field out of an object's field list.
pub fn get_opt_u32(fields: &Vec<(String, Json)>, key: &str) -> (r: Result<Option<u32>, String>)
    ensures
        r matches Ok(v) ==> ok_opt_u32(fields.deep_view(), key@) && v == val_opt_u32(
            fields.deep_view(),
            key@,
        ),
        r matches Err(m) ==> !ok_opt_u32(fields.deep_view(), key@) && m@ == field_error_text(
            key@,
        ),
{
    match get_field(fields, key) {
        None => Ok(None),
        Some(Json::Null) => Ok(None),
        Some(Json::UInt(n)) => {
            if *n <= u32::MAX as u64 {
                Ok(Some(*n as u32))
            } else {
                Err(field_error(key))
            }
        },
        Some(_) => Err(field_error(key)),
    }
}

/// An optional string field is absent, null, or a string.
pub open spec fn ok_opt_string(fields: Seq<(Seq<char>, JsonView)>, key: Seq<char>) -> bool {
    match lookup_field(fields, key) {
        None => true,
        Some(JsonView::Null) => true,
        Some(JsonView::Str(_)) => true,
        Some(_) => false,
    }
}

/// The text an optional string field holds, if any.
pub open spec fn val_opt_string(fields: Seq<(Seq<char>, JsonView)>, key: Seq<char>) -> Option<
    Seq<char>,
> {
    match lookup_field(fields, key) {
        Some(JsonView::Str(s)) => Some(s),
        _ => None,
    }
}

/// Reads an optional string field out of an object's field list.
pub fn get_opt_string(fields: &Vec<(String, Json)>, key: &str) -> (r: Result<
    Option<String>,
    String,
>)
    ensures
        r matches Ok(v) ==> ok_opt_string(fields.deep_view(), key@) && v.deep_view()
            == val_opt_string(fields.deep_view(), key@),
        r matches Err(m) ==> !ok_opt_string(fields.deep_view(), key@) && m@ == field_error_text(
            key@,
        ),
{
    match get_field(fields, key) {
        None => Ok(None),
        Some(Json::Null) => Ok(None),
        Some(Json::Str(s)) => Ok(Some(s.clone())),
        Some(_) => Err(field_error(key)),
    }
}

/// A required string field is present and a string.
pub open spec fn ok_req_string(fields: Seq<(Seq<char>, JsonView)>, key: Seq<char>) -> bool {
    lookup_field(fields, key) matches Some(JsonView::Str(_))
}

/// The text a required string field holds.
pub open spec fn val_req_string(fields: Seq<(Seq<char>, JsonView)>, key: Seq<char>) -> Seq<char> {
    match lookup_field(fields, key) {
        Some(JsonView::Str(s)) => s,
        _ => Seq::empty(),
    }
}

/// Reads a required string field out of an object's field list: a missing or
/// null value is a shape error.
pub fn get_req_string(fields: &Vec<(String, Json)>, key: &str) -> (r: Result<String, String>)
    ensures
        r matches Ok(v) ==> ok_req_string(fields.deep_view(), key@) && v@ == val_req_string(
            fields.deep_view(),
            key@,
        ),
        r matches Err(m) ==> !ok_req_string(fields.deep_view(), key@) && m@ == field_error_text(
            key@,
        ),
{
    match get_field(fields, key) {
        Some(Json::Str(s)) => Ok(s.clone()),
        _ => Err(field_error(key)),
    }
}

/// An optional array field is absent, null, or an array; what its elements
/// must look like is the caller's affair.
pub open spec fn ok_opt_arr(fields: Seq<(Seq<char>, JsonView)>, key: Seq<char>) -> bool {
    match lookup_field(fields, key) {
        None => true,
        Some(JsonView::Null) => true,
        Some(JsonView::Arr(_)) => true,
        Some(_) => false,
    }
}

/// The elements an optional array field holds, if any.
pub open spec fn val_opt_arr(fields: Seq<(Seq<char>, JsonView)>, key: Seq<char>) -> Option<
    Seq<JsonView>,
> {
    match lookup_field(fields, key) {
        Some(JsonView::Arr(items)) => Some(items),
        _ => None,
    }
}

/// Reads an optional array field out of an object's field list.
pub fn get_opt_arr<'a>(fields: &'a Vec<(String, Json)>, key: &str) -> (r: Result<
    Option<&'a Vec<Json>>,
    String,
>)
    ensures
        r matches Ok(v) ==> ok_opt_arr(fields.deep_view(), key@) && match v {
            Some(items) => val_opt_arr(fields.deep_view(), key@) == Some(items.deep_view()),
            None => val_opt_arr(fields.deep_view(), key@) is None,
        },
        r matches Err(m) ==> !ok_opt_arr(fields.deep_view(), key@) && m@ == field_error_text(
            key@,
        ),
{
    match get_field(fields, key) {
        None => Ok(None),
        Some(Json::Null) => Ok(None),
        Some(Json::Arr(items)) => {
            proof {
                lemma_json_seq_view(items@);
                assert(json_seq_view(items@) =~= items.deep_view());
            }
            Ok(Some(items))
        },
        Some(_) => Err(field_error(key)),
    }
}

/// Every element of a string array is a string.
pub open spec fn str_items_ok(items: Seq<JsonView>) -> bool {
    forall|i: int| 0 <= i < items.len() ==> items[i] is Str
}

/// The texts a string array holds.
pub open spec fn str_items_val(items: Seq<JsonView>) -> Seq<Seq<char>> {
    Seq::new(items.len(), |i: int| items[i]->Str_0)
}

/// An optional string-array field is absent, null, or an array of strings.
pub open spec fn ok_opt_str_arr(fields: Seq<(Seq<char>, JsonView)>, key: Seq<char>) -> bool {
    match lookup_field(fields, key) {
        None => true,
        Some(JsonView::Null) => true,
        Some(JsonView::Arr(items)) => str_items_ok(items),
        Some(_) => false,
    }
}

/// The texts an optional string-array field holds, if any.
pub open spec fn val_opt_str_arr(fields: Seq<(Seq<char>, JsonView)>, key: Seq<char>) -> Option<
    Seq<Seq<char>>,
> {
    match lookup_field(fields, key) {
        Some(JsonView::Arr(items)) => Some(str_items_val(items)),
        _ => None,
    }
}

/// Reads an optional string-array field out of an object's field list.
#[verifier::loop_isolation(false)]
pub fn get_opt_str_arr(fields: &Vec<(String, Json)>, key: &str) -> (r: Result<
    Option<Vec<String>>,
    String,
>)
    ensures
        r matches Ok(v) ==> ok_opt_str_arr(fields.deep_view(), key@) && v.deep_view()
            == val_opt_str_arr(fields.deep_view(), key@),
        r matches Err(m) ==> !ok_opt_str_arr(fields.deep_view(), key@) && m@ == field_error_text(
            key@,
        ),
{
    let items = match get_opt_arr(fields, key) {
        Ok(None) => return Ok(None),
        Ok(Some(items)) => items,
        Err(m) => return Err(m),
    };
    let ghost iv = items.deep_view();
    let mut out: Vec<String> = Vec::new();
    let mut i: usize = 0;
    while i < items.len()
        invariant
            0 <= i <= items.len(),
            iv == items.deep_view(),
            iv.len() == items@.len(),
            out.len() == i,
            forall|k: int| 0 <= k < i ==> (#[trigger] iv[k]) is Str,
            forall|k: int| 0 <= k < i ==> out.deep_view()[k] == iv[k]->Str_0,
        decreases items.len() - i,
    {
        match &items[i] {
            Json::Str(s) => {
                let sc = s.clone();
                let ghost prev = out.deep_view();
                out.push(sc);
                proof {
                    assert(forall|k: int|
                        0 <= k < i ==> #[trigger] out.deep_view()[k] == prev[k]);
                    assert(iv[i as int] == items@[i as int].deep_view());
                    assert(out.deep_view()[i as int] == iv[i as int]->Str_0);
                }
            },
            _ => {
                proof {
                    assert(iv[i as int] == items@[i as int].deep_view());
                    assert(!(iv[i as int] is Str));
                    assert(!str_items_ok(iv));
                }
                return Err(field_error(key));
            },
        }
        i += 1;
    }
    proof {
        assert(out.deep_view() =~= str_items_val(iv));
    }
    Ok(Some(out))
}

} // verus!
