use vstd::prelude::*;
use crate::text::str_eq;

verus! {

broadcast use {vstd::std_specs::vec::group_vec_axioms, vstd::seq::group_seq_axioms};

/// A parsed JSON document, held as plain values so that the schema rules
/// over it can be verified. A number that does not fit `i64` (a float or a
/// huge integer) is kept only as `NonInt`: no field of the report model
/// reads such a number, it can only make a typed field fail to decode.
pub enum JsonValue {
    Null,
    Bool { b: bool },
    Int { i: i64 },
    NonInt,
    Str { s: String },
    Arr { items: Vec<JsonValue> },
    Obj { fields: Vec<(String, JsonValue)> },
}

#[verifier::external_type_specification]
#[verifier::external_body]
pub struct ExValue(serde_json::Value);

/// The mathematical shape of a JSON value, with text as character
/// sequences and lists as sequences.
#[verifier::ext_equal]
pub enum JsonV {
    Null,
    Bool { b: bool },
    Int { i: i64 },
    NonInt,
    Str { s: Seq<char> },
    Arr { items: Seq<JsonV> },
    Obj { fields: Seq<(Seq<char>, JsonV)> },
}

/// The shape of a parsed value.
pub open spec fn jv_view(v: JsonValue) -> JsonV
    decreases v,
{
    match v {
        JsonValue::Null => JsonV::Null,
        JsonValue::Bool { b } => JsonV::Bool { b },
        JsonValue::Int { i } => JsonV::Int { i },
        JsonValue::NonInt => JsonV::NonInt,
        JsonValue::Str { s } => JsonV::Str { s: s@ },
        JsonValue::Arr { items } => JsonV::Arr {
            items: Seq::new(
                items@.len(),
                |k: int|
                    if 0 <= k < items@.len() {
                        jv_view(items@[k])
                    } else {
                        JsonV::Null
                    },
            ),
        },
        JsonValue::Obj { fields } => JsonV::Obj {
            fields: Seq::new(
                fields@.len(),
                |k: int|
                    if 0 <= k < fields@.len() {
                        (fields@[k].0@, jv_view(fields@[k].1))
                    } else {
                        (Seq::empty(), JsonV::Null)
                    },
            ),
        },
    }
}

impl JsonValue {
    /// A deep copy, of the same shape as the original.
    pub fn duplicate(&self) -> (r: JsonValue)
        ensures
            jv_view(r) == jv_view(*self),
        decreases *self,
    {
        match self {
            JsonValue::Null => JsonValue::Null,
            JsonValue::Bool { b } => JsonValue::Bool { b: *b },
            JsonValue::Int { i } => JsonValue::Int { i: *i },
            JsonValue::NonInt => JsonValue::NonInt,
            JsonValue::Str { s } => JsonValue::Str { s: s.clone() },
            JsonValue::Arr { items } => {
                let mut out: Vec<JsonValue> = Vec::new();
                let n: usize = items.len();
                let mut k: usize = 0;
                while k < n
                    invariant
                        *self == (JsonValue::Arr { items: *items }),
                        n == items@.len(),
                        k <= n,
                        out@.len() == k,
                        forall|j: int| 0 <= j < k ==> jv_view(out@[j]) == jv_view(items@[j]),
                    decreases n - k,
                {
                    proof {
                        assert(self->items == *items);
                        assert(decreases_to!(*self => self->items));
                        assert(decreases_to!(*items => items@[k as int]));
                    }
                    out.push(items[k].duplicate());
                    k += 1;
                }
                proof {
                    assert(jv_view(JsonValue::Arr { items: out })->items =~= jv_view(
                        *self,
                    )->items);
                }
                JsonValue::Arr { items: out }
            },
            JsonValue::Obj { fields } => {
                let mut out: Vec<(String, JsonValue)> = Vec::new();
                let n: usize = fields.len();
                let mut k: usize = 0;
                while k < n
                    invariant
                        *self == (JsonValue::Obj { fields: *fields }),
                        n == fields@.len(),
                        k <= n,
                        out@.len() == k,
                        forall|j: int|
                            0 <= j < k ==> out@[j].0@ == fields@[j].0@ && jv_view(out@[j].1)
                                == jv_view(fields@[j].1),
                    decreases n - k,
                {
                    proof {
                        assert(self->fields == *fields);
                        assert(decreases_to!(*self => self->fields));
                        assert(decreases_to!(*fields => fields@[k as int]));
                        assert(decreases_to!(fields@[k as int] => fields@[k as int].1));
                    }
                    let pair = &fields[k];
                    out.push((pair.0.clone(), pair.1.duplicate()));
                    k += 1;
                }
                proof {
                    assert(jv_view(JsonValue::Obj { fields: out })->fields =~= jv_view(
                        *self,
                    )->fields);
                }
                JsonValue::Obj { fields: out }
            },
        }
    }
}

/// The outcome of parsing the bytes as one JSON document: the document,
/// or the syntax diagnostic. Both depend on the bytes alone.
pub uninterp spec fn json_result(bytes: Seq<u8>) -> Result<JsonValue, Seq<char>>;

/// The document that the bytes parse to, if they are well-formed JSON.
pub open spec fn json_doc(bytes: Seq<u8>) -> Option<JsonValue> {
    match json_result(bytes) {
        Ok(v) => Some(v),
        Err(_) => None,
    }
}

/// Relies on serde_json::from_slice::<serde_json::Value>: parses one JSON
/// document from the bytes, or reports a syntax diagnostic. Whether and to
/// what the bytes parse, and the diagnostic when they do not, depend on
/// the bytes alone.
#[verifier::external_body]
pub fn json_parse(bytes: &Vec<u8>) -> (r: Result<JsonValue, String>)
    ensures
        r is Ok <==> json_result(bytes@) is Ok,
        r matches Ok(v) ==> json_result(bytes@) matches Ok(w) && w == v,
        r matches Err(d) ==> json_result(bytes@) matches Err(e) && e == d@,
{
    match serde_json::from_slice::<serde_json::Value>(bytes) {
        Ok(v) => Ok(json_convert(&v)),
        Err(e) => Err(e.to_string()),
    }
}

/// Helper of `json_parse`'s body: carries a serde_json::Value over into the
/// library's own tree, one arm per variant, moving values only.
#[verifier::external_body]
fn json_convert(v: &serde_json::Value) -> JsonValue {
    match v {
        serde_json::Value::Null => JsonValue::Null,
        serde_json::Value::Bool(b) => JsonValue::Bool { b: *b },
        serde_json::Value::Number(n) => match n.as_i64() {
            Some(i) => JsonValue::Int { i },
            None => JsonValue::NonInt,
        },
        serde_json::Value::String(s) => JsonValue::Str { s: s.clone() },
        serde_json::Value::Array(a) => JsonValue::Arr {
            items: a.iter().map(json_convert).collect(),
        },
        serde_json::Value::Object(m) => JsonValue::Obj {
            fields: m.iter().map(|(k, val)| (k.clone(), json_convert(val))).collect(),
        },
    }
}

/// The value under `key`, taking the first binding with that name.
pub open spec fn s_lookup(fields: Seq<(String, JsonValue)>, key: Seq<char>) -> Option<JsonValue>
    decreases fields.len(),
{
    if fields.len() == 0 {
        None
    } else if fields[0].0@ == key {
        Some(fields[0].1)
    } else {
        s_lookup(fields.drop_first(), key)
    }
}

proof fn lemma_s_lookup_step(fields: Seq<(String, JsonValue)>, key: Seq<char>, i: int)
    requires
        0 <= i < fields.len(),
        fields[i].0@ != key,
    ensures
        s_lookup(fields.skip(i), key) == s_lookup(fields.skip(i + 1), key),
{
    assert(fields.skip(i)[0] == fields[i]);
    assert(fields.skip(i).drop_first() =~= fields.skip(i + 1));
}

/// Finds the first field named `key`.
pub fn lookup<'a>(fields: &'a Vec<(String, JsonValue)>, key: &str) -> (r: Option<&'a JsonValue>)
    ensures
        match r {
            Some(v) => s_lookup(fields@, key@) == Some(*v),
            None => s_lookup(fields@, key@) is None,
        },
{
    let n: usize = fields.len();
    let mut i: usize = 0;
    proof {
        assert(fields@.skip(0) =~= fields@);
    }
    while i < n
        invariant
            n == fields@.len(),
            i <= n,
            s_lookup(fields@, key@) == s_lookup(fields@.skip(i as int), key@),
        decreases n - i,
    {
        let pair = &fields[i];
        if str_eq(pair.0.as_str(), key) {
            proof {
                assert(fields@.skip(i as int)[0] == fields@[i as int]);
            }
            return Some(&fields[i].1);
        }
        proof {
            lemma_s_lookup_step(fields@, key@, i as int);
        }
        i += 1;
    }
    proof {
        assert(fields@.skip(n as int) =~= Seq::<(String, JsonValue)>::empty());
    }
    None
}

/// A string field decodes when absent (to empty) or a JSON string.
pub open spec fn ok_str(fields: Seq<(String, JsonValue)>, key: Seq<char>) -> bool {
    match s_lookup(fields, key) {
        None => true,
        Some(v) => v is Str,
    }
}

pub open spec fn v_str(fields: Seq<(String, JsonValue)>, key: Seq<char>) -> Seq<char> {
    match s_lookup(fields, key) {
        Some(JsonValue::Str { s }) => s@,
        _ => Seq::empty(),
    }
}

pub fn get_str(fields: &Vec<(String, JsonValue)>, key: &str) -> (r: Result<String, ()>)
    ensures
        r is Ok <==> ok_str(fields@, key@),
        r matches Ok(s) ==> s@ == v_str(fields@, key@),
{
    match lookup(fields, key) {
        None => Ok(String::new()),
        Some(v) => match v {
            JsonValue::Str { s } => Ok(s.clone()),
            _ => Err(()),
        },
    }
}

/// An integer field decodes when absent (to zero) or a JSON integer.
pub open spec fn ok_i64(fields: Seq<(String, JsonValue)>, key: Seq<char>) -> bool {
    match s_lookup(fields, key) {
        None => true,
        Some(v) => v is Int,
    }
}

pub open spec fn v_i64(fields: Seq<(String, JsonValue)>, key: Seq<char>) -> i64 {
    match s_lookup(fields, key) {
        Some(JsonValue::Int { i }) => i,
        _ => 0,
    }
}

pub fn get_i64(fields: &Vec<(String, JsonValue)>, key: &str) -> (r: Result<i64, ()>)
    ensures
        r is Ok <==> ok_i64(fields@, key@),
        r matches Ok(n) ==> n == v_i64(fields@, key@),
{
    match lookup(fields, key) {
        None => Ok(0),
        Some(v) => match v {
            JsonValue::Int { i } => Ok(*i),
            _ => Err(()),
        },
    }
}

/// A boolean field decodes when absent (to false) or a JSON boolean.
pub open spec fn ok_bool(fields: Seq<(String, JsonValue)>, key: Seq<char>) -> bool {
    match s_lookup(fields, key) {
        None => true,
        Some(v) => v is Bool,
    }
}

pub open spec fn v_bool(fields: Seq<(String, JsonValue)>, key: Seq<char>) -> bool {
    match s_lookup(fields, key) {
        Some(JsonValue::Bool { b }) => b,
        _ => false,
    }
}

pub fn get_bool(fields: &Vec<(String, JsonValue)>, key: &str) -> (r: Result<bool, ()>)
    ensures
        r is Ok <==> ok_bool(fields@, key@),
        r matches Ok(b) ==> b == v_bool(fields@, key@),
{
    match lookup(fields, key) {
        None => Ok(false),
        Some(v) => match v {
            JsonValue::Bool { b } => Ok(*b),
            _ => Err(()),
        },
    }
}

/// An optional string: absent or null is nothing, a string is itself.
pub open spec fn ok_opt_str(fields: Seq<(String, JsonValue)>, key: Seq<char>) -> bool {
    match s_lookup(fields, key) {
        None => true,
        Some(v) => v is Str || v is Null,
    }
}

pub open spec fn v_opt_str(fields: Seq<(String, JsonValue)>, key: Seq<char>) -> Option<Seq<char>> {
    match s_lookup(fields, key) {
        Some(JsonValue::Str { s }) => Some(s@),
        _ => None,
    }
}

pub fn get_opt_str(fields: &Vec<(String, JsonValue)>, key: &str) -> (r: Result<
    Option<String>,
    (),
>)
    ensures
        r is Ok <==> ok_opt_str(fields@, key@),
        r matches Ok(Some(s)) ==> v_opt_str(fields@, key@) == Some(s@),
        r matches Ok(None) ==> v_opt_str(fields@, key@) is None,
{
    match lookup(fields, key) {
        None => Ok(None),
        Some(v) => match v {
            JsonValue::Str { s } => Ok(Some(s.clone())),
            JsonValue::Null => Ok(None),
            _ => Err(()),
        },
    }
}

/// An optional integer: absent or null is nothing, an integer is itself.
pub open spec fn ok_opt_i64(fields: Seq<(String, JsonValue)>, key: Seq<char>) -> bool {
    match s_lookup(fields, key) {
        None => true,
        Some(v) => v is Int || v is Null,
    }
}

pub open spec fn v_opt_i64(fields: Seq<(String, JsonValue)>, key: Seq<char>) -> Option<i64> {
    match s_lookup(fields, key) {
        Some(JsonValue::Int { i }) => Some(i),
        _ => None,
    }
}

pub fn get_opt_i64(fields: &Vec<(String, JsonValue)>, key: &str) -> (r: Result<Option<i64>, ()>)
    ensures
        r is Ok <==> ok_opt_i64(fields@, key@),
        r matches Ok(Some(n)) ==> v_opt_i64(fields@, key@) == Some(n),
        r matches Ok(None) ==> v_opt_i64(fields@, key@) is None,
{
    match lookup(fields, key) {
        None => Ok(None),
        Some(v) => match v {
            JsonValue::Int { i } => Ok(Some(*i)),
            JsonValue::Null => Ok(None),
            _ => Err(()),
        },
    }
}

/// An optional boolean: absent or null is nothing, a boolean is itself.
pub open spec fn ok_opt_bool(fields: Seq<(String, JsonValue)>, key: Seq<char>) -> bool {
    match s_lookup(fields, key) {
        None => true,
        Some(v) => v is Bool || v is Null,
    }
}

pub open spec fn v_opt_bool(fields: Seq<(String, JsonValue)>, key: Seq<char>) -> Option<bool> {
    match s_lookup(fields, key) {
        Some(JsonValue::Bool { b }) => Some(b),
        _ => None,
    }
}

pub fn get_opt_bool(fields: &Vec<(String, JsonValue)>, key: &str) -> (r: Result<Option<bool>, ()>)
    ensures
        r is Ok <==> ok_opt_bool(fields@, key@),
        r matches Ok(Some(b)) ==> v_opt_bool(fields@, key@) == Some(b),
        r matches Ok(None) ==> v_opt_bool(fields@, key@) is None,
{
    match lookup(fields, key) {
        None => Ok(None),
        Some(v) => match v {
            JsonValue::Bool { b } => Ok(Some(*b)),
            JsonValue::Null => Ok(None),
            _ => Err(()),
        },
    }
}

/// An array-valued field: absent is the empty sequence.
pub open spec fn ok_arr(fields: Seq<(String, JsonValue)>, key: Seq<char>) -> bool {
    match s_lookup(fields, key) {
        None => true,
        Some(v) => v is Arr,
    }
}

pub open spec fn v_arr(fields: Seq<(String, JsonValue)>, key: Seq<char>) -> Seq<JsonValue> {
    match s_lookup(fields, key) {
        Some(JsonValue::Arr { items }) => items@,
        _ => Seq::empty(),
    }
}

pub fn get_arr<'a>(fields: &'a Vec<(String, JsonValue)>, key: &str) -> (r: Result<
    Option<&'a Vec<JsonValue>>,
    (),
>)
    ensures
        r is Ok <==> ok_arr(fields@, key@),
        r matches Ok(Some(a)) ==> a@ == v_arr(fields@, key@),
        r matches Ok(None) ==> v_arr(fields@, key@) == Seq::<JsonValue>::empty(),
{
    match lookup(fields, key) {
        None => Ok(None),
        Some(v) => match v {
            JsonValue::Arr { items } => Ok(Some(items)),
            _ => Err(()),
        },
    }
}

/// An object-valued field: absent is the empty field list.
pub open spec fn ok_obj(fields: Seq<(String, JsonValue)>, key: Seq<char>) -> bool {
    match s_lookup(fields, key) {
        None => true,
        Some(v) => v is Obj,
    }
}

pub open spec fn v_obj(fields: Seq<(String, JsonValue)>, key: Seq<char>) -> Seq<
    (String, JsonValue),
> {
    match s_lookup(fields, key) {
        Some(JsonValue::Obj { fields: f }) => f@,
        _ => Seq::empty(),
    }
}

pub fn get_obj<'a>(fields: &'a Vec<(String, JsonValue)>, key: &str) -> (r: Result<
    Option<&'a Vec<(String, JsonValue)>>,
    (),
>)
    ensures
        r is Ok <==> ok_obj(fields@, key@),
        r matches Ok(Some(f)) ==> f@ == v_obj(fields@, key@) && s_lookup(fields@, key@) is Some,
        r matches Ok(None) ==> s_lookup(fields@, key@) is None && v_obj(fields@, key@)
            == Seq::<(String, JsonValue)>::empty(),
{
    match lookup(fields, key) {
        None => Ok(None),
        Some(v) => match v {
            JsonValue::Obj { fields: f } => Ok(Some(f)),
            _ => Err(()),
        },
    }
}

/// Absence of a field never fails the tolerant decode, and the field then
/// takes its documented default: the empty string, zero, false, nothing,
/// or the empty sequence.
pub proof fn lemma_absent_field_defaults(fields: Seq<(String, JsonValue)>, key: Seq<char>)
    requires
        s_lookup(fields, key) is None,
    ensures
        ok_str(fields, key) && v_str(fields, key) == Seq::<char>::empty(),
        ok_i64(fields, key) && v_i64(fields, key) == 0,
        ok_bool(fields, key) && v_bool(fields, key) == false,
        ok_opt_str(fields, key) && v_opt_str(fields, key) is None,
        ok_opt_i64(fields, key) && v_opt_i64(fields, key) is None,
        ok_opt_bool(fields, key) && v_opt_bool(fields, key) is None,
        ok_arr(fields, key) && v_arr(fields, key) == Seq::<JsonValue>::empty(),
        ok_obj(fields, key) && v_obj(fields, key) == Seq::<(String, JsonValue)>::empty(),
{
}

} // verus!
