//! The JSON value model that protocol frames are built from and decoded
//! into. `JsonValue` is the executable tree; `JsonV` is its mathematical
//! view. Turning frame text into a `JsonValue` and back is delegated to
//! `serde_json` behind trusted wrappers; everything structural above that
//! level is verified.
use vstd::prelude::*;

verus! {

broadcast use vstd::std_specs::vec::group_vec_axioms, vstd::seq::group_seq_axioms;

/// Mathematical view of a JSON document: integers are unbounded, strings
/// are character sequences, and object fields keep their order.
#[verifier::ext_equal]
pub enum JsonV {
    Null,
    Bool(bool),
    Int(int),
    Num(Seq<char>),
    Str(Seq<char>),
    Arr(Seq<JsonV>),
    Obj(Seq<(Seq<char>, JsonV)>),
}

/// A JSON document as plain data. Integers that fit `i64` or `u64` are
/// held exactly; any other number keeps its literal text in `Num`, which
/// only parsing introduces.
#[derive(Debug, PartialEq)]
pub enum JsonValue {
    Null,
    Bool(bool),
    Int(i64),
    UInt(u64),
    Num(String),
    Str(String),
    Arr(Vec<JsonValue>),
    Obj(Vec<(String, JsonValue)>),
}

/// The views of the elements of a JSON array.
pub open spec fn elems_view(xs: Vec<JsonValue>) -> Seq<JsonV>
    decreases xs,
{
    Seq::new(
        xs@.len(),
        |i: int|
            if 0 <= i < xs@.len() {
                xs@[i]@
            } else {
                JsonV::Null
            },
    )
}

/// The views of the fields of a JSON object, in order.
pub open spec fn fields_view(fs: Vec<(String, JsonValue)>) -> Seq<(Seq<char>, JsonV)>
    decreases fs,
{
    Seq::new(
        fs@.len(),
        |i: int|
            if 0 <= i < fs@.len() {
                (fs@[i].0@, fs@[i].1@)
            } else {
                (Seq::<char>::empty(), JsonV::Null)
            },
    )
}

impl View for JsonValue {
    type V = JsonV;

    open spec fn view(&self) -> JsonV
        decreases self,
    {
        match self {
            JsonValue::Null => JsonV::Null,
            JsonValue::Bool(b) => JsonV::Bool(*b),
            JsonValue::Int(i) => JsonV::Int(*i as int),
            JsonValue::UInt(u) => JsonV::Int(*u as int),
            JsonValue::Num(s) => JsonV::Num(s@),
            JsonValue::Str(s) => JsonV::Str(s@),
            JsonValue::Arr(xs) => JsonV::Arr(elems_view(*xs)),
            JsonValue::Obj(fs) => JsonV::Obj(fields_view(*fs)),
        }
    }
}

/// The value of the first field named `key` at position `i` or later, if
/// any.
pub open spec fn obj_lookup_from(fs: Seq<(Seq<char>, JsonV)>, key: Seq<char>, i: int) -> Option<
    JsonV,
>
    decreases fs.len() - i,
{
    if i < 0 || i >= fs.len() {
        None
    } else if fs[i].0 == key {
        Some(fs[i].1)
    } else {
        obj_lookup_from(fs, key, i + 1)
    }
}

/// The value of the first field named `key`, if any.
pub open spec fn obj_lookup(fs: Seq<(Seq<char>, JsonV)>, key: Seq<char>) -> Option<JsonV> {
    obj_lookup_from(fs, key, 0)
}

/// A lookup walks past a field with another name.
pub proof fn lemma_obj_lookup_step(fs: Seq<(Seq<char>, JsonV)>, key: Seq<char>, i: int)
    requires
        0 <= i < fs.len(),
        fs[i].0 != key,
    ensures
        obj_lookup_from(fs, key, i) == obj_lookup_from(fs, key, i + 1),
{
}

/// A lookup stops at the first field with the name it seeks.
pub proof fn lemma_obj_lookup_found(fs: Seq<(Seq<char>, JsonV)>, key: Seq<char>, i: int)
    requires
        0 <= i < fs.len(),
        fs[i].0 == key,
    ensures
        obj_lookup_from(fs, key, i) == Some(fs[i].1),
{
}

/// Look up `key` among the fields of a JSON object; the first match wins.
pub fn obj_get<'a>(fs: &'a Vec<(String, JsonValue)>, key: &str) -> (r: Option<&'a JsonValue>)
    ensures
        match r {
            Some(v) => obj_lookup(fields_view(*fs), key@) == Some(v@),
            None => obj_lookup(fields_view(*fs), key@) is None,
        },
{
    let ghost fv = fields_view(*fs);
    let n = fs.len();
    let mut i: usize = 0;
    while i < n
        invariant
            n == fs.len(),
            0 <= i <= n,
            fv == fields_view(*fs),
            fv.len() == n,
            obj_lookup(fv, key@) == obj_lookup_from(fv, key@, i as int),
        decreases n - i,
    {
        if crate::text::str_eq(fs[i].0.as_str(), key) {
            return Some(&fs[i].1);
        }
        i += 1;
    }
    None
}

/// Whether a JSON value can be rendered: raw-number nodes, which only
/// parsing introduces, are not accepted.
pub open spec fn renderable(v: JsonV) -> bool
    decreases v,
{
    match v {
        JsonV::Num(_) => false,
        JsonV::Arr(xs) => forall|i: int| 0 <= i < xs.len() ==> renderable(#[trigger] xs[i]),
        JsonV::Obj(fs) => forall|i: int| 0 <= i < fs.len() ==> renderable(#[trigger] fs[i].1),
        _ => true,
    }
}

/// `serde_json::Error`, declared opaquely so a parse failure can be
/// carried in the library's error types as its own diagnostic cause.
#[verifier::external_type_specification]
#[verifier::external_body]
pub struct ExSerdeJsonError(serde_json::Error);

/// `serde_json::Value`, declared opaquely; it appears only inside the
/// trusted conversion functions below.
#[verifier::external_type_specification]
#[verifier::external_body]
pub struct ExSerdeJsonValue(serde_json::Value);

/// `serde_json::Number`, declared opaquely; it appears only inside the
/// trusted conversion functions below.
#[verifier::external_type_specification]
#[verifier::external_body]
pub struct ExSerdeJsonNumber(serde_json::Number);

/// What `serde_json` makes of a piece of JSON text: the model of the value
/// it parses, or nothing where it reports an error. A fixed text always
/// parses the same way.
pub uninterp spec fn parsed_json(s: Seq<char>) -> Option<JsonV>;

/// What `serde_json` makes of a JSON byte frame; bytes are the UTF-8
/// encoding of the same text grammar.
pub uninterp spec fn parsed_json_bytes(bs: Seq<u8>) -> Option<JsonV>;

/// The text `serde_json` renders a value as. A fixed value always renders
/// the same way.
pub uninterp spec fn json_text(v: JsonV) -> Seq<char>;

/// Relies on `serde_json::from_str::<serde_json::Value>`: whether the text
/// is accepted, and the value it denotes, depend on the text alone.
#[verifier::external_body]
pub(crate) fn parse_json_text(s: &str) -> (r: Result<JsonValue, serde_json::Error>)
    ensures
        r matches Ok(v) ==> parsed_json(s@) == Some(v@),
        r is Ok <==> parsed_json(s@) is Some,
{
    serde_json::from_str::<serde_json::Value>(s).map(value_into)
}

/// Relies on `serde_json::from_slice::<serde_json::Value>`: whether the
/// bytes are accepted, and the value they denote, depend on the bytes
/// alone.
#[verifier::external_body]
pub(crate) fn parse_json_bytes(b: &[u8]) -> (r: Result<JsonValue, serde_json::Error>)
    ensures
        r matches Ok(v) ==> parsed_json_bytes(b@) == Some(v@),
        r is Ok <==> parsed_json_bytes(b@) is Some,
{
    serde_json::from_slice::<serde_json::Value>(b).map(value_into)
}

/// Conversion half of the two parse wrappers: rebuilds a parsed
/// `serde_json::Number` as the library's number shape.
#[verifier::external_body]
fn number_into(n: serde_json::Number) -> JsonValue {
    match (n.as_i64(), n.as_u64()) {
        (Some(i), _) => JsonValue::Int(i),
        (None, Some(u)) => JsonValue::UInt(u),
        (None, None) => JsonValue::Num(n.to_string()),
    }
}

/// Conversion half of the two parse wrappers: rebuilds a parsed
/// `serde_json::Value` as the library's value type, arm for arm.
#[verifier::external_body]
fn value_into(v: serde_json::Value) -> JsonValue {
    match v {
        serde_json::Value::Null => JsonValue::Null,
        serde_json::Value::Bool(b) => JsonValue::Bool(b),
        serde_json::Value::Number(n) => number_into(n),
        serde_json::Value::String(s) => JsonValue::Str(s),
        serde_json::Value::Array(xs) => JsonValue::Arr(xs.into_iter().map(value_into).collect()),
        serde_json::Value::Object(m) => JsonValue::Obj(
            m.into_iter().map(|(k, x)| (k, value_into(x))).collect(),
        ),
    }
}

/// Relies on `serde_json::to_string` on a rebuilt `serde_json::Value`: the
/// text depends on the value alone, and rendering a value without
/// raw-number nodes cannot fail.
#[verifier::external_body]
pub(crate) fn render_json(v: &JsonValue) -> (r: String)
    requires
        renderable(v@),
    ensures
        r@ == json_text(v@),
{
    match serde_json::to_string(&value_back(v)) {
        Ok(s) => s,
        Err(_) => String::new(),
    }
}

/// Conversion half of `render_json`: rebuilds a raw number literal as a
/// `serde_json::Number` value; only parsing produces raw literals, so
/// they re-parse.
#[verifier::external_body]
fn number_back(s: &str) -> serde_json::Value {
    match serde_json::from_str::<serde_json::Number>(s) {
        Ok(n) => serde_json::Value::Number(n),
        Err(_) => serde_json::Value::Null,
    }
}

/// Conversion half of `render_json`: rebuilds the library's value as a
/// `serde_json::Value`, arm for arm.
#[verifier::external_body]
fn value_back(v: &JsonValue) -> serde_json::Value {
    match v {
        JsonValue::Null => serde_json::Value::Null,
        JsonValue::Bool(b) => serde_json::Value::Bool(*b),
        JsonValue::Int(i) => serde_json::Value::from(*i),
        JsonValue::UInt(u) => serde_json::Value::from(*u),
        JsonValue::Num(s) => number_back(s.as_str()),
        JsonValue::Str(s) => serde_json::Value::String(s.clone()),
        JsonValue::Arr(xs) => serde_json::Value::Array(xs.iter().map(value_back).collect()),
        JsonValue::Obj(fs) => serde_json::Value::Object(
            fs.iter().map(|kv| (kv.0.clone(), value_back(&kv.1))).collect(),
        ),
    }
}

} // verus!
