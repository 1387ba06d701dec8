//! The library's model of parsed JSON, and typed field accessors over it.
//!
//! The remote API answers every request with a JSON document. Parsing the
//! raw text is delegated to an outside parser behind [`parse_json`]; every
//! decision about the parsed tree (field lookup, type checks, numeric range
//! checks) is made here, in verified code, over [`JsonValue`].

use vstd::prelude::*;

verus! {

/// A JSON number as this library models it.
///
/// `Int` holds any integer in `i64` range, `UInt` an integer above `i64`
/// range, and `Dec` any other (non-integral) number, kept as its decimal
/// text. The three cases are disjoint by construction when a value comes
/// from [`parse_json`].
#[derive(Debug, Clone, PartialEq)]
pub enum JsonNumber {
    Int(i64),
    UInt(u64),
    Dec(String),
}

/// Mathematical model of a [`JsonNumber`].
pub enum JsonNumberView {
    Int(i64),
    UInt(u64),
    Dec(Seq<char>),
}

impl View for JsonNumber {
    type V = JsonNumberView;

    open spec fn view(&self) -> JsonNumberView {
        match self {
            JsonNumber::Int(i) => JsonNumberView::Int(*i),
            JsonNumber::UInt(u) => JsonNumberView::UInt(*u),
            JsonNumber::Dec(s) => JsonNumberView::Dec(s@),
        }
    }
}

impl JsonNumber {
    /// An equal copy of this number.
    pub fn dup(&self) -> (r: JsonNumber)
        ensures
            r == *self,
    {
        match self {
            JsonNumber::Int(i) => JsonNumber::Int(*i),
            JsonNumber::UInt(u) => JsonNumber::UInt(*u),
            JsonNumber::Dec(s) => JsonNumber::Dec(s.clone()),
        }
    }
}

/// A parsed JSON document or fragment.
///
/// Objects are held as a sequence of key/value entries; a lookup takes the
/// first entry with a matching key.
#[derive(Debug, PartialEq)]
pub enum JsonValue {
    Null,
    Bool(bool),
    Number(JsonNumber),
    Str(String),
    Arr(Vec<JsonValue>),
    Obj(Vec<(String, JsonValue)>),
}

/// First value under `key` in an entry sequence, if any.
pub open spec fn s_entries_get(es: Seq<(String, JsonValue)>, key: Seq<char>) -> Option<JsonValue>
    decreases es.len(),
{
    if es.len() == 0 {
        None
    } else if es[0].0@ == key {
        Some(es[0].1)
    } else {
        s_entries_get(es.drop_first(), key)
    }
}

/// The value under `key` when `v` is an object that has that key.
pub open spec fn s_get(v: JsonValue, key: Seq<char>) -> Option<JsonValue> {
    match v {
        JsonValue::Obj(es) => s_entries_get(es@, key),
        _ => None,
    }
}

/// Numeric value as a `u64`, when it is an integer in range.
pub open spec fn num_as_u64(n: JsonNumber) -> Option<u64> {
    match n {
        JsonNumber::Int(i) => if i >= 0 {
            Some(i as u64)
        } else {
            None
        },
        JsonNumber::UInt(u) => Some(u),
        JsonNumber::Dec(_) => None,
    }
}

/// Numeric value as a `u32`, when it is an integer in range.
pub open spec fn num_as_u32(n: JsonNumber) -> Option<u32> {
    match num_as_u64(n) {
        Some(u) => if u <= u32::MAX {
            Some(u as u32)
        } else {
            None
        },
        None => None,
    }
}

/// Numeric value as an `i32`, when it is an integer in range.
pub open spec fn num_as_i32(n: JsonNumber) -> Option<i32> {
    match n {
        JsonNumber::Int(i) => if i32::MIN <= i <= i32::MAX {
            Some(i as i32)
        } else {
            None
        },
        JsonNumber::UInt(_) => None,
        JsonNumber::Dec(_) => None,
    }
}

/// Required string field: present and a string.
pub open spec fn s_str(v: JsonValue, key: Seq<char>) -> Option<Seq<char>> {
    match s_get(v, key) {
        Some(JsonValue::Str(s)) => Some(s@),
        _ => None,
    }
}

/// Required boolean field: present and a boolean.
pub open spec fn s_bool(v: JsonValue, key: Seq<char>) -> Option<bool> {
    match s_get(v, key) {
        Some(JsonValue::Bool(b)) => Some(b),
        _ => None,
    }
}

/// Required numeric field, as any JSON number.
pub open spec fn s_num(v: JsonValue, key: Seq<char>) -> Option<JsonNumberView> {
    match s_get(v, key) {
        Some(JsonValue::Number(n)) => Some(n@),
        _ => None,
    }
}

/// Required `u32` field: present, integral, in range.
pub open spec fn s_u32(v: JsonValue, key: Seq<char>) -> Option<u32> {
    match s_get(v, key) {
        Some(JsonValue::Number(n)) => num_as_u32(n),
        _ => None,
    }
}

/// Required `u64` field: present, integral, in range.
pub open spec fn s_u64(v: JsonValue, key: Seq<char>) -> Option<u64> {
    match s_get(v, key) {
        Some(JsonValue::Number(n)) => num_as_u64(n),
        _ => None,
    }
}

/// Optional string field: `None` when absent; fails on a non-string,
/// non-null value. The outer `Option` is decode success.
pub open spec fn s_opt_str(v: JsonValue, key: Seq<char>) -> Option<Option<Seq<char>>> {
    match s_get(v, key) {
        None => Some(None),
        Some(JsonValue::Null) => Some(None),
        Some(JsonValue::Str(s)) => Some(Some(s@)),
        Some(_) => None,
    }
}

/// Optional `u32` field: `None` when absent; fails on a value of the
/// wrong type or out of range.
pub open spec fn s_opt_u32(v: JsonValue, key: Seq<char>) -> Option<Option<u32>> {
    match s_get(v, key) {
        None => Some(None),
        Some(JsonValue::Null) => Some(None),
        Some(JsonValue::Number(n)) => match num_as_u32(n) {
            Some(u) => Some(Some(u)),
            None => None,
        },
        Some(_) => None,
    }
}

/// Optional `i32` field: `None` when absent; fails on a value of the
/// wrong type or out of range.
pub open spec fn s_opt_i32(v: JsonValue, key: Seq<char>) -> Option<Option<i32>> {
    match s_get(v, key) {
        None => Some(None),
        Some(JsonValue::Null) => Some(None),
        Some(JsonValue::Number(n)) => match num_as_i32(n) {
            Some(i) => Some(Some(i)),
            None => None,
        },
        Some(_) => None,
    }
}

/// Optional boolean field: `None` when absent; fails on a non-boolean,
/// non-null value.
pub open spec fn s_opt_bool(v: JsonValue, key: Seq<char>) -> Option<Option<bool>> {
    match s_get(v, key) {
        None => Some(None),
        Some(JsonValue::Null) => Some(None),
        Some(JsonValue::Bool(b)) => Some(Some(b)),
        Some(_) => None,
    }
}

/// String field defaulting to the empty string when absent.
pub open spec fn s_def_str(v: JsonValue, key: Seq<char>) -> Option<Seq<char>> {
    match s_get(v, key) {
        None => Some(Seq::empty()),
        Some(JsonValue::Str(s)) => Some(s@),
        Some(_) => None,
    }
}

/// `u32` field defaulting to zero when absent.
pub open spec fn s_def_u32(v: JsonValue, key: Seq<char>) -> Option<u32> {
    match s_get(v, key) {
        None => Some(0),
        Some(JsonValue::Number(n)) => num_as_u32(n),
        _ => None,
    }
}

/// Boolean field defaulting to false when absent.
pub open spec fn s_def_bool(v: JsonValue, key: Seq<char>) -> Option<bool> {
    match s_get(v, key) {
        None => Some(false),
        Some(JsonValue::Bool(b)) => Some(b),
        _ => None,
    }
}

/// View of an `Option` of a viewable type.
pub open spec fn opt_view<T: View>(o: Option<T>) -> Option<T::V> {
    match o {
        Some(x) => Some(x@),
        None => None,
    }
}

/// A successful lookup returns one of the object's own entries, so the
/// value found is structurally below the object it came from.
pub proof fn lemma_entries_get_witness(es: Seq<(String, JsonValue)>, key: Seq<char>)
    requires
        s_entries_get(es, key) is Some,
    ensures
        exists|i: int| 0 <= i < es.len() && es[i].1 == s_entries_get(es, key)->0,
    decreases es.len(),
{
    if es.len() > 0 {
        if es[0].0@ == key {
            assert(es[0].1 == s_entries_get(es, key)->0);
        } else {
            lemma_entries_get_witness(es.drop_first(), key);
            let j = choose|j: int|
                0 <= j < es.drop_first().len() && es.drop_first()[j].1 == s_entries_get(
                    es.drop_first(),
                    key,
                )->0;
            assert(es[j + 1].1 == s_entries_get(es, key)->0);
        }
    }
}

/// The value a lookup finds is smaller than the object it was found in,
/// in the structural order that `decreases` measures use.
pub proof fn lemma_s_get_smaller(v: JsonValue, key: Seq<char>)
    ensures
        s_get(v, key) matches Some(u) ==> decreases_to!(v => u),
{
    if s_get(v, key) is Some {
        let u = s_get(v, key)->0;
        match v {
            JsonValue::Obj(entries) => {
                lemma_entries_get_witness(entries@, key);
                let i = choose|i: int| 0 <= i < entries@.len() && entries@[i].1 == u;
                assert(decreases_to!(v => entries));
                assert(decreases_to!(entries => entries@));
                assert(decreases_to!(entries@ => entries@[i]));
                assert(decreases_to!(entries@[i] => entries@[i].1));
                assert(decreases_to!(v => u));
            },
            _ => {
                assert(false);
            },
        }
    }
}

/// Looks up `key` in `v` when `v` is an object, returning a reference to
/// the first matching entry's value.
pub fn get_entry<'a>(v: &'a JsonValue, key: &str) -> (r: Option<&'a JsonValue>)
    ensures
        r matches Some(f) ==> s_get(*v, key@) == Some(*f),
        r is None ==> s_get(*v, key@) is None,
{
    match v {
        JsonValue::Obj(entries) => {
            let k: String = key.to_owned();
            let n = entries.len();
            let mut i: usize = 0;
            proof {
                assert(entries@.skip(0) =~= entries@);
            }
            while i < n
                invariant
                    n == entries@.len(),
                    0 <= i <= n,
                    k@ == key@,
                    s_get(*v, key@) == s_entries_get(entries@, key@),
                    s_entries_get(entries@, key@) == s_entries_get(
                        entries@.skip(i as int),
                        key@,
                    ),
                decreases n - i,
            {
                assert(entries@.skip(i as int)[0] == entries@[i as int]);
                if entries[i].0 == k {
                    proof {
                        assert(s_entries_get(entries@.skip(i as int), key@) == Some(
                            entries@[i as int].1,
                        ));
                    }
                    return Some(&entries[i].1);
                }
                proof {
                    assert(entries@.skip(i as int).drop_first() =~= entries@.skip(i + 1));
                }
                i = i + 1;
            }
            assert(entries@.skip(n as int).len() == 0);
            None
        },
        _ => None,
    }
}

/// Numeric value as a `u32`, when it is an integer in range.
pub fn num_to_u32(n: &JsonNumber) -> (r: Option<u32>)
    ensures
        r == num_as_u32(*n),
{
    match n {
        JsonNumber::Int(i) => if 0 <= *i && *i <= u32::MAX as i64 {
            Some(*i as u32)
        } else {
            None
        },
        JsonNumber::UInt(u) => if *u <= u32::MAX as u64 {
            Some(*u as u32)
        } else {
            None
        },
        JsonNumber::Dec(_) => None,
    }
}

/// Numeric value as a `u64`, when it is an integer in range.
pub fn num_to_u64(n: &JsonNumber) -> (r: Option<u64>)
    ensures
        r == num_as_u64(*n),
{
    match n {
        JsonNumber::Int(i) => if 0 <= *i {
            Some(*i as u64)
        } else {
            None
        },
        JsonNumber::UInt(u) => Some(*u),
        JsonNumber::Dec(_) => None,
    }
}

/// Numeric value as an `i32`, when it is an integer in range.
pub fn num_to_i32(n: &JsonNumber) -> (r: Option<i32>)
    ensures
        r == num_as_i32(*n),
{
    match n {
        JsonNumber::Int(i) => if i32::MIN as i64 <= *i && *i <= i32::MAX as i64 {
            Some(*i as i32)
        } else {
            None
        },
        JsonNumber::UInt(_) => None,
        JsonNumber::Dec(_) => None,
    }
}

/// Required string field of an object.
pub fn get_str(v: &JsonValue, key: &str) -> (r: Option<String>)
    ensures
        opt_view(r) == s_str(*v, key@),
{
    match get_entry(v, key) {
        Some(f) => match f {
            JsonValue::Str(s) => Some(s.clone()),
            _ => None,
        },
        None => None,
    }
}

/// Required boolean field of an object.
pub fn get_bool(v: &JsonValue, key: &str) -> (r: Option<bool>)
    ensures
        r == s_bool(*v, key@),
{
    match get_entry(v, key) {
        Some(f) => match f {
            JsonValue::Bool(b) => Some(*b),
            _ => None,
        },
        None => None,
    }
}

/// Required numeric field of an object, as any JSON number.
pub fn get_num(v: &JsonValue, key: &str) -> (r: Option<JsonNumber>)
    ensures
        opt_view(r) == s_num(*v, key@),
{
    match get_entry(v, key) {
        Some(f) => match f {
            JsonValue::Number(n) => Some(n.dup()),
            _ => None,
        },
        None => None,
    }
}

/// Required `u32` field of an object.
pub fn get_u32(v: &JsonValue, key: &str) -> (r: Option<u32>)
    ensures
        r == s_u32(*v, key@),
{
    match get_entry(v, key) {
        Some(f) => match f {
            JsonValue::Number(n) => num_to_u32(n),
            _ => None,
        },
        None => None,
    }
}

/// Required `u64` field of an object.
pub fn get_u64(v: &JsonValue, key: &str) -> (r: Option<u64>)
    ensures
        r == s_u64(*v, key@),
{
    match get_entry(v, key) {
        Some(f) => match f {
            JsonValue::Number(n) => num_to_u64(n),
            _ => None,
        },
        None => None,
    }
}

/// Optional string field of an object.
pub fn get_opt_str(v: &JsonValue, key: &str) -> (r: Option<Option<String>>)
    ensures
        r matches Some(o) ==> s_opt_str(*v, key@) == Some(opt_view(o)),
        r is None ==> s_opt_str(*v, key@) is None,
{
    match get_entry(v, key) {
        None => Some(None),
        Some(f) => match f {
            JsonValue::Null => Some(None),
            JsonValue::Str(s) => Some(Some(s.clone())),
            _ => None,
        },
    }
}

/// Optional `u32` field of an object.
pub fn get_opt_u32(v: &JsonValue, key: &str) -> (r: Option<Option<u32>>)
    ensures
        r == s_opt_u32(*v, key@),
{
    match get_entry(v, key) {
        None => Some(None),
        Some(f) => match f {
            JsonValue::Null => Some(None),
            JsonValue::Number(n) => match num_to_u32(n) {
                Some(u) => Some(Some(u)),
                None => None,
            },
            _ => None,
        },
    }
}

/// Optional `i32` field of an object.
pub fn get_opt_i32(v: &JsonValue, key: &str) -> (r: Option<Option<i32>>)
    ensures
        r == s_opt_i32(*v, key@),
{
    match get_entry(v, key) {
        None => Some(None),
        Some(f) => match f {
            JsonValue::Null => Some(None),
            JsonValue::Number(n) => match num_to_i32(n) {
                Some(i) => Some(Some(i)),
                None => None,
            },
            _ => None,
        },
    }
}

/// Optional boolean field of an object.
pub fn get_opt_bool(v: &JsonValue, key: &str) -> (r: Option<Option<bool>>)
    ensures
        r == s_opt_bool(*v, key@),
{
    match get_entry(v, key) {
        None => Some(None),
        Some(f) => match f {
            JsonValue::Null => Some(None),
            JsonValue::Bool(b) => Some(Some(*b)),
            _ => None,
        },
    }
}

/// String field of an object, defaulting to the empty string when absent.
pub fn get_def_str(v: &JsonValue, key: &str) -> (r: Option<String>)
    ensures
        opt_view(r) == s_def_str(*v, key@),
{
    match get_entry(v, key) {
        None => Some(String::new()),
        Some(f) => match f {
            JsonValue::Str(s) => Some(s.clone()),
            _ => None,
        },
    }
}

/// `u32` field of an object, defaulting to zero when absent.
pub fn get_def_u32(v: &JsonValue, key: &str) -> (r: Option<u32>)
    ensures
        r == s_def_u32(*v, key@),
{
    match get_entry(v, key) {
        None => Some(0),
        Some(f) => match f {
            JsonValue::Number(n) => num_to_u32(n),
            _ => None,
        },
    }
}

/// Boolean field of an object, defaulting to false when absent.
pub fn get_def_bool(v: &JsonValue, key: &str) -> (r: Option<bool>)
    ensures
        r == s_def_bool(*v, key@),
{
    match get_entry(v, key) {
        None => Some(false),
        Some(f) => match f {
            JsonValue::Bool(b) => Some(*b),
            _ => None,
        },
    }
}

#[verifier::external_type_specification]
#[verifier::external_body]
pub struct ExValue(serde_json::Value);

#[verifier::external_type_specification]
#[verifier::external_body]
pub struct ExNumber(serde_json::Number);

#[verifier::external_type_specification]
#[verifier::external_body]
#[verifier::reject_recursive_types(K)]
#[verifier::reject_recursive_types(V)]
pub struct ExMap<K, V>(serde_json::Map<K, V>);

/// What parsing a JSON text yields: `None` when the text is not valid
/// JSON, otherwise the parsed tree. The result depends on the text alone.
pub uninterp spec fn parsed_json(text: Seq<char>) -> Option<JsonValue>;

/// Relies on serde_json::Number::{as_i64, as_u64, to_string}: classifies
/// the parsed number as an in-range integer, a large positive integer, or
/// other (kept as decimal text), moving the value over unchanged.
#[verifier::external_body]
fn convert_number(n: &serde_json::Number) -> JsonNumber {
    if let Some(i) = n.as_i64() {
        JsonNumber::Int(i)
    } else if let Some(u) = n.as_u64() {
        JsonNumber::UInt(u)
    } else {
        JsonNumber::Dec(n.to_string())
    }
}

/// Relies on serde_json::Value: converts each element of a parsed array,
/// in order.
#[verifier::external_body]
fn convert_array(a: &Vec<serde_json::Value>) -> Vec<JsonValue> {
    let mut out = Vec::new();
    for x in a {
        out.push(convert_value(x));
    }
    out
}

/// Relies on serde_json::Map::iter: converts each entry of a parsed
/// object, in the order the parser holds them.
#[verifier::external_body]
fn convert_object(o: &serde_json::Map<String, serde_json::Value>) -> Vec<(String, JsonValue)> {
    let mut out = Vec::new();
    for (k, x) in o.iter() {
        out.push((k.clone(), convert_value(x)));
    }
    out
}

/// Relies on serde_json::Value: maps the parsed tree one-for-one onto
/// [`JsonValue`], one arm per variant.
#[verifier::external_body]
fn convert_value(v: &serde_json::Value) -> JsonValue {
    match v {
        serde_json::Value::Null => JsonValue::Null,
        serde_json::Value::Bool(b) => JsonValue::Bool(*b),
        serde_json::Value::Number(n) => JsonValue::Number(convert_number(n)),
        serde_json::Value::String(s) => JsonValue::Str(s.clone()),
        serde_json::Value::Array(a) => JsonValue::Arr(convert_array(a)),
        serde_json::Value::Object(o) => JsonValue::Obj(convert_object(o)),
    }
}

/// Relies on serde_json::from_str::<serde_json::Value>: parses JSON text
/// into a tree of values. The parse is deterministic, a function of the
/// text alone; it fails on texts that are not valid JSON, and on
/// documents beyond the parser's nesting limit.
#[verifier::external_body]
pub(crate) fn parse_json(text: &str) -> (r: Option<JsonValue>)
    ensures
        r == parsed_json(text@),
{
    match serde_json::from_str::<serde_json::Value>(text) {
        Ok(v) => Some(convert_value(&v)),
        Err(_) => None,
    }
}

} // verus!
