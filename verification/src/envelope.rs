//! The `data`-envelope decoder.
//!
//! The remote API wraps every list-valued field in an object with a single
//! `data` key holding the actual array. This module strips that envelope
//! and decodes the array's elements into a caller-chosen record type, in
//! input order. Two policies exist, both used by the API's records: the
//! lenient decoder skips elements that fail to decode, the strict decoder
//! fails the whole decode on the first such element.

use vstd::prelude::*;

use crate::DecodeError;
use crate::json::{JsonValue, s_get, get_entry};

verus! {

/// A record type that can be decoded from one JSON value.
pub trait FromJson: View + Sized {
    /// The decode of `v`, when it succeeds, as the record's mathematical
    /// model.
    spec fn spec_from_json(v: JsonValue) -> Option<Self::V>;

    /// Decodes `v`, succeeding exactly when [`Self::spec_from_json`] does.
    fn from_json(v: &JsonValue) -> (r: Option<Self>)
        ensures
            r matches Some(x) ==> Self::spec_from_json(*v) == Some(x@),
            r is None ==> Self::spec_from_json(*v) is None,
    ;
}

/// A bare JSON string decodes to a `String`.
impl FromJson for String {
    open spec fn spec_from_json(v: JsonValue) -> Option<Seq<char>> {
        match v {
            JsonValue::Str(s) => Some(s@),
            _ => None,
        }
    }

    fn from_json(v: &JsonValue) -> (r: Option<String>) {
        match v {
            JsonValue::Str(s) => Some(s.clone()),
            _ => None,
        }
    }
}

/// Views of a sequence of records.
pub open spec fn views_of<T: View>(s: Seq<T>) -> Seq<T::V> {
    s.map_values(|x: T| x@)
}

/// The element decode, as a function value.
pub open spec fn from_json_fn<T: FromJson>() -> spec_fn(JsonValue) -> Option<T::V> {
    |e: JsonValue| T::spec_from_json(e)
}

/// Whether an element decodes successfully, as a predicate value.
pub open spec fn decodes_fn<T: FromJson>() -> spec_fn(JsonValue) -> bool {
    |e: JsonValue| T::spec_from_json(e) is Some
}

/// Lenient decode of an element sequence: each element that decodes
/// contributes its decode, in input order; the others are skipped.
pub open spec fn spec_decode_lenient<T: FromJson>(es: Seq<JsonValue>) -> Seq<T::V> {
    es.filter_map(from_json_fn::<T>())
}

/// Whether every element of the sequence decodes.
pub open spec fn all_elems_decode<T: FromJson>(es: Seq<JsonValue>) -> bool {
    forall|i: int| 0 <= i < es.len() ==> T::spec_from_json(#[trigger] es[i]) is Some
}

/// Strict decode of an element sequence: every element's decode, in input
/// order. Meaningful when [`all_elems_decode`] holds.
pub open spec fn spec_decode_strict<T: FromJson>(es: Seq<JsonValue>) -> Seq<T::V> {
    es.map_values(|e: JsonValue| T::spec_from_json(e)->0)
}

/// The element sequence under a `data` envelope, when `v` is an object
/// whose `data` field is an array.
pub open spec fn s_data_elems(v: JsonValue) -> Option<Seq<JsonValue>> {
    match s_get(v, "data"@) {
        Some(JsonValue::Arr(a)) => Some(a@),
        _ => None,
    }
}

/// The element sequence of a bare JSON array.
pub open spec fn s_arr_elems(v: JsonValue) -> Option<Seq<JsonValue>> {
    match v {
        JsonValue::Arr(a) => Some(a@),
        _ => None,
    }
}

/// The element sequence when the field under `key` is a bare JSON array.
pub open spec fn s_field_arr(v: JsonValue, key: Seq<char>) -> Option<Seq<JsonValue>> {
    match s_get(v, key) {
        Some(f) => s_arr_elems(f),
        None => None,
    }
}

/// The element sequence when the field under `key` is a `data` envelope.
pub open spec fn s_field_envelope(v: JsonValue, key: Seq<char>) -> Option<Seq<JsonValue>> {
    match s_get(v, key) {
        Some(f) => s_data_elems(f),
        None => None,
    }
}

/// Decoding is deterministic: two successful decodes of the same JSON
/// value are structurally equal records.
pub proof fn lemma_decode_deterministic<T: FromJson>(v: JsonValue, a: T, b: T)
    requires
        T::spec_from_json(v) == Some(a@),
        T::spec_from_json(v) == Some(b@),
    ensures
        a@ == b@,
{
}

/// When every element decodes, the lenient and the strict decode agree:
/// one decoded record per input element, in input order.
pub proof fn lemma_decode_all_ok<T: FromJson>(es: Seq<JsonValue>)
    requires
        all_elems_decode::<T>(es),
    ensures
        spec_decode_lenient::<T>(es) == spec_decode_strict::<T>(es),
        spec_decode_lenient::<T>(es).len() == es.len(),
        forall|i: int|
            0 <= i < es.len() ==> spec_decode_lenient::<T>(es)[i] == T::spec_from_json(
                #[trigger] es[i],
            )->0,
    decreases es.len(),
{
    if es.len() == 0 {
        assert(spec_decode_lenient::<T>(es) =~= spec_decode_strict::<T>(es));
    } else {
        let rest = es.drop_last();
        assert(all_elems_decode::<T>(rest)) by {
            assert(forall|i: int| 0 <= i < rest.len() ==> rest[i] == es[i]);
        }
        lemma_decode_all_ok::<T>(rest);
        assert(T::spec_from_json(es.last()) is Some);
        assert(spec_decode_lenient::<T>(es) == spec_decode_lenient::<T>(rest) + seq![
            T::spec_from_json(es.last())->0,
        ]);
        assert(spec_decode_lenient::<T>(es) =~= spec_decode_strict::<T>(es));
    }
}

/// The lenient decode is exactly the strict decode of the sub-sequence of
/// elements that decode, kept in input order: failing elements are
/// skipped, nothing else changes.
pub proof fn lemma_lenient_skips_failures<T: FromJson>(es: Seq<JsonValue>)
    ensures
        spec_decode_lenient::<T>(es) == spec_decode_strict::<T>(es.filter(decodes_fn::<T>())),
    decreases es.len(),
{
    reveal(Seq::filter);
    if es.len() == 0 {
        assert(spec_decode_lenient::<T>(es) =~= spec_decode_strict::<T>(
            es.filter(decodes_fn::<T>()),
        ));
    } else {
        let rest = es.drop_last();
        lemma_lenient_skips_failures::<T>(rest);
        let kept = rest.filter(decodes_fn::<T>());
        if T::spec_from_json(es.last()) is Some {
            assert(es.filter(decodes_fn::<T>()) == kept.push(es.last()));
            assert(spec_decode_strict::<T>(kept.push(es.last())) =~= spec_decode_strict::<T>(kept)
                + seq![T::spec_from_json(es.last())->0]);
            assert(spec_decode_lenient::<T>(es) =~= spec_decode_strict::<T>(
                es.filter(decodes_fn::<T>()),
            ));
        } else {
            assert(es.filter(decodes_fn::<T>()) == kept);
            assert(spec_decode_lenient::<T>(es) =~= spec_decode_strict::<T>(
                es.filter(decodes_fn::<T>()),
            ));
        }
    }
}

/// Lenient decode of an element vector.
fn decode_elems_lenient<T: FromJson>(items: &Vec<JsonValue>) -> (r: Vec<T>)
    ensures
        views_of(r@) == spec_decode_lenient::<T>(items@),
{
    let mut out: Vec<T> = Vec::new();
    let n = items.len();
    let mut i: usize = 0;
    proof {
        assert(views_of(out@) =~= spec_decode_lenient::<T>(items@.take(0)));
    }
    while i < n
        invariant
            0 <= i <= n,
            n == items@.len(),
            views_of(out@) == spec_decode_lenient::<T>(items@.take(i as int)),
        decreases n - i,
    {
        let ghost prev = out@;
        match T::from_json(&items[i]) {
            Some(x) => {
                out.push(x);
                proof {
                    assert(views_of(out@) =~= views_of(prev) + seq![x@]);
                }
            },
            None => {},
        }
        proof {
            items@.lemma_filter_map_take_succ(from_json_fn::<T>(), i as int);
            assert(views_of(out@) =~= spec_decode_lenient::<T>(items@.take(i + 1)));
        }
        i = i + 1;
    }
    proof {
        assert(items@.take(n as int) =~= items@);
    }
    out
}

/// Strict decode of an element vector: `None` as soon as one element
/// fails to decode.
fn decode_elems_strict<T: FromJson>(items: &Vec<JsonValue>) -> (r: Option<Vec<T>>)
    ensures
        r matches Some(ds) ==> all_elems_decode::<T>(items@) && views_of(ds@)
            == spec_decode_strict::<T>(items@),
        r is None ==> !all_elems_decode::<T>(items@),
{
    let mut out: Vec<T> = Vec::new();
    let n = items.len();
    let mut i: usize = 0;
    while i < n
        invariant
            0 <= i <= n,
            n == items@.len(),
            out@.len() == i,
            forall|j: int| 0 <= j < i ==> T::spec_from_json(#[trigger] items@[j]) is Some,
            forall|j: int|
                0 <= j < i ==> views_of(out@)[j] == T::spec_from_json(#[trigger] items@[j])->0,
        decreases n - i,
    {
        let ghost prev = out@;
        match T::from_json(&items[i]) {
            Some(x) => {
                out.push(x);
                proof {
                    assert(views_of(out@) =~= views_of(prev) + seq![x@]);
                }
            },
            None => {
                return None;
            },
        }
        i = i + 1;
    }
    proof {
        assert(views_of(out@) =~= spec_decode_strict::<T>(items@));
    }
    Some(out)
}

/// Strips the `data` envelope from `v` and decodes its elements
/// leniently: elements that fail to decode are skipped, the rest are kept
/// in input order. Fails only when the envelope itself is missing or not
/// an array.
pub fn decode_envelope_lenient<T: FromJson>(v: &JsonValue) -> (r: Result<Vec<T>, DecodeError>)
    ensures
        match r {
            Ok(ds) => s_data_elems(*v) matches Some(es) && views_of(ds@) == spec_decode_lenient::<
                T,
            >(es),
            Err(e) => s_data_elems(*v) is None && e == DecodeError::Structure,
        },
{
    match get_entry(v, "data") {
        Some(f) => match f {
            JsonValue::Arr(items) => Ok(decode_elems_lenient(items)),
            _ => Err(DecodeError::Structure),
        },
        None => Err(DecodeError::Structure),
    }
}

/// Strips the `data` envelope from `v` and decodes its elements strictly:
/// the whole decode fails as soon as one element fails, and otherwise
/// yields one record per element, in input order.
pub fn decode_envelope_strict<T: FromJson>(v: &JsonValue) -> (r: Result<Vec<T>, DecodeError>)
    ensures
        match r {
            Ok(ds) => s_data_elems(*v) matches Some(es) && all_elems_decode::<T>(es) && views_of(
                ds@,
            ) == spec_decode_strict::<T>(es),
            Err(e) => e == DecodeError::Structure && (s_data_elems(*v) is None || !all_elems_decode::<
                T,
            >(s_data_elems(*v)->0)),
        },
{
    match get_entry(v, "data") {
        Some(f) => match f {
            JsonValue::Arr(items) => match decode_elems_strict(items) {
                Some(ds) => Ok(ds),
                None => Err(DecodeError::Structure),
            },
            _ => Err(DecodeError::Structure),
        },
        None => Err(DecodeError::Structure),
    }
}

/// Decodes a bare JSON array strictly: fails when `v` is not an array or
/// when any element fails to decode.
pub fn decode_array_strict<T: FromJson>(v: &JsonValue) -> (r: Result<Vec<T>, DecodeError>)
    ensures
        match r {
            Ok(ds) => s_arr_elems(*v) matches Some(es) && all_elems_decode::<T>(es) && views_of(ds@)
                == spec_decode_strict::<T>(es),
            Err(e) => e == DecodeError::Structure && (s_arr_elems(*v) is None || !all_elems_decode::<
                T,
            >(s_arr_elems(*v)->0)),
        },
{
    match v {
        JsonValue::Arr(items) => match decode_elems_strict(items) {
            Some(ds) => Ok(ds),
            None => Err(DecodeError::Structure),
        },
        _ => Err(DecodeError::Structure),
    }
}

} // verus!
