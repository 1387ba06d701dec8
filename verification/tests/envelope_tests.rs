//! Tests for the `data`-envelope decoders.

use deezer_metadata::DecodeError;
use deezer_metadata::album::AlbumGenre;
use deezer_metadata::envelope::{
    FromJson, decode_array_strict, decode_envelope_lenient, decode_envelope_strict,
};
use deezer_metadata::json::{JsonNumber, JsonValue};

fn genre_value(id: i64, name: &str) -> JsonValue {
    JsonValue::Obj(vec![
        (String::from("id"), JsonValue::Number(JsonNumber::Int(id))),
        (String::from("name"), JsonValue::Str(String::from(name))),
        (String::from("picture"), JsonValue::Str(String::from("pic"))),
    ])
}

fn envelope(elems: Vec<JsonValue>) -> JsonValue {
    JsonValue::Obj(vec![(String::from("data"), JsonValue::Arr(elems))])
}

#[test]
fn strict_all_ok_preserves_order() {
    let env = envelope(vec![
        genre_value(1, "Pop"),
        genre_value(2, "Rock"),
        genre_value(3, "Jazz"),
    ]);
    let decoded: Vec<AlbumGenre> = decode_envelope_strict(&env).unwrap();
    assert_eq!(decoded.len(), 3);
    assert_eq!(decoded[0].id, 1);
    assert_eq!(decoded[0].name, "Pop");
    assert_eq!(decoded[1].id, 2);
    assert_eq!(decoded[1].name, "Rock");
    assert_eq!(decoded[2].id, 3);
    assert_eq!(decoded[2].name, "Jazz");
}

#[test]
fn lenient_all_ok_preserves_order() {
    let env = envelope(vec![
        genre_value(1, "Pop"),
        genre_value(2, "Rock"),
        genre_value(3, "Jazz"),
    ]);
    let decoded: Vec<AlbumGenre> = decode_envelope_lenient(&env).unwrap();
    assert_eq!(decoded.len(), 3);
    assert_eq!(decoded[0].name, "Pop");
    assert_eq!(decoded[1].name, "Rock");
    assert_eq!(decoded[2].name, "Jazz");
}

#[test]
fn lenient_skips_failing_element() {
    // The middle element has no "name", so it fails to decode and is
    // skipped; the other two are kept in order.
    let bad = JsonValue::Obj(vec![(
        String::from("id"),
        JsonValue::Number(JsonNumber::Int(2)),
    )]);
    let env = envelope(vec![genre_value(1, "Pop"), bad, genre_value(3, "Jazz")]);
    let decoded: Vec<AlbumGenre> = decode_envelope_lenient(&env).unwrap();
    assert_eq!(decoded.len(), 2);
    assert_eq!(decoded[0].id, 1);
    assert_eq!(decoded[0].name, "Pop");
    assert_eq!(decoded[1].id, 3);
    assert_eq!(decoded[1].name, "Jazz");
}

#[test]
fn strict_fails_on_failing_element() {
    // The same malformed input is a terminal decode failure under the
    // strict decoder, not a partial sequence.
    let bad = JsonValue::Obj(vec![(
        String::from("id"),
        JsonValue::Number(JsonNumber::Int(2)),
    )]);
    let env = envelope(vec![genre_value(1, "Pop"), bad, genre_value(3, "Jazz")]);
    let decoded: Result<Vec<AlbumGenre>, DecodeError> = decode_envelope_strict(&env);
    assert_eq!(decoded, Err(DecodeError::Structure));
}

#[test]
fn envelope_missing_data_key_fails() {
    let env = JsonValue::Obj(vec![(
        String::from("items"),
        JsonValue::Arr(vec![genre_value(1, "Pop")]),
    )]);
    let lenient: Result<Vec<AlbumGenre>, DecodeError> = decode_envelope_lenient(&env);
    assert_eq!(lenient, Err(DecodeError::Structure));
    let strict: Result<Vec<AlbumGenre>, DecodeError> = decode_envelope_strict(&env);
    assert_eq!(strict, Err(DecodeError::Structure));
}

#[test]
fn envelope_data_not_array_fails() {
    let env = JsonValue::Obj(vec![(
        String::from("data"),
        JsonValue::Str(String::from("nope")),
    )]);
    let lenient: Result<Vec<AlbumGenre>, DecodeError> = decode_envelope_lenient(&env);
    assert_eq!(lenient, Err(DecodeError::Structure));
}

#[test]
fn envelope_empty_array_is_empty_sequence() {
    let env = envelope(vec![]);
    let lenient: Vec<AlbumGenre> = decode_envelope_lenient(&env).unwrap();
    assert_eq!(lenient.len(), 0);
    let strict: Vec<AlbumGenre> = decode_envelope_strict(&env).unwrap();
    assert_eq!(strict.len(), 0);
}

#[test]
fn array_strict_decodes_strings() {
    let arr = JsonValue::Arr(vec![
        JsonValue::Str(String::from("AT")),
        JsonValue::Str(String::from("DE")),
    ]);
    let decoded: Vec<String> = decode_array_strict(&arr).unwrap();
    assert_eq!(decoded, vec![String::from("AT"), String::from("DE")]);
}

#[test]
fn array_strict_fails_on_non_string() {
    let arr = JsonValue::Arr(vec![
        JsonValue::Str(String::from("AT")),
        JsonValue::Number(JsonNumber::Int(7)),
    ]);
    let decoded: Result<Vec<String>, DecodeError> = decode_array_strict(&arr);
    assert_eq!(decoded, Err(DecodeError::Structure));
}

#[test]
fn string_from_json_rejects_non_string() {
    assert_eq!(String::from_json(&JsonValue::Null), None);
    assert_eq!(
        String::from_json(&JsonValue::Str(String::from("x"))),
        Some(String::from("x"))
    );
}
