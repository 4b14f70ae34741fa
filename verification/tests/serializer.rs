use ipc::bigint::{
    bigint_value, finite_f64_value, is_unsafe_js_integer, non_finite_bigint_value, JS_MAX_SAFE_INT,
};
use ipc::body::{InvokeResponseBody, IpcResponse, Serialized};
use ipc::decimal::{integer_text, natural_text};
use ipc::error::IpcError;
use ipc::serializer::{IpcResponseSerializer, JsonMapSerializer};
use serde_json::{Number, Value};

fn object(members: Vec<(&str, Value)>) -> Value {
    let mut map = serde_json::Map::new();
    for (key, value) in members {
        map.insert(key.to_string(), value);
    }
    Value::Object(map)
}

fn text(s: &str) -> Value {
    Value::String(s.to_string())
}

fn flags(names: &[&str]) -> Value {
    object(names.iter().map(|name| (*name, Value::Bool(true))).collect())
}

fn f64_value(v: f64) -> Result<Value, IpcError> {
    IpcResponseSerializer.serialize_f64(v.to_bits(), Number::from_f64(v))
}

#[test]
fn ipc_response_serializes_bigints_specially() {
    let mut fields = IpcResponseSerializer.serialize_struct("Response", 6).unwrap();
    fields.serialize_field("safe", IpcResponseSerializer.serialize_i64(9_007_199_254_740_991)).unwrap();
    fields
        .serialize_field("unsafe_integer", IpcResponseSerializer.serialize_i64(9_007_199_254_740_992))
        .unwrap();
    fields.serialize_field("min_i128", IpcResponseSerializer.serialize_i128(i128::MIN)).unwrap();
    fields.serialize_field("nan", f64_value(f64::NAN)).unwrap();
    fields.serialize_field("infinity", f64_value(f64::INFINITY)).unwrap();
    fields.serialize_field("negative_infinity", f64_value(f64::NEG_INFINITY)).unwrap();
    let response = Serialized(fields.end()).body().unwrap();

    let InvokeResponseBody::Json(response) = response else {
        panic!("expected json response");
    };

    assert_eq!(
        serde_json::from_str::<Value>(&response).unwrap(),
        object(vec![
            ("safe", Value::from(9_007_199_254_740_991_i64)),
            ("unsafe_integer", object(vec![("$bigint", text("9007199254740992"))])),
            ("min_i128", object(vec![("$bigint", text(&i128::MIN.to_string()))])),
            ("nan", flags(&["$bigint", "$bigint_nan"])),
            ("infinity", flags(&["$bigint", "$bigint_infinity"])),
            (
                "negative_infinity",
                flags(&[
                    "$bigint",
                    "$bigint_infinity",
                    "$bigint_negative_infinity",
                    "$bigint_negative",
                ]),
            ),
        ])
    );
}

#[test]
fn safe_range_is_symmetric() {
    assert!(!is_unsafe_js_integer(JS_MAX_SAFE_INT));
    assert!(!is_unsafe_js_integer(-JS_MAX_SAFE_INT));
    assert!(is_unsafe_js_integer(JS_MAX_SAFE_INT + 1));
    assert!(is_unsafe_js_integer(-JS_MAX_SAFE_INT - 1));
    assert!(is_unsafe_js_integer(i128::MIN));
    assert!(is_unsafe_js_integer(i128::MAX));
    assert!(!is_unsafe_js_integer(0));
}

#[test]
fn decimal_text_of_extremes() {
    assert_eq!(integer_text(i128::MIN), i128::MIN.to_string());
    assert_eq!(integer_text(i128::MAX), i128::MAX.to_string());
    assert_eq!(integer_text(0), "0");
    assert_eq!(integer_text(-10), "-10");
    assert_eq!(natural_text(u128::MAX), u128::MAX.to_string());
    assert_eq!(natural_text(9), "9");
    assert_eq!(natural_text(100), "100");
}

#[test]
fn all_integer_types_agree() {
    let s = || IpcResponseSerializer;
    let seven = Value::from(7);
    assert_eq!(s().serialize_i8(7).unwrap(), seven);
    assert_eq!(s().serialize_i16(7).unwrap(), seven);
    assert_eq!(s().serialize_i32(7).unwrap(), seven);
    assert_eq!(s().serialize_i64(7).unwrap(), seven);
    assert_eq!(s().serialize_i128(7).unwrap(), seven);
    assert_eq!(s().serialize_u8(7).unwrap(), seven);
    assert_eq!(s().serialize_u16(7).unwrap(), seven);
    assert_eq!(s().serialize_u32(7).unwrap(), seven);
    assert_eq!(s().serialize_u64(7).unwrap(), seven);
    assert_eq!(s().serialize_u128(7).unwrap(), seven);
    assert_eq!(s().serialize_i8(i8::MIN).unwrap(), Value::from(-128));
    assert_eq!(s().serialize_i16(i16::MIN).unwrap(), Value::from(i16::MIN));
    assert_eq!(s().serialize_i32(i32::MIN).unwrap(), Value::from(i32::MIN));
    assert_eq!(s().serialize_u32(u32::MAX).unwrap(), Value::from(u32::MAX));
}

#[test]
fn integers_at_the_edge_of_the_safe_range() {
    let s = || IpcResponseSerializer;
    let max: i64 = 9_007_199_254_740_991;
    assert_eq!(s().serialize_i64(-max).unwrap(), Value::from(-max));
    assert_eq!(
        s().serialize_i64(-max - 1).unwrap(),
        object(vec![("$bigint", text("-9007199254740992"))])
    );
    assert_eq!(s().serialize_u64(max as u64).unwrap(), Value::from(max));
    assert_eq!(
        s().serialize_u64(u64::MAX).unwrap(),
        object(vec![("$bigint", text("18446744073709551615"))])
    );
    assert_eq!(s().serialize_u128(max as u128).unwrap(), Value::from(max));
    assert_eq!(
        s().serialize_u128(max as u128 + 1).unwrap(),
        object(vec![("$bigint", text("9007199254740992"))])
    );
    assert_eq!(
        s().serialize_u128(u128::MAX).unwrap(),
        object(vec![("$bigint", text("340282366920938463463374607431768211455"))])
    );
    assert_eq!(s().serialize_i128(-(max as i128)).unwrap(), Value::from(-max));
    assert_eq!(
        s().serialize_i128(i128::MAX).unwrap(),
        object(vec![("$bigint", text("170141183460469231731687303715884105727"))])
    );
}

#[test]
fn integers_stay_apart() {
    let a = IpcResponseSerializer.serialize_u64(9_007_199_254_740_992).unwrap();
    let b = IpcResponseSerializer.serialize_u64(9_007_199_254_740_993).unwrap();
    assert_ne!(a, b);
    assert_eq!(bigint_value("9007199254740992".to_string()), a);
}

#[test]
fn floats_that_are_finite_stay_numbers() {
    for v in [0.0, -0.0, 1.5, -2.25, f64::MAX, f64::MIN_POSITIVE, 5e-324] {
        assert_eq!(f64_value(v).unwrap(), Value::from(v));
    }
    assert_eq!(f64_value(f64::from(0.5f32)).unwrap(), Value::from(0.5));
}

#[test]
fn floats_that_are_not_finite_become_flags() {
    assert_eq!(f64_value(-f64::NAN).unwrap(), flags(&["$bigint", "$bigint_nan"]));
    assert_eq!(
        non_finite_bigint_value("$bigint_nan", true),
        flags(&["$bigint", "$bigint_nan", "$bigint_negative"])
    );
    assert_ne!(f64_value(f64::INFINITY).unwrap(), f64_value(f64::NEG_INFINITY).unwrap());
    assert_ne!(f64_value(f64::INFINITY).unwrap(), f64_value(f64::NAN).unwrap());
}

#[test]
fn invalid_float_is_an_error() {
    let error = finite_f64_value(Number::from_f64(f64::NAN)).unwrap_err();
    assert!(matches!(error, IpcError::InvalidFloat));
    assert_eq!(error.message(), "invalid floating point value");
    assert_eq!(finite_f64_value(Number::from_f64(2.5)).unwrap(), Value::from(2.5));
}

#[test]
fn scalars() {
    let s = || IpcResponseSerializer;
    assert_eq!(s().serialize_bool(true).unwrap(), Value::Bool(true));
    assert_eq!(s().serialize_char('\u{e9}').unwrap(), text("\u{e9}"));
    assert_eq!(s().serialize_str("a\"b").unwrap(), text("a\"b"));
    assert_eq!(
        s().serialize_bytes(&[0, 255]).unwrap(),
        Value::Array(vec![Value::from(0), Value::from(255)])
    );
    assert_eq!(s().serialize_bytes(&[]).unwrap(), Value::Array(vec![]));
    assert_eq!(s().serialize_none().unwrap(), Value::Null);
    assert_eq!(s().serialize_unit().unwrap(), Value::Null);
    assert_eq!(s().serialize_unit_struct("Unit").unwrap(), Value::Null);
    assert_eq!(s().serialize_unit_variant("Enum", 1, "Second").unwrap(), text("Second"));
    assert_eq!(s().serialize_some(Ok(Value::Null)).unwrap(), Value::Null);
    assert_eq!(s().serialize_newtype_struct("Meters", Ok(text("x"))).unwrap(), text("x"));
}

#[test]
fn variants_are_tagged() {
    let s = || IpcResponseSerializer;
    assert_eq!(
        s().serialize_newtype_variant("Enum", 0, "First", s().serialize_u8(1)).unwrap(),
        object(vec![("First", Value::from(1))])
    );

    let mut tuple = s().serialize_tuple_variant("Enum", 1, "Pair", 2).unwrap();
    tuple.serialize_field(s().serialize_u8(1)).unwrap();
    assert!(tuple.serialize_field(Err(IpcError::InvalidFloat)).is_err());
    tuple.serialize_field(s().serialize_bool(false)).unwrap();
    assert_eq!(
        tuple.end().unwrap(),
        object(vec![("Pair", Value::Array(vec![Value::from(1), Value::Bool(false)]))])
    );

    let mut fields = s().serialize_struct_variant("Enum", 2, "Named", 1).unwrap();
    fields.serialize_field("x", s().serialize_u8(1)).unwrap();
    assert!(fields.serialize_field("y", Err(IpcError::InvalidMapKey)).is_err());
    assert_eq!(
        fields.end().unwrap(),
        object(vec![("Named", object(vec![("x", Value::from(1))]))])
    );
}

#[test]
fn sequences_keep_their_order() {
    let s = || IpcResponseSerializer;
    let mut seq = s().serialize_seq(None).unwrap();
    seq.serialize_element(s().serialize_u8(2)).unwrap();
    seq.serialize_element(s().serialize_u8(1)).unwrap();
    assert_eq!(seq.end().unwrap(), Value::Array(vec![Value::from(2), Value::from(1)]));

    // The announced length is no more than a hint.
    let mut tuple = s().serialize_tuple(usize::MAX).unwrap();
    tuple.serialize_element(s().serialize_u8(1)).unwrap();
    assert_eq!(tuple.end().unwrap(), Value::Array(vec![Value::from(1)]));

    let mut tuple = s().serialize_tuple_struct("Pair", 2).unwrap();
    tuple.serialize_field(s().serialize_u8(1)).unwrap();
    assert!(matches!(
        tuple.serialize_field(Err(IpcError::ValueBeforeKey)),
        Err(IpcError::ValueBeforeKey)
    ));
    assert_eq!(tuple.end().unwrap(), Value::Array(vec![Value::from(1)]));
}

#[test]
fn map_keys_are_texts() {
    let s = || IpcResponseSerializer;
    let key = |value| JsonMapSerializer::serialize_key_to_string(value);
    assert_eq!(key(s().serialize_str("k")).unwrap(), "k");
    assert_eq!(key(s().serialize_i32(-5)).unwrap(), "-5");
    assert_eq!(key(s().serialize_u64(12)).unwrap(), "12");
    assert_eq!(key(f64_value(1.5)).unwrap(), "1.5");
    assert_eq!(key(s().serialize_bool(true)).unwrap(), "true");
    assert_eq!(key(s().serialize_bool(false)).unwrap(), "false");
    assert_eq!(key(s().serialize_none()).unwrap(), "null");
    assert!(matches!(key(s().serialize_bytes(&[1])), Err(IpcError::InvalidMapKey)));
    // An integer beyond the safe range is an object, and so no key.
    assert!(matches!(key(s().serialize_u64(u64::MAX)), Err(IpcError::InvalidMapKey)));
    assert!(matches!(key(Err(IpcError::InvalidFloat)), Err(IpcError::InvalidFloat)));
    assert_eq!(
        IpcError::InvalidMapKey.message(),
        "map key must be a string, number, bool, or null"
    );
}

#[test]
fn maps_take_a_key_for_each_value() {
    let s = || IpcResponseSerializer;
    let mut map = s().serialize_map(Some(2)).unwrap();
    let error = map.serialize_value(|| s().serialize_u8(1)).unwrap_err();
    assert!(matches!(error, IpcError::ValueBeforeKey));
    assert_eq!(error.message(), "serialize_value called before serialize_key");

    map.serialize_key(s().serialize_str("a")).unwrap();
    map.serialize_value(|| s().serialize_u8(1)).unwrap();
    assert!(map.serialize_value(|| s().serialize_u8(2)).is_err());

    // A value that fails uses up its key.
    map.serialize_key(s().serialize_str("b")).unwrap();
    assert!(map.serialize_value(|| Err(IpcError::InvalidFloat)).is_err());
    assert!(matches!(
        map.serialize_value(|| s().serialize_u8(2)),
        Err(IpcError::ValueBeforeKey)
    ));

    // Without a key the value is not looked at.
    assert!(map.serialize_value(|| panic!("there is no key")).is_err());

    // A key that fails leaves the one before it.
    map.serialize_key(s().serialize_str("c")).unwrap();
    assert!(map.serialize_key(s().serialize_bytes(&[])).is_err());
    map.serialize_value(|| s().serialize_u8(3)).unwrap();

    // A later value replaces an earlier one of the same key.
    map.serialize_key(s().serialize_str("a")).unwrap();
    map.serialize_value(|| s().serialize_u8(4)).unwrap();
    assert_eq!(map.end().unwrap(), object(vec![("a", Value::from(4)), ("c", Value::from(3))]));
}

#[test]
fn ordinary_values_are_plain_json() {
    let s = || IpcResponseSerializer;
    let max: i64 = 9_007_199_254_740_991;
    let plain = std::collections::BTreeMap::from([
        ("pair".to_string(), (vec![Some(max), None, Some(-max)], 'x', "text", true)),
        ("\u{e9}".to_string(), (vec![], '\n', "", false)),
    ]);

    let mut map = s().serialize_map(Some(2)).unwrap();
    for (key, (numbers, letter, word, flag)) in &plain {
        let mut items = s().serialize_seq(Some(numbers.len())).unwrap();
        for number in numbers {
            let item = match number {
                Some(n) => s().serialize_some(s().serialize_i64(*n)),
                None => s().serialize_none(),
            };
            items.serialize_element(item).unwrap();
        }
        let mut tuple = s().serialize_tuple(4).unwrap();
        tuple.serialize_element(items.end()).unwrap();
        tuple.serialize_element(s().serialize_char(*letter)).unwrap();
        tuple.serialize_element(s().serialize_str(word)).unwrap();
        tuple.serialize_element(s().serialize_bool(*flag)).unwrap();
        map.serialize_key(s().serialize_str(key)).unwrap();
        map.serialize_value(|| tuple.end()).unwrap();
    }
    let body = Serialized(map.end()).body().unwrap();
    assert_eq!(body.deserialize_value().unwrap(), serde_json::to_value(&plain).unwrap());

    // Outside the safe range the two differ.
    assert_ne!(s().serialize_i64(max + 1).unwrap(), serde_json::to_value(max + 1).unwrap());
}

#[test]
fn integers_read_back_in_the_safe_range() {
    let max: i64 = 9_007_199_254_740_991;
    for n in [0, 1, -1, max, -max] {
        let body = Serialized(IpcResponseSerializer.serialize_i64(n)).body().unwrap();
        assert_eq!(body.deserialize_i64().unwrap(), n);
    }
    for n in [max + 1, -max - 1, i64::MAX, i64::MIN] {
        let body = Serialized(IpcResponseSerializer.serialize_i64(n)).body().unwrap();
        let error = body.deserialize_i64().unwrap_err();
        assert_eq!(error.message(), "invalid type: map, expected i64 at line 1 column 0");
    }
}

#[test]
fn field_order_does_not_show() {
    let s = || IpcResponseSerializer;
    let mut one = s().serialize_struct("Point", 2).unwrap();
    one.serialize_field("x", s().serialize_u8(1)).unwrap();
    one.serialize_field("y", s().serialize_u8(2)).unwrap();
    let mut other = s().serialize_struct("Point", 2).unwrap();
    other.serialize_field("y", s().serialize_u8(2)).unwrap();
    other.serialize_field("x", s().serialize_u8(1)).unwrap();
    let InvokeResponseBody::Json(one) = Serialized(one.end()).body().unwrap() else {
        panic!("expected json response");
    };
    let InvokeResponseBody::Json(other) = Serialized(other.end()).body().unwrap() else {
        panic!("expected json response");
    };
    assert_eq!(one, "{\"x\":1,\"y\":2}");
    assert_eq!(one, other);
}
