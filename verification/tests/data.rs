use ipc::body::{InvokeResponseBody, IpcResponse};
use ipc::data::Data;
use ipc::error::IpcError;
use serde::ser::{
    SerializeMap, SerializeSeq, SerializeStruct, SerializeStructVariant, SerializeTupleVariant,
};
use serde::{Serialize, Serializer};
use serde_json::{Number, Value};

const MAX: i128 = 9_007_199_254_740_991;

/// Data as any `serde` serializer is handed it.
struct Plain<'a>(&'a Data);

impl Serialize for Plain<'_> {
    fn serialize<S: Serializer>(&self, serializer: S) -> Result<S::Ok, S::Error> {
        match self.0 {
            Data::Unit => serializer.serialize_unit(),
            Data::Bool(b) => serializer.serialize_bool(*b),
            Data::Signed(n) => serializer.serialize_i128(*n),
            Data::Unsigned(n) => serializer.serialize_u128(*n),
            Data::Float(bits, _) => serializer.serialize_f64(f64::from_bits(*bits)),
            Data::Char(c) => serializer.serialize_char(*c),
            Data::Text(text) => serializer.serialize_str(text),
            Data::Bytes(bytes) => serializer.serialize_bytes(bytes),
            Data::Sequence(items) => {
                let mut seq = serializer.serialize_seq(Some(items.len()))?;
                for item in items {
                    seq.serialize_element(&Plain(item))?;
                }
                seq.end()
            }
            Data::Mapping(entries) => {
                let mut map = serializer.serialize_map(Some(entries.len()))?;
                for (key, value) in entries {
                    map.serialize_entry(&Plain(key), &Plain(value))?;
                }
                map.end()
            }
            Data::Record(fields) => {
                let mut record = serializer.serialize_struct("Record", fields.len())?;
                for (name, value) in fields {
                    record.serialize_field(name, &Plain(value))?;
                }
                record.end()
            }
            Data::UnitVariant(tag) => serializer.serialize_unit_variant("Enum", 0, tag),
            Data::NewtypeVariant(tag, content) => {
                serializer.serialize_newtype_variant("Enum", 1, tag, &Plain(content))
            }
            Data::TupleVariant(tag, items) => {
                let mut tuple = serializer.serialize_tuple_variant("Enum", 2, tag, items.len())?;
                for item in items {
                    tuple.serialize_field(&Plain(item))?;
                }
                tuple.end()
            }
            Data::StructVariant(tag, fields) => {
                let mut record = serializer.serialize_struct_variant("Enum", 3, tag, fields.len())?;
                for (name, value) in fields {
                    record.serialize_field(name, &Plain(value))?;
                }
                record.end()
            }
        }
    }
}

fn text(s: &str) -> Data {
    Data::Text(s.to_string())
}

fn float(v: f64) -> Data {
    Data::Float(v.to_bits(), Number::from_f64(v))
}

fn every_kind() -> Data {
    Data::Record(vec![
        ("unit", Data::Unit),
        ("bool", Data::Bool(true)),
        ("signed", Data::Signed(-MAX)),
        ("unsigned", Data::Unsigned(MAX as u128)),
        ("float", float(-1.5)),
        ("char", Data::Char('\u{e9}')),
        ("text", text("a\"b\n")),
        ("bytes", Data::Bytes(vec![0, 255])),
        ("items", Data::Sequence(vec![Data::Unit, Data::Signed(1), Data::Sequence(vec![])])),
        (
            "entries",
            Data::Mapping(vec![
                (text("k"), Data::Unsigned(1)),
                (Data::Char('c'), Data::Unsigned(2)),
                (Data::UnitVariant("V"), Data::Unsigned(3)),
                (text("k"), Data::Unsigned(4)),
            ]),
        ),
        ("unit_variant", Data::UnitVariant("First")),
        ("newtype_variant", Data::NewtypeVariant("Second", Box::new(text("x")))),
        ("tuple_variant", Data::TupleVariant("Third", vec![Data::Bool(false), text("y")])),
        ("struct_variant", Data::StructVariant("Fourth", vec![("z", Data::Signed(7))])),
    ])
}

fn read(data: Data) -> Value {
    data.body().unwrap().deserialize_value().unwrap()
}

#[test]
fn ordinary_data_is_plain_json() {
    let plain = serde_json::to_value(Plain(&every_kind())).unwrap();
    assert_eq!(read(every_kind()), plain);
    assert_eq!(plain["entries"]["k"], Value::from(4));

    // Outside the safe range the two differ.
    let large = Data::Signed(MAX + 1);
    let plain = serde_json::to_value(Plain(&large)).unwrap();
    assert_ne!(read(large), plain);
}

#[test]
fn data_nests_as_deep_as_can_be_read() {
    let nested = |levels: usize| {
        let mut data = Data::Signed(1);
        for _ in 0..levels {
            data = Data::NewtypeVariant("A", Box::new(data));
        }
        data
    };
    assert_eq!(read(nested(127)), serde_json::to_value(Plain(&nested(127))).unwrap());
    assert!(nested(128).body().unwrap().deserialize_value().is_err());

    // A tuple variant is two levels.
    let mut data = Data::Unit;
    for _ in 0..63 {
        data = Data::TupleVariant("A", vec![data]);
    }
    assert!(Data::Sequence(vec![data]).body().unwrap().deserialize_value().is_ok());
}

fn is_safe(value: &Value) -> bool {
    match value {
        Value::Number(n) if n.is_f64() => true,
        Value::Number(n) => n.as_i64().is_some_and(|i| (-MAX..=MAX).contains(&i128::from(i))),
        Value::Array(items) => items.iter().all(is_safe),
        Value::Object(members) => members.values().all(is_safe),
        _ => true,
    }
}

#[test]
fn data_is_safe_for_javascript() {
    let data = Data::Sequence(vec![
        Data::Unsigned(u128::MAX),
        Data::Signed(i128::MIN),
        float(f64::NAN),
        float(f64::NEG_INFINITY),
        float(0.25),
        Data::Bytes(vec![9]),
        Data::Mapping(vec![(Data::Signed(-3), Data::Unsigned(u128::from(u64::MAX)))]),
        Data::NewtypeVariant("A", Box::new(Data::Signed(MAX + 1))),
        Data::TupleVariant("B", vec![Data::Signed(-MAX - 1)]),
        Data::StructVariant("C", vec![("x", Data::Unsigned(u128::MAX))]),
    ]);
    let read = read(data);
    assert!(is_safe(&read));
    assert_eq!(read[0]["$bigint"], Value::from(u128::MAX.to_string()));
    assert_eq!(read[6]["-3"]["$bigint"], Value::from(u64::MAX.to_string()));
    assert_eq!(read[8]["B"][0]["$bigint"], Value::from("-9007199254740992"));
    assert!(!is_safe(&Value::from(u64::MAX)));
}

#[test]
fn the_first_error_counts() {
    let no_number = || Data::Float(1.0f64.to_bits(), None);
    let no_key = || Data::Mapping(vec![(Data::Bytes(vec![1]), no_number())]);
    assert!(matches!(no_number().serialize(), Err(IpcError::InvalidFloat)));
    assert!(matches!(no_key().serialize(), Err(IpcError::InvalidMapKey)));
    for (first, second) in [(no_key(), no_number()), (no_key(), no_key())] {
        let data = Data::Sequence(vec![Data::Unit, first, second]);
        assert!(matches!(data.body(), Err(IpcError::InvalidMapKey)));
    }
    let data = Data::TupleVariant("A", vec![no_number(), no_key()]);
    assert!(matches!(data.body(), Err(IpcError::InvalidFloat)));
    let data = Data::Record(vec![("a", no_number()), ("b", no_key())]);
    assert!(matches!(data.body(), Err(IpcError::InvalidFloat)));
    let data = Data::StructVariant("A", vec![("a", no_key()), ("b", no_number())]);
    assert!(matches!(data.body(), Err(IpcError::InvalidMapKey)));
    let data = Data::Mapping(vec![(text("a"), no_number()), (Data::Bytes(vec![]), Data::Unit)]);
    assert!(matches!(data.body(), Err(IpcError::InvalidFloat)));
    // An integer beyond the safe range is an object, and so no key.
    let data = Data::Mapping(vec![(Data::Signed(MAX + 1), Data::Unit)]);
    assert!(matches!(data.body(), Err(IpcError::InvalidMapKey)));
}

#[test]
fn data_has_a_json_body() {
    let InvokeResponseBody::Json(json) = Data::Record(vec![("b", text("x")), ("a", Data::Unit)])
        .body()
        .unwrap()
    else {
        panic!("expected json response");
    };
    assert_eq!(json, "{\"a\":null,\"b\":\"x\"}");
}
