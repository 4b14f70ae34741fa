//! What becomes of whole values.

use crate::body::{InvokeResponseBody, IpcResponse};
use crate::data::{serialized, serialized_entries, serialized_fields, serialized_items, Data};
use crate::error::IpcError;
use crate::json::{json_contents, json_text, JsonView, NumberView};
use crate::serializer::{IpcResponseSerializer, JsonMapSerializer};
use vstd::prelude::*;

verus! {

/// A value without parts is what its kind says: nothing is null, and a bool, a
/// char, a text and the name of a variant are themselves.
pub proof fn law_data_scalars(data: Data, result: Result<serde_json::Value, IpcError>)
    requires
        call_ensures(Data::serialize, (data,), result),
    ensures
        data matches Data::Unit ==> (result matches Ok(value) && json_contents(value)
            == JsonView::Null),
        data matches Data::Bool(b) ==> (result matches Ok(value) && json_contents(value)
            == JsonView::Bool(b)),
        data matches Data::Char(c) ==> (result matches Ok(value) && json_contents(value)
            == JsonView::String(seq![c])),
        data matches Data::Text(text) ==> (result matches Ok(value) && json_contents(value)
            == JsonView::String(text@)),
        data matches Data::UnitVariant(tag) ==> (result matches Ok(value) && json_contents(value)
            == JsonView::String(tag@)),
        data matches Data::Bytes(bytes) ==> (result matches Ok(value) && json_contents(
            value,
        ) matches JsonView::Array(items) && items.len() == bytes@.len() && forall|i: int|
            0 <= i < items.len() ==> #[trigger] items[i] == JsonView::Number(
                NumberView::Int(bytes@[i] as int),
            )),
{
}

/// A signed integer is what the serializer makes of it.
pub proof fn law_data_signed(
    n: i128,
    result: Result<serde_json::Value, IpcError>,
    alone: Result<serde_json::Value, IpcError>,
)
    requires
        call_ensures(Data::serialize, (Data::Signed(n),), result),
        call_ensures(IpcResponseSerializer::serialize_i128, (IpcResponseSerializer, n), alone),
    ensures
        result matches Ok(value) && alone matches Ok(single) && json_contents(value)
            == json_contents(single),
{
}

/// An unsigned integer is what the serializer makes of it.
pub proof fn law_data_unsigned(
    n: u128,
    result: Result<serde_json::Value, IpcError>,
    alone: Result<serde_json::Value, IpcError>,
)
    requires
        call_ensures(Data::serialize, (Data::Unsigned(n),), result),
        call_ensures(IpcResponseSerializer::serialize_u128, (IpcResponseSerializer, n), alone),
    ensures
        result matches Ok(value) && alone matches Ok(single) && json_contents(value)
            == json_contents(single),
{
}

/// A floating point number is what the serializer makes of it, be it a value or
/// an error.
pub proof fn law_data_float(
    bits: u64,
    number: Option<serde_json::Number>,
    result: Result<serde_json::Value, IpcError>,
    alone: Result<serde_json::Value, IpcError>,
)
    requires
        call_ensures(Data::serialize, (Data::Float(bits, number),), result),
        call_ensures(
            IpcResponseSerializer::serialize_f64,
            (IpcResponseSerializer, bits, number),
            alone,
        ),
    ensures
        match alone {
            Ok(single) => result matches Ok(value) && json_contents(value) == json_contents(single),
            Err(error) => result == Err::<serde_json::Value, IpcError>(error),
        },
{
}

/// A sequence without items is the empty array, and a mapping without entries and
/// a record without fields are the empty object.
pub proof fn law_data_empty(
    items: Vec<Data>,
    entries: Vec<(Data, Data)>,
    fields: Vec<(&'static str, Data)>,
    array: Result<serde_json::Value, IpcError>,
    map: Result<serde_json::Value, IpcError>,
    record: Result<serde_json::Value, IpcError>,
)
    requires
        items@.len() == 0,
        entries@.len() == 0,
        fields@.len() == 0,
        call_ensures(Data::serialize, (Data::Sequence(items),), array),
        call_ensures(Data::serialize, (Data::Mapping(entries),), map),
        call_ensures(Data::serialize, (Data::Record(fields),), record),
    ensures
        array matches Ok(value) && json_contents(value) == JsonView::Array(
            Seq::<JsonView>::empty(),
        ),
        map matches Ok(value) && json_contents(value) == JsonView::Object(
            Map::<Seq<char>, JsonView>::empty(),
        ),
        record matches Ok(value) && json_contents(value) == JsonView::Object(
            Map::<Seq<char>, JsonView>::empty(),
        ),
{
    reveal_with_fuel(serialized, 2);
    reveal_with_fuel(serialized_items, 2);
    reveal_with_fuel(serialized_entries, 2);
    reveal_with_fuel(serialized_fields, 2);
}

/// One more item at the end of a sequence is one more tree at the end of its
/// array. The first error counts.
pub proof fn law_data_sequence(
    shorter: Vec<Data>,
    item: Data,
    longer: Vec<Data>,
    before: Result<serde_json::Value, IpcError>,
    added: Result<serde_json::Value, IpcError>,
    after: Result<serde_json::Value, IpcError>,
)
    requires
        longer@ == shorter@.push(item),
        call_ensures(Data::serialize, (Data::Sequence(shorter),), before),
        call_ensures(Data::serialize, (item,), added),
        call_ensures(Data::serialize, (Data::Sequence(longer),), after),
    ensures
        match (before, added) {
            (Ok(array), Ok(value)) => after matches Ok(whole) && json_contents(
                array,
            ) matches JsonView::Array(trees) && json_contents(whole) == JsonView::Array(
                trees.push(json_contents(value)),
            ),
            (Ok(_), Err(error)) => after == Err::<serde_json::Value, IpcError>(error),
            (Err(error), _) => after == Err::<serde_json::Value, IpcError>(error),
        },
{
    reveal_with_fuel(serialized, 3);
    reveal_with_fuel(serialized_items, 3);
    assert(longer@.drop_last() =~= shorter@);
}

/// One more entry at the end of a mapping is one more member of its object, under
/// the text of its key and in place of one of the same key. The first error counts,
/// that of a key before that of its value.
pub proof fn law_data_mapping(
    shorter: Vec<(Data, Data)>,
    key: Data,
    value: Data,
    longer: Vec<(Data, Data)>,
    before: Result<serde_json::Value, IpcError>,
    key_value: Result<serde_json::Value, IpcError>,
    key_text: Result<String, IpcError>,
    added: Result<serde_json::Value, IpcError>,
    after: Result<serde_json::Value, IpcError>,
)
    requires
        longer@ == shorter@.push((key, value)),
        call_ensures(Data::serialize, (Data::Mapping(shorter),), before),
        call_ensures(Data::serialize, (key,), key_value),
        call_ensures(JsonMapSerializer::serialize_key_to_string, (key_value,), key_text),
        call_ensures(Data::serialize, (value,), added),
        call_ensures(Data::serialize, (Data::Mapping(longer),), after),
    ensures
        match (before, key_text, added) {
            (Ok(map), Ok(text), Ok(member)) => after matches Ok(whole) && json_contents(
                map,
            ) matches JsonView::Object(members) && json_contents(whole) == JsonView::Object(
                members.insert(text@, json_contents(member)),
            ),
            (Ok(_), Ok(_), Err(error)) => after == Err::<serde_json::Value, IpcError>(error),
            (Ok(_), Err(error), _) => after == Err::<serde_json::Value, IpcError>(error),
            (Err(error), _, _) => after == Err::<serde_json::Value, IpcError>(error),
        },
{
    reveal_with_fuel(serialized, 3);
    reveal_with_fuel(serialized_entries, 3);
    assert(longer@.drop_last() =~= shorter@);
}

/// One more field at the end of a record is one more member of its object, under
/// its name and in place of one of the same name. The first error counts.
pub proof fn law_data_record(
    shorter: Vec<(&'static str, Data)>,
    name: &'static str,
    value: Data,
    longer: Vec<(&'static str, Data)>,
    before: Result<serde_json::Value, IpcError>,
    added: Result<serde_json::Value, IpcError>,
    after: Result<serde_json::Value, IpcError>,
)
    requires
        longer@ == shorter@.push((name, value)),
        call_ensures(Data::serialize, (Data::Record(shorter),), before),
        call_ensures(Data::serialize, (value,), added),
        call_ensures(Data::serialize, (Data::Record(longer),), after),
    ensures
        match (before, added) {
            (Ok(record), Ok(member)) => after matches Ok(whole) && json_contents(
                record,
            ) matches JsonView::Object(members) && json_contents(whole) == JsonView::Object(
                members.insert(name@, json_contents(member)),
            ),
            (Ok(_), Err(error)) => after == Err::<serde_json::Value, IpcError>(error),
            (Err(error), _) => after == Err::<serde_json::Value, IpcError>(error),
        },
{
    reveal_with_fuel(serialized, 3);
    reveal_with_fuel(serialized_fields, 3);
    assert(longer@.drop_last() =~= shorter@);
}

/// A variant with content is an object whose only member has the name of the
/// variant and is what the content alone is. An error of the content is the
/// result.
pub proof fn law_data_newtype_variant(
    tag: &'static str,
    content: Box<Data>,
    inner: Result<serde_json::Value, IpcError>,
    result: Result<serde_json::Value, IpcError>,
)
    requires
        call_ensures(Data::serialize, (*content,), inner),
        call_ensures(Data::serialize, (Data::NewtypeVariant(tag, content),), result),
    ensures
        match inner {
            Ok(v) => result matches Ok(value) && json_contents(value) matches JsonView::Object(
                members,
            ) && members.dom() == set![tag@] && members[tag@] == json_contents(v),
            Err(error) => result == Err::<serde_json::Value, IpcError>(error),
        },
{
    if inner is Ok {
        assert(json_contents(result->Ok_0)->Object_0.dom() =~= set![tag@]);
    }
}

/// A tuple variant is an object whose only member has the name of the variant and
/// is what the sequence of its fields is. An error of a field is the result.
pub proof fn law_data_tuple_variant(
    tag: &'static str,
    items: Vec<Data>,
    inner: Result<serde_json::Value, IpcError>,
    result: Result<serde_json::Value, IpcError>,
)
    requires
        call_ensures(Data::serialize, (Data::Sequence(items),), inner),
        call_ensures(Data::serialize, (Data::TupleVariant(tag, items),), result),
    ensures
        match inner {
            Ok(v) => result matches Ok(value) && json_contents(value) matches JsonView::Object(
                members,
            ) && members.dom() == set![tag@] && members[tag@] == json_contents(v),
            Err(error) => result == Err::<serde_json::Value, IpcError>(error),
        },
{
    if inner is Ok {
        assert(json_contents(result->Ok_0)->Object_0.dom() =~= set![tag@]);
    }
}

/// A struct variant is an object whose only member has the name of the variant and
/// is what the record of its fields is. An error of a field is the result.
pub proof fn law_data_struct_variant(
    tag: &'static str,
    fields: Vec<(&'static str, Data)>,
    inner: Result<serde_json::Value, IpcError>,
    result: Result<serde_json::Value, IpcError>,
)
    requires
        call_ensures(Data::serialize, (Data::Record(fields),), inner),
        call_ensures(Data::serialize, (Data::StructVariant(tag, fields),), result),
    ensures
        match inner {
            Ok(v) => result matches Ok(value) && json_contents(value) matches JsonView::Object(
                members,
            ) && members.dom() == set![tag@] && members[tag@] == json_contents(v),
            Err(error) => result == Err::<serde_json::Value, IpcError>(error),
        },
{
    if inner is Ok {
        assert(json_contents(result->Ok_0)->Object_0.dom() =~= set![tag@]);
    }
}

/// The body of a response for a value is the text of what the value is serialized
/// to, or the error that serializing it gives.
pub proof fn law_data_body(
    data: Data,
    written: Result<serde_json::Value, IpcError>,
    result: Result<InvokeResponseBody, IpcError>,
)
    requires
        call_ensures(Data::serialize, (data,), written),
        call_ensures(<Data as IpcResponse>::body, (data,), result),
    ensures
        match written {
            Ok(value) => result matches Ok(InvokeResponseBody::Json(text)) && text@ == json_text(
                json_contents(value),
            ),
            Err(error) => result == Err::<InvokeResponseBody, IpcError>(error),
        },
{
}

} // verus!
