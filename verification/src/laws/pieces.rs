//! What becomes of the pieces that a serializer is handed.

use crate::decimal::decimal;
use crate::error::IpcError;
use crate::json::{
    array_contents, float_text, json_contents, map_contents, no_members, number_contents, JsonNode,
    JsonView, NumberView,
};
use crate::serializer::{
    IpcResponseSerializer, JsonMapSerializer, JsonStructVariantSerializer,
    JsonTupleVariantSerializer, JsonVecSerializer,
};
use vstd::prelude::*;

verus! {

/// A node of each kind is the tree of that kind, over what stands in it.
pub proof fn law_nodes(
    b: bool,
    number: serde_json::Number,
    text: String,
    items: Vec<serde_json::Value>,
    members: serde_json::Map<String, serde_json::Value>,
)
    ensures
        JsonNode::Null.contents() == JsonView::Null,
        JsonNode::Bool(b).contents() == JsonView::Bool(b),
        JsonNode::Number(number).contents() == JsonView::Number(number_contents(number)),
        JsonNode::String(text).contents() == JsonView::String(text@),
        JsonNode::Array(items).contents() matches JsonView::Array(trees) && trees.len()
            == items@.len() && forall|i: int|
            0 <= i < items@.len() ==> #[trigger] trees[i] == json_contents(items@[i]),
        JsonNode::Object(members).contents() == JsonView::Object(map_contents(members)),
{
}

/// The trees of an array are those of its items, one for each and in their order.
pub proof fn law_array_contents(items: Seq<serde_json::Value>)
    ensures
        array_contents(items).len() == items.len(),
        forall|i: int|
            0 <= i < items.len() ==> #[trigger] array_contents(items)[i] == json_contents(items[i]),
{
}

/// A bool, a char and a text are themselves, and a variant without content is its
/// name.
pub proof fn law_serialize_scalars(
    b: bool,
    c: char,
    text: &str,
    name: &str,
    index: u32,
    results: (
        Result<serde_json::Value, IpcError>,
        Result<serde_json::Value, IpcError>,
        Result<serde_json::Value, IpcError>,
        Result<serde_json::Value, IpcError>,
    ),
)
    requires
        call_ensures(IpcResponseSerializer::serialize_bool, (IpcResponseSerializer, b), results.0),
        call_ensures(IpcResponseSerializer::serialize_char, (IpcResponseSerializer, c), results.1),
        call_ensures(
            IpcResponseSerializer::serialize_str,
            (IpcResponseSerializer, text),
            results.2,
        ),
        call_ensures(
            IpcResponseSerializer::serialize_unit_variant,
            (IpcResponseSerializer, name, index, text),
            results.3,
        ),
    ensures
        results.0 matches Ok(value) && json_contents(value) == JsonView::Bool(b),
        results.1 matches Ok(value) && json_contents(value) == JsonView::String(seq![c]),
        results.2 matches Ok(value) && json_contents(value) == JsonView::String(text@),
        results.3 matches Ok(value) && json_contents(value) == JsonView::String(text@),
{
}

/// An option that is not there, a unit and a unit struct are null.
pub proof fn law_serialize_nothing(
    name: &str,
    none: Result<serde_json::Value, IpcError>,
    unit: Result<serde_json::Value, IpcError>,
    unit_struct: Result<serde_json::Value, IpcError>,
)
    requires
        call_ensures(IpcResponseSerializer::serialize_none, (IpcResponseSerializer,), none),
        call_ensures(IpcResponseSerializer::serialize_unit, (IpcResponseSerializer,), unit),
        call_ensures(
            IpcResponseSerializer::serialize_unit_struct,
            (IpcResponseSerializer, name),
            unit_struct,
        ),
    ensures
        none matches Ok(value) && json_contents(value) == JsonView::Null,
        unit matches Ok(value) && json_contents(value) == JsonView::Null,
        unit_struct matches Ok(value) && json_contents(value) == JsonView::Null,
{
}

/// Bytes are an array with a number for each byte, in their order.
pub proof fn law_serialize_bytes(bytes: &[u8], result: Result<serde_json::Value, IpcError>)
    requires
        call_ensures(IpcResponseSerializer::serialize_bytes, (IpcResponseSerializer, bytes), result),
    ensures
        result matches Ok(value) && json_contents(value) matches JsonView::Array(items)
            && items.len() == bytes@.len() && forall|i: int|
            0 <= i < items.len() ==> #[trigger] items[i] == JsonView::Number(
                NumberView::Int(bytes@[i] as int),
            ),
{
}

/// An option that is there and a newtype struct are what their content is, be it
/// a value or an error.
pub proof fn law_serialize_wrapped(
    name: &str,
    content: Result<serde_json::Value, IpcError>,
    some: Result<serde_json::Value, IpcError>,
    newtype: Result<serde_json::Value, IpcError>,
)
    requires
        call_ensures(IpcResponseSerializer::serialize_some, (IpcResponseSerializer, content), some),
        call_ensures(
            IpcResponseSerializer::serialize_newtype_struct,
            (IpcResponseSerializer, name, content),
            newtype,
        ),
    ensures
        some == content,
        newtype == content,
{
}

/// A newtype variant is an object whose only member has the name of the variant
/// and is its content. An error of the content is the result.
pub proof fn law_serialize_newtype_variant(
    name: &str,
    index: u32,
    variant: &str,
    content: Result<serde_json::Value, IpcError>,
    result: Result<serde_json::Value, IpcError>,
)
    requires
        call_ensures(
            IpcResponseSerializer::serialize_newtype_variant,
            (IpcResponseSerializer, name, index, variant, content),
            result,
        ),
    ensures
        match content {
            Ok(inner) => result matches Ok(value) && json_contents(
                value,
            ) matches JsonView::Object(members) && members.dom() == set![variant@]
                && members[variant@] == json_contents(inner),
            Err(error) => result == Err::<serde_json::Value, IpcError>(error),
        },
{
    if content is Ok {
        assert(json_contents(result->Ok_0)->Object_0.dom() =~= set![variant@]);
    }
}

/// Every array starts without items, whatever length is announced.
pub proof fn law_arrays_start_empty(
    len: Option<usize>,
    count: usize,
    name: &str,
    seq: Result<JsonVecSerializer, IpcError>,
    tuple: Result<JsonVecSerializer, IpcError>,
    tuple_struct: Result<JsonVecSerializer, IpcError>,
)
    requires
        call_ensures(IpcResponseSerializer::serialize_seq, (IpcResponseSerializer, len), seq),
        call_ensures(IpcResponseSerializer::serialize_tuple, (IpcResponseSerializer, count), tuple),
        call_ensures(
            IpcResponseSerializer::serialize_tuple_struct,
            (IpcResponseSerializer, name, count),
            tuple_struct,
        ),
    ensures
        seq matches Ok(array) && array@ == Seq::<JsonView>::empty(),
        tuple matches Ok(array) && array@ == Seq::<JsonView>::empty(),
        tuple_struct matches Ok(array) && array@ == Seq::<JsonView>::empty(),
{
    assert(seq->Ok_0@ =~= Seq::<JsonView>::empty());
    assert(tuple->Ok_0@ =~= Seq::<JsonView>::empty());
    assert(tuple_struct->Ok_0@ =~= Seq::<JsonView>::empty());
}

/// An item goes behind those before it, and an error leaves the array as it was.
pub proof fn law_array_element(
    array: &mut JsonVecSerializer,
    item: Result<serde_json::Value, IpcError>,
    result: Result<(), IpcError>,
)
    requires
        call_ensures(JsonVecSerializer::serialize_element, (array, item), result),
    ensures
        match item {
            Ok(value) => result is Ok && final(array)@ == old(array)@.push(json_contents(value)),
            Err(error) => result == Err::<(), IpcError>(error) && final(array)@ == old(array)@,
        },
{
}

/// A field of a tuple struct goes behind those before it, and an error leaves the
/// array as it was.
pub proof fn law_array_field(
    array: &mut JsonVecSerializer,
    item: Result<serde_json::Value, IpcError>,
    result: Result<(), IpcError>,
)
    requires
        call_ensures(JsonVecSerializer::serialize_field, (array, item), result),
    ensures
        match item {
            Ok(value) => result is Ok && final(array)@ == old(array)@.push(json_contents(value)),
            Err(error) => result == Err::<(), IpcError>(error) && final(array)@ == old(array)@,
        },
{
}

/// At its end an array holds its items.
pub proof fn law_array_end(array: JsonVecSerializer, result: Result<serde_json::Value, IpcError>)
    requires
        call_ensures(JsonVecSerializer::end, (array,), result),
    ensures
        result matches Ok(value) && json_contents(value) == JsonView::Array(array@),
{
}

/// A tuple variant starts without fields.
pub proof fn law_tuple_variant_start(
    name: &str,
    index: u32,
    variant: &'static str,
    len: usize,
    result: Result<JsonTupleVariantSerializer, IpcError>,
)
    requires
        call_ensures(
            IpcResponseSerializer::serialize_tuple_variant,
            (IpcResponseSerializer, name, index, variant, len),
            result,
        ),
    ensures
        result matches Ok(tuple) && tuple@ == Seq::<JsonView>::empty() && tuple.tag() == variant@,
{
    assert(result->Ok_0@ =~= Seq::<JsonView>::empty());
}

/// A field of a tuple variant goes behind those before it, and an error leaves the
/// fields as they were. The name of the variant stays.
pub proof fn law_tuple_variant_field(
    tuple: &mut JsonTupleVariantSerializer,
    item: Result<serde_json::Value, IpcError>,
    result: Result<(), IpcError>,
)
    requires
        call_ensures(JsonTupleVariantSerializer::serialize_field, (tuple, item), result),
    ensures
        final(tuple).tag() == old(tuple).tag(),
        match item {
            Ok(value) => result is Ok && final(tuple)@ == old(tuple)@.push(json_contents(value)),
            Err(error) => result == Err::<(), IpcError>(error) && final(tuple)@ == old(tuple)@,
        },
{
}

/// At its end a tuple variant is an object whose only member has the name of the
/// variant and is the array of its fields.
pub proof fn law_tuple_variant_end(
    tuple: JsonTupleVariantSerializer,
    result: Result<serde_json::Value, IpcError>,
)
    requires
        call_ensures(JsonTupleVariantSerializer::end, (tuple,), result),
    ensures
        result matches Ok(value) && json_contents(value) matches JsonView::Object(members)
            && members.dom() == set![tuple.tag()] && members[tuple.tag()] == JsonView::Array(
            tuple@,
        ),
{
    assert(json_contents(result->Ok_0)->Object_0.dom() =~= set![tuple.tag()]);
}

/// Every object starts without members and without a key, whatever length is
/// announced.
pub proof fn law_objects_start_empty(
    len: Option<usize>,
    count: usize,
    name: &str,
    map: Result<JsonMapSerializer, IpcError>,
    record: Result<JsonMapSerializer, IpcError>,
)
    requires
        call_ensures(IpcResponseSerializer::serialize_map, (IpcResponseSerializer, len), map),
        call_ensures(
            IpcResponseSerializer::serialize_struct,
            (IpcResponseSerializer, name, count),
            record,
        ),
    ensures
        map matches Ok(object) && object@ == Map::<Seq<char>, JsonView>::empty()
            && object.pending_key() is None,
        record matches Ok(object) && object@ == Map::<Seq<char>, JsonView>::empty()
            && object.pending_key() is None,
        no_members() == Map::<Seq<char>, JsonView>::empty(),
{
}

/// The text of a key: a text is itself, a number is its text, a bool and null are
/// their names, and an array or object is refused.
pub proof fn law_key_text(
    key: Result<serde_json::Value, IpcError>,
    result: Result<String, IpcError>,
)
    requires
        call_ensures(JsonMapSerializer::serialize_key_to_string, (key,), result),
    ensures
        match key {
            Ok(value) => match json_contents(value) {
                JsonView::String(text) => result matches Ok(s) && s@ == text,
                JsonView::Number(NumberView::Int(i)) => result matches Ok(s) && s@ == decimal(i),
                JsonView::Number(NumberView::Float(bits)) => result matches Ok(s) && s@
                    == float_text(bits),
                JsonView::Bool(b) => result matches Ok(s) && s@ == (if b {
                    "true"@
                } else {
                    "false"@
                }),
                JsonView::Null => result matches Ok(s) && s@ == "null"@,
                JsonView::Array(_) => result == Err::<String, IpcError>(IpcError::InvalidMapKey),
                JsonView::Object(_) => result == Err::<String, IpcError>(IpcError::InvalidMapKey),
            },
            Err(error) => result == Err::<String, IpcError>(error),
        },
{
}

/// A key is the next one exactly where it has a text, and that text is the key; a
/// key without one leaves the key before it. Members stay as they were.
pub proof fn law_object_key(
    object: &mut JsonMapSerializer,
    key: Result<serde_json::Value, IpcError>,
    result: Result<(), IpcError>,
    text: Result<String, IpcError>,
)
    requires
        call_ensures(JsonMapSerializer::serialize_key, (object, key), result),
        call_ensures(JsonMapSerializer::serialize_key_to_string, (key,), text),
    ensures
        final(object)@ == old(object)@,
        match text {
            Ok(s) => result is Ok && final(object).pending_key() == Some(s@),
            Err(error) => result == Err::<(), IpcError>(error) && final(object).pending_key()
                == old(object).pending_key(),
        },
{
}

/// A value becomes a member under the key before it, in place of one of the same
/// key, and uses up the key. An error leaves the members as they were, and so does
/// a value without a key, which is an error of its own.
pub proof fn law_object_value<F: FnOnce() -> Result<serde_json::Value, IpcError>>(
    object: &mut JsonMapSerializer,
    value: F,
    result: Result<(), IpcError>,
)
    requires
        call_ensures(JsonMapSerializer::serialize_value::<F>, (object, value), result),
    ensures
        final(object).pending_key() is None,
        match old(object).pending_key() {
            Some(key) => exists|given: Result<serde_json::Value, IpcError>| #[trigger]
                call_ensures(value, (), given) && match given {
                    Ok(v) => result is Ok && final(object)@ == old(object)@.insert(
                        key,
                        json_contents(v),
                    ),
                    Err(error) => result == Err::<(), IpcError>(error) && final(object)@ == old(
                        object,
                    )@,
                },
            None => result == Err::<(), IpcError>(IpcError::ValueBeforeKey) && final(object)@
                == old(object)@,
        },
{
}

/// Without a key any value can be handed over, also one that cannot be serialized:
/// it is not looked at. With a key, any that can be serialized.
pub proof fn law_object_value_is_looked_at_with_a_key<
    F: FnOnce() -> Result<serde_json::Value, IpcError>,
>(object: &mut JsonMapSerializer, value: F)
    requires
        old(object).pending_key() is None || call_requires(value, ()),
    ensures
        call_requires(JsonMapSerializer::serialize_value::<F>, (object, value)),
{
}

/// A field of a struct becomes a member under its name, in place of one of the
/// same name. An error leaves the members as they were.
pub proof fn law_object_field(
    object: &mut JsonMapSerializer,
    name: &str,
    value: Result<serde_json::Value, IpcError>,
    result: Result<(), IpcError>,
)
    requires
        call_ensures(JsonMapSerializer::serialize_field, (object, name, value), result),
    ensures
        final(object).pending_key() == old(object).pending_key(),
        match value {
            Ok(v) => result is Ok && final(object)@ == old(object)@.insert(name@, json_contents(v)),
            Err(error) => result == Err::<(), IpcError>(error) && final(object)@ == old(object)@,
        },
{
}

/// At its end an object holds its members.
pub proof fn law_object_end(object: JsonMapSerializer, result: Result<serde_json::Value, IpcError>)
    requires
        call_ensures(JsonMapSerializer::end, (object,), result),
    ensures
        result matches Ok(value) && json_contents(value) == JsonView::Object(object@),
{
}

/// A struct variant starts without fields.
pub proof fn law_struct_variant_start(
    name: &str,
    index: u32,
    variant: &'static str,
    len: usize,
    result: Result<JsonStructVariantSerializer, IpcError>,
)
    requires
        call_ensures(
            IpcResponseSerializer::serialize_struct_variant,
            (IpcResponseSerializer, name, index, variant, len),
            result,
        ),
    ensures
        result matches Ok(record) && record@ == Map::<Seq<char>, JsonView>::empty() && record.tag()
            == variant@,
{
}

/// A field of a struct variant becomes a member under its name, in place of one of
/// the same name. An error leaves the members as they were. The name of the variant
/// stays.
pub proof fn law_struct_variant_field(
    record: &mut JsonStructVariantSerializer,
    name: &str,
    value: Result<serde_json::Value, IpcError>,
    result: Result<(), IpcError>,
)
    requires
        call_ensures(JsonStructVariantSerializer::serialize_field, (record, name, value), result),
    ensures
        final(record).tag() == old(record).tag(),
        match value {
            Ok(v) => result is Ok && final(record)@ == old(record)@.insert(name@, json_contents(v)),
            Err(error) => result == Err::<(), IpcError>(error) && final(record)@ == old(record)@,
        },
{
}

/// At its end a struct variant is an object whose only member has the name of the
/// variant and is the object of its fields.
pub proof fn law_struct_variant_end(
    record: JsonStructVariantSerializer,
    result: Result<serde_json::Value, IpcError>,
)
    requires
        call_ensures(JsonStructVariantSerializer::end, (record,), result),
    ensures
        result matches Ok(value) && json_contents(value) matches JsonView::Object(members)
            && members.dom() == set![record.tag()] && members[record.tag()] == JsonView::Object(
            record@,
        ),
{
    assert(json_contents(result->Ok_0)->Object_0.dom() =~= set![record.tag()]);
}

} // verus!
