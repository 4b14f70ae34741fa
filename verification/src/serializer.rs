//! The serializer of IPC responses: how each kind of value becomes JSON.
//!
//! Its methods are those of a `serde` serializer. Where `serde` would hand over
//! a value that is still to be serialized, they take what serializing it gave.

use crate::bigint::{
    bigint_value, finite_f64_value, integer_view, is_infinite, is_nan, is_sign_negative,
    is_unsafe_js_integer, non_finite_bigint_value, non_finite_view, INFINITY_BITS,
    JS_MAX_SAFE_INT, SIGN_BIT,
};
use crate::decimal::{integer_text, natural_text};
use crate::error::{fails, yields, IpcError};
use crate::json::{
    array_contents, build, bytes_to_array, bytes_view, inspect, json_contents, map_contents,
    map_insert, map_new, map_with_capacity, no_members, number_contents, number_from_i64,
    number_from_u64, number_text, number_to_string, JsonNode, JsonView,
};
use vstd::prelude::*;

verus! {

/// The number of items beyond which no room is reserved ahead.
const MAX_RESERVED: usize = 4096;

/// An object with a single member.
pub open spec fn tagged_view(tag: Seq<char>, content: JsonView) -> JsonView {
    JsonView::Object(map![tag => content])
}

/// The text of a map key that was serialized to the given tree, if it has one.
pub open spec fn key_text(key: JsonView) -> Option<Seq<char>> {
    match key {
        JsonView::String(text) => Some(text),
        JsonView::Number(number) => Some(number_text(number)),
        JsonView::Bool(true) => Some("true"@),
        JsonView::Bool(false) => Some("false"@),
        JsonView::Null => Some("null"@),
        _ => None,
    }
}

/// Makes an object with a single member.
fn tagged_value(tag: &str, content: serde_json::Value) -> (value: serde_json::Value)
    ensures
        json_contents(value) == tagged_view(tag@, json_contents(content)),
{
    let mut object = map_new();
    map_insert(&mut object, tag.to_string(), content);
    build(JsonNode::Object(object))
}

/// Turns values into JSON, with numbers that JavaScript cannot hold written as
/// objects.
pub struct IpcResponseSerializer;

impl IpcResponseSerializer {
    pub fn serialize_bool(self, v: bool) -> (result: Result<serde_json::Value, IpcError>)
        ensures
            yields(result, JsonView::Bool(v)),
    {
        Ok(build(JsonNode::Bool(v)))
    }

    pub fn serialize_i8(self, v: i8) -> (result: Result<serde_json::Value, IpcError>)
        ensures
            yields(result, integer_view(v as int)),
    {
        Ok(build(JsonNode::Number(number_from_i64(i64::from(v)))))
    }

    pub fn serialize_i16(self, v: i16) -> (result: Result<serde_json::Value, IpcError>)
        ensures
            yields(result, integer_view(v as int)),
    {
        Ok(build(JsonNode::Number(number_from_i64(i64::from(v)))))
    }

    pub fn serialize_i32(self, v: i32) -> (result: Result<serde_json::Value, IpcError>)
        ensures
            yields(result, integer_view(v as int)),
    {
        Ok(build(JsonNode::Number(number_from_i64(i64::from(v)))))
    }

    pub fn serialize_i64(self, v: i64) -> (result: Result<serde_json::Value, IpcError>)
        ensures
            yields(result, integer_view(v as int)),
    {
        if is_unsafe_js_integer(i128::from(v)) {
            Ok(bigint_value(integer_text(i128::from(v))))
        } else {
            Ok(build(JsonNode::Number(number_from_i64(v))))
        }
    }

    pub fn serialize_i128(self, v: i128) -> (result: Result<serde_json::Value, IpcError>)
        ensures
            yields(result, integer_view(v as int)),
    {
        if is_unsafe_js_integer(v) {
            Ok(bigint_value(integer_text(v)))
        } else {
            Ok(build(JsonNode::Number(number_from_i64(v as i64))))
        }
    }

    pub fn serialize_u8(self, v: u8) -> (result: Result<serde_json::Value, IpcError>)
        ensures
            yields(result, integer_view(v as int)),
    {
        Ok(build(JsonNode::Number(number_from_u64(u64::from(v)))))
    }

    pub fn serialize_u16(self, v: u16) -> (result: Result<serde_json::Value, IpcError>)
        ensures
            yields(result, integer_view(v as int)),
    {
        Ok(build(JsonNode::Number(number_from_u64(u64::from(v)))))
    }

    pub fn serialize_u32(self, v: u32) -> (result: Result<serde_json::Value, IpcError>)
        ensures
            yields(result, integer_view(v as int)),
    {
        Ok(build(JsonNode::Number(number_from_u64(u64::from(v)))))
    }

    pub fn serialize_u64(self, v: u64) -> (result: Result<serde_json::Value, IpcError>)
        ensures
            yields(result, integer_view(v as int)),
    {
        if v as i128 > JS_MAX_SAFE_INT {
            Ok(bigint_value(natural_text(u128::from(v))))
        } else {
            Ok(build(JsonNode::Number(number_from_u64(v))))
        }
    }

    pub fn serialize_u128(self, v: u128) -> (result: Result<serde_json::Value, IpcError>)
        ensures
            yields(result, integer_view(v as int)),
    {
        if v > JS_MAX_SAFE_INT as u128 {
            Ok(bigint_value(natural_text(v)))
        } else {
            Ok(build(JsonNode::Number(number_from_u64(v as u64))))
        }
    }

    /// Serializes a floating point number, given by its bits and by what
    /// `serde_json::Number::from_f64` made of it.
    pub fn serialize_f64(self, bits: u64, number: Option<serde_json::Number>) -> (result: Result<
        serde_json::Value,
        IpcError,
    >)
        ensures
            is_nan(bits) ==> yields(result, non_finite_view("$bigint_nan"@, false)),
            is_infinite(bits) ==> yields(
                result,
                non_finite_view("$bigint_infinity"@, is_sign_negative(bits)),
            ),
            !is_nan(bits) && !is_infinite(bits) ==> match number {
                Some(n) => yields(result, JsonView::Number(number_contents(n))),
                None => fails(result, IpcError::InvalidFloat),
            },
    {
        let negative = bits >= SIGN_BIT;
        let magnitude: u64 = if negative {
            bits - SIGN_BIT
        } else {
            bits
        };
        if magnitude > INFINITY_BITS {
            Ok(non_finite_bigint_value("$bigint_nan", false))
        } else if magnitude == INFINITY_BITS {
            Ok(non_finite_bigint_value("$bigint_infinity", negative))
        } else {
            finite_f64_value(number)
        }
    }

    pub fn serialize_char(self, v: char) -> (result: Result<serde_json::Value, IpcError>)
        ensures
            yields(result, JsonView::String(seq![v])),
    {
        let mut text = String::new();
        text.push(v);
        assert(text@ =~= seq![v]);
        Ok(build(JsonNode::String(text)))
    }

    pub fn serialize_str(self, v: &str) -> (result: Result<serde_json::Value, IpcError>)
        ensures
            yields(result, JsonView::String(v@)),
    {
        Ok(build(JsonNode::String(v.to_string())))
    }

    pub fn serialize_bytes(self, v: &[u8]) -> (result: Result<serde_json::Value, IpcError>)
        ensures
            yields(result, bytes_view(v@)),
    {
        Ok(bytes_to_array(v))
    }

    pub fn serialize_none(self) -> (result: Result<serde_json::Value, IpcError>)
        ensures
            yields(result, JsonView::Null),
    {
        Ok(build(JsonNode::Null))
    }

    pub fn serialize_some(self, value: Result<serde_json::Value, IpcError>) -> (result: Result<
        serde_json::Value,
        IpcError,
    >)
        ensures
            result == value,
    {
        value
    }

    pub fn serialize_unit(self) -> (result: Result<serde_json::Value, IpcError>)
        ensures
            yields(result, JsonView::Null),
    {
        Ok(build(JsonNode::Null))
    }

    pub fn serialize_unit_struct(self, _name: &str) -> (result: Result<
        serde_json::Value,
        IpcError,
    >)
        ensures
            yields(result, JsonView::Null),
    {
        Ok(build(JsonNode::Null))
    }

    pub fn serialize_unit_variant(
        self,
        _name: &str,
        _variant_index: u32,
        variant: &str,
    ) -> (result: Result<serde_json::Value, IpcError>)
        ensures
            yields(result, JsonView::String(variant@)),
    {
        Ok(build(JsonNode::String(variant.to_string())))
    }

    pub fn serialize_newtype_struct(
        self,
        _name: &str,
        value: Result<serde_json::Value, IpcError>,
    ) -> (result: Result<serde_json::Value, IpcError>)
        ensures
            result == value,
    {
        value
    }

    pub fn serialize_newtype_variant(
        self,
        _name: &str,
        _variant_index: u32,
        variant: &str,
        value: Result<serde_json::Value, IpcError>,
    ) -> (result: Result<serde_json::Value, IpcError>)
        ensures
            match value {
                Ok(v) => yields(result, tagged_view(variant@, json_contents(v))),
                Err(e) => fails(result, e),
            },
    {
        Ok(tagged_value(variant, value?))
    }

    /// Starts an array. The length is a hint only.
    pub fn serialize_seq(self, len: Option<usize>) -> (result: Result<JsonVecSerializer, IpcError>)
        ensures
            result matches Ok(array) && array@.len() == 0,
    {
        let items: Vec<serde_json::Value> = Vec::with_capacity(reserved(len));
        assert(array_contents(items@).len() == 0);
        Ok(JsonVecSerializer(items))
    }

    pub fn serialize_tuple(self, len: usize) -> (result: Result<JsonVecSerializer, IpcError>)
        ensures
            result matches Ok(array) && array@.len() == 0,
    {
        self.serialize_seq(Some(len))
    }

    pub fn serialize_tuple_struct(self, _name: &str, len: usize) -> (result: Result<
        JsonVecSerializer,
        IpcError,
    >)
        ensures
            result matches Ok(array) && array@.len() == 0,
    {
        self.serialize_seq(Some(len))
    }

    pub fn serialize_tuple_variant(
        self,
        _name: &str,
        _variant_index: u32,
        variant: &'static str,
        len: usize,
    ) -> (result: Result<JsonTupleVariantSerializer, IpcError>)
        ensures
            result matches Ok(variant_array) && variant_array.tag() == variant@
                && variant_array@.len() == 0,
    {
        let values: Vec<serde_json::Value> = Vec::with_capacity(reserved(Some(len)));
        assert(array_contents(values@).len() == 0);
        Ok(JsonTupleVariantSerializer { name: variant, values })
    }

    /// Starts an object. The length is a hint only.
    pub fn serialize_map(self, len: Option<usize>) -> (result: Result<JsonMapSerializer, IpcError>)
        ensures
            result matches Ok(object) && object@ == no_members() && object.pending_key() is None,
    {
        let capacity: usize = match len {
            Some(n) => n,
            None => 0,
        };
        Ok(JsonMapSerializer { map: map_with_capacity(capacity), next_key: None })
    }

    pub fn serialize_struct(self, _name: &str, len: usize) -> (result: Result<
        JsonMapSerializer,
        IpcError,
    >)
        ensures
            result matches Ok(object) && object@ == no_members() && object.pending_key() is None,
    {
        self.serialize_map(Some(len))
    }

    pub fn serialize_struct_variant(
        self,
        _name: &str,
        _variant_index: u32,
        variant: &'static str,
        len: usize,
    ) -> (result: Result<JsonStructVariantSerializer, IpcError>)
        ensures
            result matches Ok(variant_object) && variant_object.tag() == variant@
                && variant_object@ == no_members(),
    {
        Ok(JsonStructVariantSerializer { name: variant, map: map_with_capacity(len) })
    }
}

/// The room to reserve for the announced number of items: no more than a
/// bounded amount, since the number need not be right.
fn reserved(len: Option<usize>) -> (room: usize)
    ensures
        room == match len {
            Some(n) => if n < MAX_RESERVED {
                n
            } else {
                MAX_RESERVED
            },
            None => 0,
        },
{
    match len {
        Some(n) => if n < MAX_RESERVED {
            n
        } else {
            MAX_RESERVED
        },
        None => 0,
    }
}

/// An array under construction.
pub struct JsonVecSerializer(Vec<serde_json::Value>);

impl View for JsonVecSerializer {
    type V = Seq<JsonView>;

    /// The items so far.
    closed spec fn view(&self) -> Seq<JsonView> {
        array_contents(self.0@)
    }
}

impl JsonVecSerializer {
    /// Appends an item, or hands on the error that it gave.
    pub fn serialize_element(&mut self, value: Result<serde_json::Value, IpcError>) -> (result:
        Result<(), IpcError>)
        ensures
            match value {
                Ok(v) => result is Ok && final(self)@ == old(self)@.push(json_contents(v)),
                Err(e) => fails(result, e) && final(self)@ == old(self)@,
            },
    {
        self.0.push(value?);
        assert(self@ =~= old(self)@.push(json_contents(value->Ok_0)));
        Ok(())
    }

    /// Appends a field of a tuple struct, or hands on the error that it gave.
    pub fn serialize_field(&mut self, value: Result<serde_json::Value, IpcError>) -> (result:
        Result<(), IpcError>)
        ensures
            match value {
                Ok(v) => result is Ok && final(self)@ == old(self)@.push(json_contents(v)),
                Err(e) => fails(result, e) && final(self)@ == old(self)@,
            },
    {
        self.serialize_element(value)
    }

    pub fn end(self) -> (result: Result<serde_json::Value, IpcError>)
        ensures
            yields(result, JsonView::Array(self@)),
    {
        Ok(build(JsonNode::Array(self.0)))
    }
}

/// The array of a tuple variant under construction.
pub struct JsonTupleVariantSerializer {
    name: &'static str,
    values: Vec<serde_json::Value>,
}

impl View for JsonTupleVariantSerializer {
    type V = Seq<JsonView>;

    /// The fields so far.
    closed spec fn view(&self) -> Seq<JsonView> {
        array_contents(self.values@)
    }
}

impl JsonTupleVariantSerializer {
    /// The name of the variant.
    pub closed spec fn tag(self) -> Seq<char> {
        self.name@
    }

    /// Appends a field, or hands on the error that it gave.
    pub fn serialize_field(&mut self, value: Result<serde_json::Value, IpcError>) -> (result:
        Result<(), IpcError>)
        ensures
            final(self).tag() == old(self).tag(),
            match value {
                Ok(v) => result is Ok && final(self)@ == old(self)@.push(json_contents(v)),
                Err(e) => fails(result, e) && final(self)@ == old(self)@,
            },
    {
        self.values.push(value?);
        assert(self@ =~= old(self)@.push(json_contents(value->Ok_0)));
        Ok(())
    }

    pub fn end(self) -> (result: Result<serde_json::Value, IpcError>)
        ensures
            yields(result, tagged_view(self.tag(), JsonView::Array(self@))),
    {
        Ok(tagged_value(self.name, build(JsonNode::Array(self.values))))
    }
}

/// An object under construction.
pub struct JsonMapSerializer {
    map: serde_json::Map<String, serde_json::Value>,
    next_key: Option<String>,
}

impl View for JsonMapSerializer {
    type V = Map<Seq<char>, JsonView>;

    /// The members so far.
    closed spec fn view(&self) -> Map<Seq<char>, JsonView> {
        map_contents(self.map)
    }
}

impl JsonMapSerializer {
    /// The key that the next value is for.
    pub closed spec fn pending_key(self) -> Option<Seq<char>> {
        match self.next_key {
            Some(key) => Some(key@),
            None => None,
        }
    }

    /// The text of a map key, given what serializing the key gave. Keys of JSON
    /// objects are strings, so only a key with a text of its own will do.
    pub fn serialize_key_to_string(key: Result<serde_json::Value, IpcError>) -> (result: Result<
        String,
        IpcError,
    >)
        ensures
            match key {
                Ok(k) => match key_text(json_contents(k)) {
                    Some(text) => result matches Ok(s) && s@ == text,
                    None => fails(result, IpcError::InvalidMapKey),
                },
                Err(e) => fails(result, e),
            },
    {
        match inspect(key?) {
            JsonNode::String(key) => Ok(key),
            JsonNode::Number(key) => Ok(number_to_string(&key)),
            JsonNode::Bool(key) => if key {
                Ok("true".to_string())
            } else {
                Ok("false".to_string())
            },
            JsonNode::Null => Ok("null".to_string()),
            _ => Err(IpcError::InvalidMapKey),
        }
    }

    /// Sets the key that the next value is for.
    pub fn serialize_key(&mut self, key: Result<serde_json::Value, IpcError>) -> (result: Result<
        (),
        IpcError,
    >)
        ensures
            final(self)@ == old(self)@,
            match key {
                Ok(k) => match key_text(json_contents(k)) {
                    Some(text) => result is Ok && final(self).pending_key() == Some(text),
                    None => fails(result, IpcError::InvalidMapKey) && final(self).pending_key()
                        == old(self).pending_key(),
                },
                Err(e) => fails(result, e) && final(self).pending_key() == old(
                    self,
                ).pending_key(),
            },
    {
        self.next_key = Some(Self::serialize_key_to_string(key)?);
        Ok(())
    }

    /// Takes the key that the next value is for.
    fn take_key(&mut self) -> (result: Result<String, IpcError>)
        ensures
            final(self)@ == old(self)@,
            final(self).pending_key() is None,
            match old(self).pending_key() {
                Some(key) => result matches Ok(s) && s@ == key,
                None => fails(result, IpcError::ValueBeforeKey),
            },
    {
        match self.next_key.take() {
            Some(key) => Ok(key),
            None => Err(IpcError::ValueBeforeKey),
        }
    }

    /// Adds a member with the key that was set. Its value is serialized only
    /// where there is such a key. The key is used up, also where the value is an
    /// error.
    pub fn serialize_value<F: FnOnce() -> Result<serde_json::Value, IpcError>>(
        &mut self,
        value: F,
    ) -> (result: Result<(), IpcError>)
        requires
            old(self).pending_key() is Some ==> call_requires(value, ()),
        ensures
            final(self).pending_key() is None,
            match old(self).pending_key() {
                Some(key) => exists|given: Result<serde_json::Value, IpcError>| #[trigger]
                    call_ensures(value, (), given) && match given {
                        Ok(v) => result is Ok && final(self)@ == old(self)@.insert(
                            key,
                            json_contents(v),
                        ),
                        Err(e) => fails(result, e) && final(self)@ == old(self)@,
                    },
                None => fails(result, IpcError::ValueBeforeKey) && final(self)@ == old(self)@,
            },
    {
        let key = self.take_key()?;
        let given = value();
        assert(call_ensures(value, (), given));
        map_insert(&mut self.map, key, given?);
        Ok(())
    }

    /// Adds a field of a struct, or hands on the error that it gave.
    pub fn serialize_field(&mut self, key: &str, value: Result<serde_json::Value, IpcError>) -> (
    result: Result<(), IpcError>)
        ensures
            final(self).pending_key() == old(self).pending_key(),
            match value {
                Ok(v) => result is Ok && final(self)@ == old(self)@.insert(key@, json_contents(v)),
                Err(e) => fails(result, e) && final(self)@ == old(self)@,
            },
    {
        map_insert(&mut self.map, key.to_string(), value?);
        Ok(())
    }

    pub fn end(self) -> (result: Result<serde_json::Value, IpcError>)
        ensures
            yields(result, JsonView::Object(self@)),
    {
        Ok(build(JsonNode::Object(self.map)))
    }
}

/// The object of a struct variant under construction.
pub struct JsonStructVariantSerializer {
    name: &'static str,
    map: serde_json::Map<String, serde_json::Value>,
}

impl View for JsonStructVariantSerializer {
    type V = Map<Seq<char>, JsonView>;

    /// The fields so far.
    closed spec fn view(&self) -> Map<Seq<char>, JsonView> {
        map_contents(self.map)
    }
}

impl JsonStructVariantSerializer {
    /// The name of the variant.
    pub closed spec fn tag(self) -> Seq<char> {
        self.name@
    }

    /// Adds a field, or hands on the error that it gave.
    pub fn serialize_field(&mut self, key: &str, value: Result<serde_json::Value, IpcError>) -> (
    result: Result<(), IpcError>)
        ensures
            final(self).tag() == old(self).tag(),
            match value {
                Ok(v) => result is Ok && final(self)@ == old(self)@.insert(key@, json_contents(v)),
                Err(e) => fails(result, e) && final(self)@ == old(self)@,
            },
    {
        map_insert(&mut self.map, key.to_string(), value?);
        Ok(())
    }

    pub fn end(self) -> (result: Result<serde_json::Value, IpcError>)
        ensures
            yields(result, tagged_view(self.tag(), JsonView::Object(self@))),
    {
        Ok(tagged_value(self.name, build(JsonNode::Object(self.map))))
    }
}

} // verus!
