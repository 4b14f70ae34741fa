//! Numbers that a JavaScript number cannot hold, and how they are written
//! instead.
//!
//! An integer beyond the safe range is written as an object whose `$bigint`
//! member is its decimal text. Infinities and NaN are written as an object
//! whose members are flags, all of them true.

use crate::decimal::decimal;
use crate::error::{fails, yields, IpcError};
use crate::json::{
    build, json_contents, map_insert, map_new, number_contents, JsonNode, JsonView, NumberView,
};
use vstd::prelude::*;

verus! {

/// The largest integer of which JavaScript represents it and all smaller ones
/// exactly.
pub const JS_MAX_SAFE_INT: i128 = 9_007_199_254_740_991;

/// The bits of the positive infinity; those of a NaN, without the sign, are
/// greater.
pub const INFINITY_BITS: u64 = 0x7ff0_0000_0000_0000;

/// The weight of the sign bit of a floating point number.
pub const SIGN_BIT: u64 = 0x8000_0000_0000_0000;

/// Whether JavaScript represents this integer and its neighbours exactly.
pub open spec fn is_js_safe(i: int) -> bool {
    -JS_MAX_SAFE_INT <= i <= JS_MAX_SAFE_INT
}

/// The object that stands for an integer with the given decimal text.
pub open spec fn bigint_view(text: Seq<char>) -> JsonView {
    JsonView::Object(map!["$bigint"@ => JsonView::String(text)])
}

/// How an integer is written: as a number where that is exact, else as its
/// decimal text.
pub open spec fn integer_view(i: int) -> JsonView {
    if is_js_safe(i) {
        JsonView::Number(NumberView::Int(i))
    } else {
        bigint_view(decimal(i))
    }
}

/// The flags that describe a floating point number that is not finite.
pub open spec fn non_finite_flags(kind: Seq<char>, negative: bool) -> Set<Seq<char>> {
    let flags = set!["$bigint"@, kind];
    if !negative {
        flags
    } else if kind == "$bigint_infinity"@ {
        flags.insert("$bigint_negative"@).insert("$bigint_negative_infinity"@)
    } else {
        flags.insert("$bigint_negative"@)
    }
}

/// The object that stands for a floating point number that is not finite.
pub open spec fn non_finite_view(kind: Seq<char>, negative: bool) -> JsonView {
    JsonView::Object(non_finite_flags(kind, negative).mk_map(|flag: Seq<char>| JsonView::Bool(true)))
}

/// The bits of a floating point number without its sign.
pub open spec fn magnitude_bits(bits: u64) -> u64 {
    if bits >= SIGN_BIT {
        (bits - SIGN_BIT) as u64
    } else {
        bits
    }
}

/// Whether these are the bits of a NaN.
pub open spec fn is_nan(bits: u64) -> bool {
    magnitude_bits(bits) > INFINITY_BITS
}

/// Whether these are the bits of one of the two infinities.
pub open spec fn is_infinite(bits: u64) -> bool {
    magnitude_bits(bits) == INFINITY_BITS
}

/// Whether the sign bit is set.
pub open spec fn is_sign_negative(bits: u64) -> bool {
    bits >= SIGN_BIT
}

/// Writes an integer, given by its decimal text, as an object.
pub fn bigint_value(text: String) -> (value: serde_json::Value)
    ensures
        json_contents(value) == bigint_view(text@),
{
    let mut object = map_new();
    map_insert(&mut object, "$bigint".to_string(), build(JsonNode::String(text)));
    build(JsonNode::Object(object))
}

/// Whether an integer is beyond those that JavaScript represents exactly.
pub fn is_unsafe_js_integer(value: i128) -> (result: bool)
    ensures
        result == !is_js_safe(value as int),
{
    !(-JS_MAX_SAFE_INT <= value && value <= JS_MAX_SAFE_INT)
}

/// Writes a floating point number that is not finite as an object of flags.
pub fn non_finite_bigint_value(kind: &str, negative: bool) -> (value: serde_json::Value)
    ensures
        json_contents(value) == non_finite_view(kind@, negative),
{
    let mut object = map_new();
    map_insert(&mut object, "$bigint".to_string(), build(JsonNode::Bool(true)));
    map_insert(&mut object, kind.to_string(), build(JsonNode::Bool(true)));
    if negative {
        map_insert(&mut object, "$bigint_negative".to_string(), build(JsonNode::Bool(true)));
        if kind.to_string() == "$bigint_infinity".to_string() {
            map_insert(
                &mut object,
                "$bigint_negative_infinity".to_string(),
                build(JsonNode::Bool(true)),
            );
        }
    }
    let value = build(JsonNode::Object(object));
    assert(json_contents(value)->Object_0 =~= non_finite_view(kind@, negative)->Object_0);
    value
}

/// Writes a floating point number, given what `serde_json::Number::from_f64`
/// made of it: a number if it is finite.
pub fn finite_f64_value(number: Option<serde_json::Number>) -> (result: Result<
    serde_json::Value,
    IpcError,
>)
    ensures
        match number {
            Some(n) => yields(result, JsonView::Number(number_contents(n))),
            None => fails(result, IpcError::InvalidFloat),
        },
{
    match number {
        Some(n) => Ok(build(JsonNode::Number(n))),
        None => Err(IpcError::InvalidFloat),
    }
}

} // verus!
