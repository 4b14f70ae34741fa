//! What becomes of numbers.

use crate::bigint::{
    bigint_value, finite_f64_value, is_unsafe_js_integer, non_finite_bigint_value,
};
use crate::body::{InvokeResponseBody, IpcResponse, Serialized};
use crate::decimal::{
    decimal, decimal_value, digits_value, integer_text, law_decimal_denotes, natural_text,
};
use crate::error::IpcError;
use crate::json::{json_contents, nesting_limit, number_contents, reads_back, JsonView, NumberView};
use crate::serializer::IpcResponseSerializer;
use vstd::prelude::*;

verus! {

/// The decimal text of an integer: one digit below ten; above, the text of the
/// number without its last digit, and that digit; for a negative one, a minus
/// sign and the text of its magnitude.
pub proof fn law_decimal_digits(i: int)
    ensures
        0 <= i < 10 ==> decimal(i) == seq![(48 + i) as char],
        i >= 10 ==> decimal(i) == decimal(i / 10).push((48 + i % 10) as char),
        i < 0 ==> decimal(i) == seq!['-'] + decimal(-i),
{
}

/// The value of a decimal text is that of its digits in base ten, with the sign
/// in front.
pub proof fn law_decimal_value(text: Seq<char>, c: char)
    ensures
        digits_value(Seq::<char>::empty()) == 0,
        digits_value(text.push(c)) == 10 * digits_value(text) + (c as int - 48),
        decimal_value(seq!['-'] + text) == -digits_value(text),
        text.len() > 0 && text[0] != '-' ==> decimal_value(text) == digits_value(text),
{
    assert(text.push(c).drop_last() =~= text);
    assert((seq!['-'] + text).drop_first() =~= text);
}

/// Decimal text is made of digits, after a minus sign where the integer is
/// negative, and has no leading zero.
pub proof fn law_decimal_is_canonical(i: int)
    ensures
        decimal(i).len() > 0,
        decimal(i)[0] == '-' <==> i < 0,
        i < 0 ==> decimal(i).len() > 1 && '1' <= decimal(i)[1] <= '9',
        i > 0 ==> '1' <= decimal(i)[0] <= '9',
        forall|k: int|
            0 <= k < decimal(i).len() && !(k == 0 && i < 0) ==> '0' <= #[trigger] decimal(i)[k]
                <= '9',
    decreases (if i < 0 {
        -i + 1
    } else {
        i
    }),
{
    law_decimal_digits(i);
    if i < 0 {
        law_decimal_is_canonical(-i);
        let magnitude = decimal(-i);
        assert(decimal(i)[1] == magnitude[0]);
        assert forall|k: int| 1 <= k < decimal(i).len() implies '0' <= #[trigger] decimal(i)[k]
            <= '9' by {
            assert(decimal(i)[k] == magnitude[k - 1]);
        }
    } else if i >= 10 {
        law_decimal_is_canonical(i / 10);
        assert(decimal(i)[0] == decimal(i / 10)[0]);
    }
}

/// The text of an integer is its decimal text: the text that denotes it.
pub proof fn law_integer_text(i: i128, text: String)
    requires
        call_ensures(integer_text, (i,), text),
    ensures
        text@ == decimal(i as int),
        decimal_value(text@) == i,
{
    law_decimal_denotes(i as int);
}

/// The text of a natural number is its decimal text: the text that denotes it.
pub proof fn law_natural_text(n: u128, text: String)
    requires
        call_ensures(natural_text, (n,), text),
    ensures
        text@ == decimal(n as int),
        decimal_value(text@) == n,
{
    law_decimal_denotes(n as int);
}

/// An integer is unsafe exactly where its magnitude is two to the power of
/// fifty-three or more.
pub proof fn law_unsafe_integers(value: i128, result: bool)
    requires
        call_ensures(is_unsafe_js_integer, (value,), result),
    ensures
        result <==> value >= 0x20_0000_0000_0000 || value <= -0x20_0000_0000_0000,
{
}

/// The object for an integer has one member, which is the given text.
pub proof fn law_bigint_value(text: String, value: serde_json::Value)
    requires
        call_ensures(bigint_value, (text,), value),
    ensures
        json_contents(value) matches JsonView::Object(members) && members.dom() == set![
            "$bigint"@,
        ] && members["$bigint"@] == JsonView::String(text@),
{
    assert(json_contents(value)->Object_0.dom() =~= set!["$bigint"@]);
}

/// An integer in the safe range is serialized to itself, and any other to an
/// object whose only member is a text that denotes it.
pub proof fn law_serialize_i64(v: i64, result: Result<serde_json::Value, IpcError>)
    requires
        call_ensures(IpcResponseSerializer::serialize_i64, (IpcResponseSerializer, v), result),
    ensures
        result is Ok,
        -9007199254740991 <= v <= 9007199254740991 ==> json_contents(result->Ok_0)
            == JsonView::Number(NumberView::Int(v as int)),
        !(-9007199254740991 <= v <= 9007199254740991) ==> (json_contents(
            result->Ok_0,
        ) matches JsonView::Object(members) && members.dom() == set!["$bigint"@]
            && members["$bigint"@] == JsonView::String(decimal(v as int))
            && decimal_value(members["$bigint"@]->String_0) == v),
{
    law_decimal_denotes(v as int);
    if !(-9007199254740991 <= v <= 9007199254740991) {
        assert(json_contents(result->Ok_0)->Object_0.dom() =~= set!["$bigint"@]);
    }
}

/// A signed integer of any width in the safe range is serialized to itself, and
/// any other to an object whose only member is a text that denotes it.
pub proof fn law_serialize_i128(v: i128, result: Result<serde_json::Value, IpcError>)
    requires
        call_ensures(IpcResponseSerializer::serialize_i128, (IpcResponseSerializer, v), result),
    ensures
        result is Ok,
        -9007199254740991 <= v <= 9007199254740991 ==> json_contents(result->Ok_0)
            == JsonView::Number(NumberView::Int(v as int)),
        !(-9007199254740991 <= v <= 9007199254740991) ==> (json_contents(
            result->Ok_0,
        ) matches JsonView::Object(members) && members.dom() == set!["$bigint"@]
            && members["$bigint"@] == JsonView::String(decimal(v as int))
            && decimal_value(members["$bigint"@]->String_0) == v),
{
    law_decimal_denotes(v as int);
    if !(-9007199254740991 <= v <= 9007199254740991) {
        assert(json_contents(result->Ok_0)->Object_0.dom() =~= set!["$bigint"@]);
    }
}

/// An unsigned integer in the safe range is serialized to itself, and any other
/// to an object whose only member is a text that denotes it.
pub proof fn law_serialize_u64(v: u64, result: Result<serde_json::Value, IpcError>)
    requires
        call_ensures(IpcResponseSerializer::serialize_u64, (IpcResponseSerializer, v), result),
    ensures
        result is Ok,
        v <= 9007199254740991 ==> json_contents(result->Ok_0) == JsonView::Number(
            NumberView::Int(v as int),
        ),
        v > 9007199254740991 ==> (json_contents(result->Ok_0) matches JsonView::Object(members)
            && members.dom() == set!["$bigint"@]
            && members["$bigint"@] == JsonView::String(decimal(v as int))
            && decimal_value(members["$bigint"@]->String_0) == v),
{
    law_decimal_denotes(v as int);
    if v > 9007199254740991 {
        assert(json_contents(result->Ok_0)->Object_0.dom() =~= set!["$bigint"@]);
    }
}

/// An unsigned integer of any width in the safe range is serialized to itself,
/// and any other to an object whose only member is a text that denotes it.
pub proof fn law_serialize_u128(v: u128, result: Result<serde_json::Value, IpcError>)
    requires
        call_ensures(IpcResponseSerializer::serialize_u128, (IpcResponseSerializer, v), result),
    ensures
        result is Ok,
        v <= 9007199254740991 ==> json_contents(result->Ok_0) == JsonView::Number(
            NumberView::Int(v as int),
        ),
        v > 9007199254740991 ==> (json_contents(result->Ok_0) matches JsonView::Object(members)
            && members.dom() == set!["$bigint"@]
            && members["$bigint"@] == JsonView::String(decimal(v as int))
            && decimal_value(members["$bigint"@]->String_0) == v),
{
    law_decimal_denotes(v as int);
    if v > 9007199254740991 {
        assert(json_contents(result->Ok_0)->Object_0.dom() =~= set!["$bigint"@]);
    }
}

/// An integer of eight bits is serialized to itself.
pub proof fn law_serialize_8_bits(
    i: i8,
    u: u8,
    signed: Result<serde_json::Value, IpcError>,
    unsigned: Result<serde_json::Value, IpcError>,
)
    requires
        call_ensures(IpcResponseSerializer::serialize_i8, (IpcResponseSerializer, i), signed),
        call_ensures(IpcResponseSerializer::serialize_u8, (IpcResponseSerializer, u), unsigned),
    ensures
        signed matches Ok(value) && json_contents(value) == JsonView::Number(
            NumberView::Int(i as int),
        ),
        unsigned matches Ok(value) && json_contents(value) == JsonView::Number(
            NumberView::Int(u as int),
        ),
{
}

/// An integer of sixteen bits is serialized to itself.
pub proof fn law_serialize_16_bits(
    i: i16,
    u: u16,
    signed: Result<serde_json::Value, IpcError>,
    unsigned: Result<serde_json::Value, IpcError>,
)
    requires
        call_ensures(IpcResponseSerializer::serialize_i16, (IpcResponseSerializer, i), signed),
        call_ensures(IpcResponseSerializer::serialize_u16, (IpcResponseSerializer, u), unsigned),
    ensures
        signed matches Ok(value) && json_contents(value) == JsonView::Number(
            NumberView::Int(i as int),
        ),
        unsigned matches Ok(value) && json_contents(value) == JsonView::Number(
            NumberView::Int(u as int),
        ),
{
}

/// An integer of thirty-two bits is serialized to itself.
pub proof fn law_serialize_32_bits(
    i: i32,
    u: u32,
    signed: Result<serde_json::Value, IpcError>,
    unsigned: Result<serde_json::Value, IpcError>,
)
    requires
        call_ensures(IpcResponseSerializer::serialize_i32, (IpcResponseSerializer, i), signed),
        call_ensures(IpcResponseSerializer::serialize_u32, (IpcResponseSerializer, u), unsigned),
    ensures
        signed matches Ok(value) && json_contents(value) == JsonView::Number(
            NumberView::Int(i as int),
        ),
        unsigned matches Ok(value) && json_contents(value) == JsonView::Number(
            NumberView::Int(u as int),
        ),
{
}

/// A floating point number whose exponent field is not all ones is serialized to
/// the number that came with it, or to an error if none came. With an exponent of
/// all ones it is serialized to flags: those of a NaN where the mantissa is not
/// zero, else those of the infinity with its sign.
pub proof fn law_serialize_f64(
    bits: u64,
    number: Option<serde_json::Number>,
    result: Result<serde_json::Value, IpcError>,
)
    requires
        call_ensures(
            IpcResponseSerializer::serialize_f64,
            (IpcResponseSerializer, bits, number),
            result,
        ),
    ensures
        bits / 0x10_0000_0000_0000 % 0x800 != 0x7ff ==> match number {
            Some(n) => result matches Ok(value) && json_contents(value) == JsonView::Number(
                number_contents(n),
            ),
            None => result == Err::<serde_json::Value, IpcError>(IpcError::InvalidFloat),
        },
        bits / 0x10_0000_0000_0000 % 0x800 == 0x7ff ==> (result matches Ok(value)
            && json_contents(value) matches JsonView::Object(members) && members.dom() == (
        if bits % 0x10_0000_0000_0000 != 0 {
            set!["$bigint"@, "$bigint_nan"@]
        } else if bits < 0x8000_0000_0000_0000 {
            set!["$bigint"@, "$bigint_infinity"@]
        } else {
            set![
                "$bigint"@,
                "$bigint_infinity"@,
                "$bigint_negative"@,
                "$bigint_negative_infinity"@,
            ]
        }) && forall|flag: Seq<char>|
            members.dom().contains(flag) ==> #[trigger] members[flag] == JsonView::Bool(true)),
{
    if bits / 0x10_0000_0000_0000 % 0x800 == 0x7ff {
        let members = json_contents(result->Ok_0)->Object_0;
        if bits % 0x10_0000_0000_0000 != 0 {
            assert(members.dom() =~= set!["$bigint"@, "$bigint_nan"@]);
        } else if bits < 0x8000_0000_0000_0000 {
            assert(members.dom() =~= set!["$bigint"@, "$bigint_infinity"@]);
        } else {
            assert(members.dom() =~= set![
                "$bigint"@,
                "$bigint_infinity"@,
                "$bigint_negative"@,
                "$bigint_negative_infinity"@,
            ]);
        }
    }
}

/// The object of flags for a number that is not finite: its kind, and for a
/// negative one the sign, twice for an infinity.
pub proof fn law_non_finite_value(kind: &str, negative: bool, value: serde_json::Value)
    requires
        call_ensures(non_finite_bigint_value, (kind, negative), value),
    ensures
        json_contents(value) matches JsonView::Object(members) && (forall|flag: Seq<char>|
            #[trigger]
            members.dom().contains(flag) <==> flag == "$bigint"@ || flag == kind@ || (negative
                && flag == "$bigint_negative"@) || (negative && kind@ == "$bigint_infinity"@ && flag
                == "$bigint_negative_infinity"@)) && (forall|flag: Seq<char>|
            members.dom().contains(flag) ==> #[trigger] members[flag] == JsonView::Bool(true)),
{
}

/// A number that is there is written as it is; without one there is an error.
pub proof fn law_finite_value(
    number: Option<serde_json::Number>,
    result: Result<serde_json::Value, IpcError>,
)
    requires
        call_ensures(finite_f64_value, (number,), result),
    ensures
        match number {
            Some(n) => result matches Ok(value) && json_contents(value) == JsonView::Number(
                number_contents(n),
            ),
            None => result == Err::<serde_json::Value, IpcError>(IpcError::InvalidFloat),
        },
{
}

/// An integer that is serialized, sent as a response and read as an integer
/// arrives as itself in the safe range, and is refused outside it.
pub proof fn law_integers_arrive(
    v: i64,
    serialized: Result<serde_json::Value, IpcError>,
    sent: Result<InvokeResponseBody, IpcError>,
    read: Result<i64, IpcError>,
)
    requires
        call_ensures(IpcResponseSerializer::serialize_i64, (IpcResponseSerializer, v), serialized),
        call_ensures(<Serialized as IpcResponse>::body, (Serialized(serialized),), sent),
        sent matches Ok(body) ==> call_ensures(InvokeResponseBody::deserialize_i64, (body,), read),
    ensures
        sent is Ok,
        -9007199254740991 <= v <= 9007199254740991 ==> read == Ok::<i64, IpcError>(v),
        !(-9007199254740991 <= v <= 9007199254740991) ==> read is Err,
{
    crate::laws::law_integer_reads_back(sent->Ok_0, v);
}

/// Which trees read back from their text: a scalar other than a floating point
/// number always, an array or object where a level is left for it and all that
/// stands in it reads back with one level less.
pub proof fn law_reads_back_by_levels(tree: JsonView, levels: nat)
    ensures
        nesting_limit() == 127,
        tree is Null || tree is Bool || tree is String ==> reads_back(tree, levels),
        tree matches JsonView::Number(number) ==> number is Int ==> reads_back(tree, levels),
        tree is Array || tree is Object ==> !reads_back(tree, 0),
        tree matches JsonView::Array(items) ==> (reads_back(tree, levels + 1) <==> forall|i: int|
            0 <= i < items.len() ==> reads_back(#[trigger] items[i], levels)),
        tree matches JsonView::Object(members) ==> (reads_back(tree, levels + 1) <==> forall|
            key: Seq<char>,
        |
            members.dom().contains(key) ==> reads_back(#[trigger] members[key], levels)),
{
}

} // verus!
