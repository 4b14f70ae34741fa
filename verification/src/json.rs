//! JSON values as `serde_json` holds them, and the mathematical trees that the
//! contracts of this crate speak of.
//!
//! The values, maps and numbers of `serde_json` are opaque to the verifier.
//! [`json_contents`], [`map_contents`] and [`number_contents`] name what they
//! hold, and the functions below, which call `serde_json`, say how those
//! contents come about.

use crate::decimal::decimal;
use vstd::prelude::*;

verus! {

#[verifier::external_type_specification]
#[verifier::external_body]
pub struct ExValue(serde_json::Value);

#[verifier::external_type_specification]
#[verifier::external_body]
pub struct ExNumber(serde_json::Number);

#[verifier::external_type_specification]
#[verifier::external_body]
#[verifier::reject_recursive_types(K)]
#[verifier::reject_recursive_types(V)]
pub struct ExMap<K, V>(serde_json::Map<K, V>);

#[verifier::external_type_specification]
#[verifier::external_body]
pub struct ExError(serde_json::Error);

/// A JSON number: an integer, or a finite floating point number, given by the
/// bits of its IEEE 754 double precision form.
pub enum NumberView {
    Int(int),
    Float(u64),
}

/// A JSON value as a mathematical tree.
pub enum JsonView {
    Null,
    Bool(bool),
    Number(NumberView),
    String(Seq<char>),
    Array(Seq<JsonView>),
    Object(Map<Seq<char>, JsonView>),
}

/// The tree that a `serde_json::Value` holds.
pub uninterp spec fn json_contents(value: serde_json::Value) -> JsonView;

/// The members of a `serde_json::Map`.
pub uninterp spec fn map_contents(map: serde_json::Map<String, serde_json::Value>) -> Map<
    Seq<char>,
    JsonView,
>;

/// The number that a `serde_json::Number` holds.
pub uninterp spec fn number_contents(number: serde_json::Number) -> NumberView;

/// The text that `serde_json` writes for the finite floating point number with
/// these bits.
pub uninterp spec fn float_text(bits: u64) -> Seq<char>;

/// The compact JSON text that `serde_json::to_string` writes for a tree.
pub uninterp spec fn json_text(tree: JsonView) -> Seq<char>;

/// The tree that `serde_json::from_str` reads from a text, if it accepts the
/// text.
pub uninterp spec fn json_parse(text: Seq<char>) -> Option<JsonView>;

/// The text of a number.
pub open spec fn number_text(number: NumberView) -> Seq<char> {
    match number {
        NumberView::Int(i) => decimal(i),
        NumberView::Float(bits) => float_text(bits),
    }
}

/// The trees that the items of an array hold.
pub open spec fn array_contents(items: Seq<serde_json::Value>) -> Seq<JsonView> {
    items.map_values(|item: serde_json::Value| json_contents(item))
}

/// The members of an empty object.
pub open spec fn no_members() -> Map<Seq<char>, JsonView> {
    Map::empty()
}

/// The tree of an array that holds the given bytes as numbers.
pub open spec fn bytes_view(bytes: Seq<u8>) -> JsonView {
    JsonView::Array(bytes.map_values(|b: u8| JsonView::Number(NumberView::Int(b as int))))
}

/// The integer that a tree is, if it is one and fits in an `i64`.
pub open spec fn fitting_integer(tree: Option<JsonView>) -> Option<int> {
    match tree {
        Some(JsonView::Number(NumberView::Int(i))) => if i64::MIN <= i <= i64::MAX {
            Some(i)
        } else {
            None
        },
        _ => None,
    }
}

/// How many arrays and objects may stand inside each other in a text that
/// `serde_json::from_str` reads.
pub open spec fn nesting_limit() -> nat {
    127
}

/// Whether the text of a tree reads back as that tree: it nests at most
/// `levels` arrays and objects, and each floating point number in it reads back
/// from its own text, which is not so of all of them.
pub open spec fn reads_back(tree: JsonView, levels: nat) -> bool
    decreases levels,
{
    match tree {
        JsonView::Number(NumberView::Float(_)) => json_parse(json_text(tree)) == Some(tree),
        JsonView::Array(items) => levels > 0 && forall|i: int|
            0 <= i < items.len() ==> reads_back(#[trigger] items[i], (levels - 1) as nat),
        JsonView::Object(members) => levels > 0 && forall|key: Seq<char>|
            members.contains_key(key) ==> reads_back(
                #[trigger] members[key],
                (levels - 1) as nat,
            ),
        _ => true,
    }
}

/// One level of a JSON value: its kind, and what stands directly inside it.
pub enum JsonNode {
    Null,
    Bool(bool),
    Number(serde_json::Number),
    String(String),
    Array(Vec<serde_json::Value>),
    Object(serde_json::Map<String, serde_json::Value>),
}

impl JsonNode {
    /// The tree of which this is the topmost level.
    pub open spec fn contents(self) -> JsonView {
        match self {
            JsonNode::Null => JsonView::Null,
            JsonNode::Bool(b) => JsonView::Bool(b),
            JsonNode::Number(n) => JsonView::Number(number_contents(n)),
            JsonNode::String(s) => JsonView::String(s@),
            JsonNode::Array(items) => JsonView::Array(array_contents(items@)),
            JsonNode::Object(members) => JsonView::Object(map_contents(members)),
        }
    }
}

/// Makes a `serde_json::Value` of the variant that the node names.
///
/// Trusted: a variant of `serde_json::Value` holds exactly what it is built
/// from.
#[verifier::external_body]
pub(crate) fn build(node: JsonNode) -> (value: serde_json::Value)
    ensures
        json_contents(value) == node.contents(),
{
    match node {
        JsonNode::Null => serde_json::Value::Null,
        JsonNode::Bool(b) => serde_json::Value::Bool(b),
        JsonNode::Number(n) => serde_json::Value::Number(n),
        JsonNode::String(s) => serde_json::Value::String(s),
        JsonNode::Array(items) => serde_json::Value::Array(items),
        JsonNode::Object(members) => serde_json::Value::Object(members),
    }
}

/// Takes the topmost level of a `serde_json::Value` apart.
///
/// Trusted: a variant of `serde_json::Value` holds exactly the contents of the
/// value.
#[verifier::external_body]
pub(crate) fn inspect(value: serde_json::Value) -> (node: JsonNode)
    ensures
        node.contents() == json_contents(value),
{
    match value {
        serde_json::Value::Null => JsonNode::Null,
        serde_json::Value::Bool(b) => JsonNode::Bool(b),
        serde_json::Value::Number(n) => JsonNode::Number(n),
        serde_json::Value::String(s) => JsonNode::String(s),
        serde_json::Value::Array(items) => JsonNode::Array(items),
        serde_json::Value::Object(members) => JsonNode::Object(members),
    }
}

/// Calls `serde_json::Value::clone`.
///
/// Trusted: the copy holds the same tree.
#[verifier::external_body]
pub(crate) fn clone_value(value: &serde_json::Value) -> (copy: serde_json::Value)
    ensures
        json_contents(copy) == json_contents(*value),
{
    value.clone()
}

/// Calls `serde_json::Map::new`.
///
/// Trusted: the map has no members.
#[verifier::external_body]
pub(crate) fn map_new() -> (fresh: serde_json::Map<String, serde_json::Value>)
    ensures
        map_contents(fresh) == no_members(),
{
    serde_json::Map::new()
}

/// Calls `serde_json::Map::with_capacity`.
///
/// Trusted: the map has no members, whatever the capacity.
#[verifier::external_body]
pub(crate) fn map_with_capacity(capacity: usize) -> (fresh: serde_json::Map<
    String,
    serde_json::Value,
>)
    ensures
        map_contents(fresh) == no_members(),
{
    serde_json::Map::with_capacity(capacity)
}

/// Calls `serde_json::Map::insert`.
///
/// Trusted: the map then has the given member in place of an earlier one of the
/// same key, which is handed back, and all its other members as before.
#[verifier::external_body]
pub(crate) fn map_insert(
    map: &mut serde_json::Map<String, serde_json::Value>,
    key: String,
    value: serde_json::Value,
) -> (previous: Option<serde_json::Value>)
    ensures
        map_contents(*final(map)) == map_contents(*old(map)).insert(key@, json_contents(value)),
        previous is Some <==> map_contents(*old(map)).contains_key(key@),
        previous matches Some(p) ==> json_contents(p) == map_contents(*old(map))[key@],
{
    map.insert(key, value)
}

/// Calls `From<u64>` for `serde_json::Number`.
///
/// Trusted: the number is that integer.
#[verifier::external_body]
pub(crate) fn number_from_u64(n: u64) -> (number: serde_json::Number)
    ensures
        number_contents(number) == NumberView::Int(n as int),
{
    serde_json::Number::from(n)
}

/// Calls `From<i64>` for `serde_json::Number`.
///
/// Trusted: the number is that integer.
#[verifier::external_body]
pub(crate) fn number_from_i64(n: i64) -> (number: serde_json::Number)
    ensures
        number_contents(number) == NumberView::Int(n as int),
{
    serde_json::Number::from(n)
}

/// Calls the `Display` of `serde_json::Number`.
///
/// Trusted: an integer is written in decimal, and the text of a floating point
/// number depends on that number alone.
#[verifier::external_body]
pub(crate) fn number_to_string(number: &serde_json::Number) -> (text: String)
    ensures
        number_contents(*number) matches NumberView::Int(i) ==> text@ == decimal(i),
        number_contents(*number) matches NumberView::Float(bits) ==> text@ == float_text(bits),
{
    number.to_string()
}

/// Calls `serde_json::to_string` on a `serde_json::Value`.
///
/// Trusted: this succeeds, since the keys of the value are strings and writing
/// to memory does not fail; the text depends on the tree alone, since members are
/// written in the order of their keys; and a tree of which [`reads_back`] holds is
/// what `serde_json::from_str` reads from it.
#[verifier::external_body]
pub(crate) fn value_to_text(value: &serde_json::Value) -> (result: Result<
    String,
    serde_json::Error,
>)
    ensures
        result is Ok,
        result->Ok_0@ == json_text(json_contents(*value)),
        reads_back(json_contents(*value), nesting_limit()) ==> json_parse(result->Ok_0@) == Some(
            json_contents(*value),
        ),
{
    serde_json::to_string(value)
}

/// Calls `serde_json::from_str` for a `serde_json::Value`.
///
/// Trusted: whether the text is accepted, and which tree is read, depends on the
/// text alone.
#[verifier::external_body]
fn text_to_value(text: &str) -> (result: Result<serde_json::Value, serde_json::Error>)
    ensures
        result is Ok <==> json_parse(text@) is Some,
        result matches Ok(value) ==> json_parse(text@) == Some(json_contents(value)),
{
    serde_json::from_str(text)
}

/// Whether the error is one with which `serde_json::from_str` refused to read a
/// JSON value from the text.
pub closed spec fn text_is_refused(text: Seq<char>, error: serde_json::Error) -> bool {
    exists|source: &str|
        source@ == text && #[trigger] call_ensures(text_to_value, (source,), Err(error))
}

/// Reads a JSON value from its text.
pub(crate) fn read_value(text: &str) -> (result: Result<serde_json::Value, serde_json::Error>)
    ensures
        match json_parse(text@) {
            Some(tree) => result matches Ok(value) && json_contents(value) == tree,
            None => result matches Err(error) && text_is_refused(text@, error),
        },
{
    text_to_value(text)
}

/// Calls `serde_json::from_str` for an `i64`.
///
/// Trusted: the text is accepted if and only if, read as a JSON value, it is an
/// integer that fits, and that integer is then the result.
#[verifier::external_body]
fn text_to_i64(text: &str) -> (result: Result<i64, serde_json::Error>)
    ensures
        result is Ok <==> fitting_integer(json_parse(text@)) is Some,
        result matches Ok(n) ==> fitting_integer(json_parse(text@)) == Some(n as int),
{
    serde_json::from_str(text)
}

/// Whether the error is one with which `serde_json::from_str` refused to read an
/// `i64` from the text.
pub closed spec fn integer_text_is_refused(text: Seq<char>, error: serde_json::Error) -> bool {
    exists|source: &str|
        source@ == text && #[trigger] call_ensures(text_to_i64, (source,), Err(error))
}

/// Reads an integer from JSON text.
pub(crate) fn read_i64(text: &str) -> (result: Result<i64, serde_json::Error>)
    ensures
        match fitting_integer(json_parse(text@)) {
            Some(i) => result matches Ok(n) && n == i,
            None => result matches Err(error) && integer_text_is_refused(text@, error),
        },
{
    text_to_i64(text)
}

/// Calls `i64::deserialize` on the deserializer that `serde` gives a byte vector.
///
/// Trusted: this fails, since a sequence is no integer.
#[verifier::external_body]
fn bytes_to_i64(bytes: Vec<u8>) -> (result: Result<i64, serde_json::Error>)
    ensures
        result is Err,
{
    let deserializer = serde::de::IntoDeserializer::<serde_json::Error>::into_deserializer(bytes);
    serde::Deserialize::deserialize(deserializer)
}

/// Whether the error is one with which `i64::deserialize` refused the bytes.
pub closed spec fn integer_bytes_are_refused(bytes: Vec<u8>, error: serde_json::Error) -> bool {
    call_ensures(bytes_to_i64, (bytes,), Err(error))
}

/// Attempts to read an integer from bytes, which no bytes allow.
pub(crate) fn refuse_i64(bytes: Vec<u8>) -> (result: Result<i64, serde_json::Error>)
    ensures
        result matches Err(error) && integer_bytes_are_refused(bytes, error),
{
    bytes_to_i64(bytes)
}

/// Calls `serde_json::Value::deserialize` on the deserializer that `serde` gives
/// a byte vector.
///
/// Trusted: this succeeds, and gives an array of the bytes as numbers.
#[verifier::external_body]
pub(crate) fn bytes_to_value(bytes: Vec<u8>) -> (result: Result<
    serde_json::Value,
    serde_json::Error,
>)
    ensures
        result is Ok,
        json_contents(result->Ok_0) == bytes_view(bytes@),
{
    let deserializer = serde::de::IntoDeserializer::<serde_json::Error>::into_deserializer(bytes);
    serde::Deserialize::deserialize(deserializer)
}

/// Calls the `Display` of `serde_json::Error`.
///
/// Nothing is promised of the text: an error may carry one from elsewhere, and
/// `serde_json` prints that one as it describes itself. Formatting panics only
/// where that one reports that it cannot be formatted, which a `Display` must not
/// do of its own accord.
#[verifier::external_body]
fn json_error_text(error: &serde_json::Error) -> (text: String) {
    error.to_string()
}

/// Whether the text is one that the `Display` of a `serde_json::Error` gave.
pub closed spec fn json_error_says(error: serde_json::Error, text: String) -> bool {
    call_ensures(json_error_text, (&error,), text)
}

/// What a `serde_json::Error` says of itself.
pub(crate) fn describe_json_error(error: &serde_json::Error) -> (text: String)
    ensures
        json_error_says(*error, text),
{
    json_error_text(error)
}

/// A text is refused only with an error that `serde_json::from_str` gave for it, an
/// integer only with one that reading an `i64` from that text or those bytes gave,
/// and an error says only what its `Display` gave.
proof fn law_errors_are_of_their_calls(
    text: Seq<char>,
    bytes: Vec<u8>,
    error: serde_json::Error,
    message: String,
)
    ensures
        text_is_refused(text, error) ==> exists|source: &str|
            source@ == text && #[trigger] call_ensures(text_to_value, (source,), Err(error)),
        integer_text_is_refused(text, error) ==> exists|source: &str|
            source@ == text && #[trigger] call_ensures(text_to_i64, (source,), Err(error)),
        integer_bytes_are_refused(bytes, error) ==> call_ensures(
            bytes_to_i64,
            (bytes,),
            Err(error),
        ),
        json_error_says(error, message) ==> call_ensures(json_error_text, (&error,), message),
{
}

/// Writes bytes as a JSON array of numbers.
pub(crate) fn bytes_to_array(bytes: &[u8]) -> (value: serde_json::Value)
    ensures
        json_contents(value) == bytes_view(bytes@),
{
    let mut items: Vec<serde_json::Value> = Vec::with_capacity(bytes.len());
    let mut i: usize = 0;
    while i < bytes.len()
        invariant
            i <= bytes@.len(),
            items@.len() == i,
            forall|j: int|
                0 <= j < i ==> json_contents(#[trigger] items@[j]) == JsonView::Number(
                    NumberView::Int(bytes@[j] as int),
                ),
        decreases bytes@.len() - i,
    {
        items.push(build(JsonNode::Number(number_from_u64(u64::from(bytes[i])))));
        i += 1;
    }
    assert(JsonView::Array(array_contents(items@)) == bytes_view(bytes@)) by {
        assert(array_contents(items@) =~= bytes@.map_values(
            |b: u8| JsonView::Number(NumberView::Int(b as int)),
        ));
    }
    build(JsonNode::Array(items))
}

} // verus!
