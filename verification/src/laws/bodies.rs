//! What the payloads of requests and responses hold.

use crate::body::{InvokeBody, InvokeResponseBody, IpcResponse, Response, Serialized};
use crate::error::IpcError;
use crate::json::{
    integer_bytes_are_refused, integer_text_is_refused, json_contents, json_error_says, json_parse,
    json_text, reads_back, text_is_refused, JsonView, NumberView,
};
use vstd::prelude::*;

verus! {

/// Without anything else a request payload is null.
pub proof fn law_default_payload(body: InvokeBody)
    requires
        call_ensures(<InvokeBody as Default>::default, (), body),
    ensures
        body matches InvokeBody::Json(value) && json_contents(value) == JsonView::Null,
{
}

/// A JSON value and bytes are request payloads of their kind, as they are.
pub proof fn law_payload_from(
    value: serde_json::Value,
    bytes: Vec<u8>,
    json: InvokeBody,
    raw: InvokeBody,
)
    requires
        call_ensures(<InvokeBody as From<serde_json::Value>>::from, (value,), json),
        call_ensures(<InvokeBody as From<Vec<u8>>>::from, (bytes,), raw),
    ensures
        json == InvokeBody::Json(value),
        raw == InvokeBody::Raw(bytes),
{
}

/// The copy of a request payload is of the same kind and holds the same.
pub proof fn law_payload_clone(body: InvokeBody, copy: InvokeBody)
    requires
        call_ensures(<InvokeBody as Clone>::clone, (&body,), copy),
    ensures
        match body {
            InvokeBody::Json(value) => copy matches InvokeBody::Json(other) && json_contents(other)
                == json_contents(value),
            InvokeBody::Raw(bytes) => copy matches InvokeBody::Raw(other) && other@ == bytes@,
        },
{
}

/// A JSON payload is its value, and bytes are an array with a number for each
/// byte, in their order.
pub proof fn law_payload_into_json(body: InvokeBody, value: serde_json::Value)
    requires
        call_ensures(InvokeBody::into_json, (body,), value),
    ensures
        match body {
            InvokeBody::Json(v) => value == v,
            InvokeBody::Raw(bytes) => json_contents(value) matches JsonView::Array(items)
                && items.len() == bytes@.len() && forall|i: int|
                0 <= i < items.len() ==> #[trigger] items[i] == JsonView::Number(
                    NumberView::Int(bytes@[i] as int),
                ),
        },
{
}

/// The copy of a response body is of the same kind and holds the same.
pub proof fn law_response_body_clone(body: InvokeResponseBody, copy: InvokeResponseBody)
    requires
        call_ensures(<InvokeResponseBody as Clone>::clone, (&body,), copy),
    ensures
        match body {
            InvokeResponseBody::Json(text) => copy matches InvokeResponseBody::Json(other) && other@
                == text@,
            InvokeResponseBody::Raw(bytes) => copy matches InvokeResponseBody::Raw(other) && other@
                == bytes@,
        },
{
}

/// A text and bytes are response bodies of their kind, as they are. So are the
/// bytes of a request payload; JSON becomes its text.
pub proof fn law_response_body_from(
    text: String,
    bytes: Vec<u8>,
    payload: InvokeBody,
    json: InvokeResponseBody,
    raw: InvokeResponseBody,
    sent: InvokeResponseBody,
)
    requires
        call_ensures(<InvokeResponseBody as From<String>>::from, (text,), json),
        call_ensures(<InvokeResponseBody as From<Vec<u8>>>::from, (bytes,), raw),
        call_ensures(<InvokeResponseBody as From<InvokeBody>>::from, (payload,), sent),
    ensures
        json == InvokeResponseBody::Json(text),
        raw == InvokeResponseBody::Raw(bytes),
        match payload {
            InvokeBody::Json(value) => sent matches InvokeResponseBody::Json(written) && written@
                == json_text(json_contents(value)),
            InvokeBody::Raw(data) => sent == InvokeResponseBody::Raw(data),
        },
{
}

/// A response is read as the wanted type from its text, or from its bytes, and
/// what the reading gives is the result.
pub proof fn law_deserialize<T, E, J, B>(
    body: InvokeResponseBody,
    from_json: J,
    from_bytes: B,
    result: Result<T, E>,
) where J: FnOnce(String) -> Result<T, E>, B: FnOnce(Vec<u8>) -> Result<T, E>
    requires
        call_ensures(
            InvokeResponseBody::deserialize::<T, E, J, B>,
            (body, from_json, from_bytes),
            result,
        ),
    ensures
        body matches InvokeResponseBody::Json(text) ==> call_ensures(from_json, (text,), result),
        body matches InvokeResponseBody::Raw(bytes) ==> call_ensures(from_bytes, (bytes,), result),
{
}

/// A reader is asked only for the kind of body that is there.
pub proof fn law_deserialize_asks_one_reader<T, E, J, B>(
    text: String,
    bytes: Vec<u8>,
    from_json: J,
    from_bytes: B,
) where J: FnOnce(String) -> Result<T, E>, B: FnOnce(Vec<u8>) -> Result<T, E>
    ensures
        call_requires(from_json, (text,)) ==> call_requires(
            InvokeResponseBody::deserialize::<T, E, J, B>,
            (InvokeResponseBody::Json(text), from_json, from_bytes),
        ),
        call_requires(from_bytes, (bytes,)) ==> call_requires(
            InvokeResponseBody::deserialize::<T, E, J, B>,
            (InvokeResponseBody::Raw(bytes), from_json, from_bytes),
        ),
{
}

/// A JSON text is read as exactly the tree that it denotes, however it is spaced
/// and whatever the order of its members. A text that denotes none is refused with
/// the error of reading that text.
pub proof fn law_deserialize_text(text: String, result: Result<serde_json::Value, IpcError>)
    requires
        call_ensures(
            InvokeResponseBody::deserialize_value,
            (InvokeResponseBody::Json(text),),
            result,
        ),
    ensures
        match json_parse(text@) {
            Some(tree) => result matches Ok(value) && json_contents(value) == tree,
            None => result matches Err(IpcError::Json(error)) && text_is_refused(text@, error),
        },
{
}

/// Bytes are read as an array with a number for each byte, in their order.
pub proof fn law_deserialize_bytes(bytes: Vec<u8>, result: Result<serde_json::Value, IpcError>)
    requires
        call_ensures(
            InvokeResponseBody::deserialize_value,
            (InvokeResponseBody::Raw(bytes),),
            result,
        ),
    ensures
        result matches Ok(value) && json_contents(value) matches JsonView::Array(items)
            && items.len() == bytes@.len() && forall|i: int|
            0 <= i < items.len() ==> #[trigger] items[i] == JsonView::Number(
                NumberView::Int(bytes@[i] as int),
            ),
{
}

/// An integer is read exactly from the text of an integer that fits. Any other
/// text is refused with the error of reading it, and so are bytes.
pub proof fn law_deserialize_integer(body: InvokeResponseBody, result: Result<i64, IpcError>)
    requires
        call_ensures(InvokeResponseBody::deserialize_i64, (body,), result),
    ensures
        body matches InvokeResponseBody::Json(text) ==> match json_parse(text@) {
            Some(JsonView::Number(NumberView::Int(i))) => if -0x8000_0000_0000_0000 <= i
                < 0x8000_0000_0000_0000 {
                result matches Ok(n) && n == i
            } else {
                result matches Err(IpcError::Json(error)) && integer_text_is_refused(text@, error)
            },
            _ => result matches Err(IpcError::Json(error)) && integer_text_is_refused(text@, error),
        },
        body matches InvokeResponseBody::Raw(bytes) ==> (result matches Err(IpcError::Json(error))
            && integer_bytes_are_refused(bytes, error)),
{
}

/// A response body is its own body.
pub proof fn law_body_of_body(
    body: InvokeResponseBody,
    result: Result<InvokeResponseBody, IpcError>,
)
    requires
        call_ensures(<InvokeResponseBody as IpcResponse>::body, (body,), result),
    ensures
        result == Ok::<InvokeResponseBody, IpcError>(body),
{
}

/// The body of a response is what it was defined with, converted.
pub proof fn law_response_body<B: Into<InvokeResponseBody>>(
    given: B,
    response: Response,
    result: Result<InvokeResponseBody, IpcError>,
)
    requires
        call_ensures(Response::new::<B>, (given,), response),
        call_ensures(<Response as IpcResponse>::body, (response,), result),
    ensures
        result matches Ok(body) && call_ensures(B::into, (given,), body),
{
}

/// A response that is defined with a text, with bytes or with a request payload has
/// that text, those bytes or the payload as its body.
pub proof fn law_response_kinds(
    text: String,
    bytes: Vec<u8>,
    payload: InvokeBody,
    responses: (Response, Response, Response),
    bodies: (
        Result<InvokeResponseBody, IpcError>,
        Result<InvokeResponseBody, IpcError>,
        Result<InvokeResponseBody, IpcError>,
    ),
)
    requires
        call_ensures(Response::new::<String>, (text,), responses.0),
        call_ensures(Response::new::<Vec<u8>>, (bytes,), responses.1),
        call_ensures(Response::new::<InvokeBody>, (payload,), responses.2),
        call_ensures(<Response as IpcResponse>::body, (responses.0,), bodies.0),
        call_ensures(<Response as IpcResponse>::body, (responses.1,), bodies.1),
        call_ensures(<Response as IpcResponse>::body, (responses.2,), bodies.2),
    ensures
        bodies.0 == Ok::<InvokeResponseBody, IpcError>(InvokeResponseBody::Json(text)),
        bodies.1 == Ok::<InvokeResponseBody, IpcError>(InvokeResponseBody::Raw(bytes)),
        match payload {
            InvokeBody::Json(value) => bodies.2 matches Ok(InvokeResponseBody::Json(written))
                && written@ == json_text(json_contents(value)),
            InvokeBody::Raw(data) => bodies.2 == Ok::<InvokeResponseBody, IpcError>(
                InvokeResponseBody::Raw(data),
            ),
        },
{
}

/// The body of a serialized value is the text of its tree. An error stays what it
/// is.
pub proof fn law_serialized_body(
    written: Result<serde_json::Value, IpcError>,
    result: Result<InvokeResponseBody, IpcError>,
)
    requires
        call_ensures(<Serialized as IpcResponse>::body, (Serialized(written),), result),
    ensures
        match written {
            Ok(value) => result matches Ok(InvokeResponseBody::Json(text)) && text@ == json_text(
                json_contents(value),
            ),
            Err(error) => result == Err::<InvokeResponseBody, IpcError>(error),
        },
{
}

/// A value that is sent as a response and read arrives unchanged, if it nests no
/// more than a hundred and twenty-seven levels deep and its floating point numbers
/// read back.
pub proof fn law_values_arrive(
    value: serde_json::Value,
    sent: Result<InvokeResponseBody, IpcError>,
    read: Result<serde_json::Value, IpcError>,
)
    requires
        call_ensures(<Serialized as IpcResponse>::body, (Serialized(Ok(value)),), sent),
        sent matches Ok(body) ==> call_ensures(
            InvokeResponseBody::deserialize_value,
            (body,),
            read,
        ),
        reads_back(json_contents(value), 127),
    ensures
        read matches Ok(arrived) && json_contents(arrived) == json_contents(value),
{
}

/// A request payload that is sent back and read is what it is as JSON; bytes
/// always, JSON under the same conditions as any value.
pub proof fn law_payloads_arrive(
    payload: InvokeBody,
    json: serde_json::Value,
    sent: InvokeResponseBody,
    read: Result<serde_json::Value, IpcError>,
)
    requires
        call_ensures(InvokeBody::into_json, (payload,), json),
        call_ensures(<InvokeResponseBody as From<InvokeBody>>::from, (payload,), sent),
        call_ensures(InvokeResponseBody::deserialize_value, (sent,), read),
        payload is Json ==> reads_back(json_contents(json), 127),
    ensures
        read matches Ok(arrived) && json_contents(arrived) == json_contents(json),
{
}

/// What an error says: each has a message of its own, and an error of `serde_json`
/// says what it says of itself.
pub proof fn law_error_message(error: IpcError, message: String)
    requires
        call_ensures(IpcError::message, (&error,), message),
    ensures
        match error {
            IpcError::InvalidFloat => message@ == "invalid floating point value"@,
            IpcError::InvalidMapKey => message@
                == "map key must be a string, number, bool, or null"@,
            IpcError::ValueBeforeKey => message@ == "serialize_value called before serialize_key"@,
            IpcError::Json(inner) => json_error_says(inner, message),
        },
{
}

} // verus!
