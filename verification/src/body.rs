//! The payloads of IPC requests and responses.

use crate::error::{fails, yields, IpcError};
use crate::json::{
    build, bytes_to_array, bytes_to_value, bytes_view, clone_value, fitting_integer,
    integer_bytes_are_refused, integer_text_is_refused, json_contents, json_parse, json_text,
    nesting_limit, read_i64, read_value, reads_back, refuse_i64, text_is_refused, value_to_text,
    JsonNode, JsonView,
};
use vstd::prelude::*;
use vstd::std_specs::convert::FromSpecImpl;

verus! {

/// What a request payload holds.
pub enum BodyView {
    Json(JsonView),
    Raw(Seq<u8>),
}

/// What a response payload holds.
pub enum ResponseBodyView {
    Json(Seq<char>),
    Raw(Seq<u8>),
}

/// Possible values of an IPC payload.
///
/// ### Android
///
/// On Android, [`InvokeBody::Raw`] is not supported: a payload always is
/// [`InvokeBody::Json`] there. When targeting Android devices, consider passing
/// raw bytes as a base64 [`String`], which is still more efficient than passing
/// them as a number array in [`InvokeBody::Json`].
#[derive(Debug)]
pub enum InvokeBody {
    /// Json payload.
    Json(serde_json::Value),
    /// Bytes payload.
    Raw(Vec<u8>),
}

impl View for InvokeBody {
    type V = BodyView;

    open spec fn view(&self) -> BodyView {
        match self {
            InvokeBody::Json(value) => BodyView::Json(json_contents(*value)),
            InvokeBody::Raw(bytes) => BodyView::Raw(bytes@),
        }
    }
}

impl Default for InvokeBody {
    fn default() -> (body: Self)
        ensures
            body@ == BodyView::Json(JsonView::Null),
    {
        InvokeBody::Json(build(JsonNode::Null))
    }
}

impl Clone for InvokeBody {
    fn clone(&self) -> (copy: Self)
        ensures
            copy@ == self@,
    {
        match self {
            InvokeBody::Json(value) => InvokeBody::Json(clone_value(value)),
            InvokeBody::Raw(bytes) => InvokeBody::Raw(bytes.clone()),
        }
    }
}

impl From<serde_json::Value> for InvokeBody {
    fn from(value: serde_json::Value) -> (body: Self) {
        InvokeBody::Json(value)
    }
}

impl FromSpecImpl<serde_json::Value> for InvokeBody {
    open spec fn obeys_from_spec() -> bool {
        true
    }

    open spec fn from_spec(value: serde_json::Value) -> Self {
        InvokeBody::Json(value)
    }
}

impl From<Vec<u8>> for InvokeBody {
    fn from(value: Vec<u8>) -> (body: Self) {
        InvokeBody::Raw(value)
    }
}

impl FromSpecImpl<Vec<u8>> for InvokeBody {
    open spec fn obeys_from_spec() -> bool {
        true
    }

    open spec fn from_spec(value: Vec<u8>) -> Self {
        InvokeBody::Raw(value)
    }
}

impl InvokeBody {
    /// The JSON value that this payload holds: its JSON, or its bytes as an array
    /// of numbers.
    pub open spec fn json(self) -> JsonView {
        match self {
            InvokeBody::Json(value) => json_contents(value),
            InvokeBody::Raw(bytes) => bytes_view(bytes@),
        }
    }

    /// The payload as JSON, with bytes as an array of numbers.
    pub fn into_json(self) -> (value: serde_json::Value)
        ensures
            json_contents(value) == self.json(),
            self matches InvokeBody::Json(v) ==> value == v,
    {
        match self {
            InvokeBody::Json(v) => v,
            InvokeBody::Raw(bytes) => bytes_to_array(bytes.as_slice()),
        }
    }
}

/// Possible values of an IPC response.
#[derive(Debug)]
pub enum InvokeResponseBody {
    /// Json payload.
    Json(String),
    /// Bytes payload.
    Raw(Vec<u8>),
}

impl View for InvokeResponseBody {
    type V = ResponseBodyView;

    open spec fn view(&self) -> ResponseBodyView {
        match self {
            InvokeResponseBody::Json(text) => ResponseBodyView::Json(text@),
            InvokeResponseBody::Raw(bytes) => ResponseBodyView::Raw(bytes@),
        }
    }
}

/// Whether a response body holds the text of a tree. That text reads back as
/// the tree wherever [`reads_back`] holds.
pub open spec fn writes(body: InvokeResponseBody, tree: JsonView) -> bool {
    &&& body@ == ResponseBodyView::Json(json_text(tree))
    &&& reads_back(tree, nesting_limit()) ==> json_parse(json_text(tree)) == Some(tree)
}

impl Clone for InvokeResponseBody {
    fn clone(&self) -> (copy: Self)
        ensures
            copy@ == self@,
    {
        match self {
            InvokeResponseBody::Json(text) => InvokeResponseBody::Json(text.clone()),
            InvokeResponseBody::Raw(bytes) => InvokeResponseBody::Raw(bytes.clone()),
        }
    }
}

impl From<String> for InvokeResponseBody {
    fn from(value: String) -> (body: Self) {
        InvokeResponseBody::Json(value)
    }
}

impl FromSpecImpl<String> for InvokeResponseBody {
    open spec fn obeys_from_spec() -> bool {
        true
    }

    open spec fn from_spec(value: String) -> Self {
        InvokeResponseBody::Json(value)
    }
}

impl From<Vec<u8>> for InvokeResponseBody {
    fn from(value: Vec<u8>) -> (body: Self) {
        InvokeResponseBody::Raw(value)
    }
}

impl FromSpecImpl<Vec<u8>> for InvokeResponseBody {
    open spec fn obeys_from_spec() -> bool {
        true
    }

    open spec fn from_spec(value: Vec<u8>) -> Self {
        InvokeResponseBody::Raw(value)
    }
}

/// Whether a response body is a request payload sent back: the text of its JSON,
/// or its bytes as they are.
pub open spec fn sends_back(body: InvokeResponseBody, payload: InvokeBody) -> bool {
    match payload {
        InvokeBody::Json(value) => writes(body, json_contents(value)),
        InvokeBody::Raw(bytes) => body == InvokeResponseBody::Raw(bytes),
    }
}

impl From<InvokeBody> for InvokeResponseBody {
    fn from(value: InvokeBody) -> (body: Self)
        ensures
            sends_back(body, value),
    {
        match value {
            InvokeBody::Json(v) => InvokeResponseBody::Json(value_to_text(&v).unwrap()),
            InvokeBody::Raw(bytes) => InvokeResponseBody::Raw(bytes),
        }
    }
}

impl FromSpecImpl<InvokeBody> for InvokeResponseBody {
    open spec fn obeys_from_spec() -> bool {
        false
    }

    open spec fn from_spec(value: InvokeBody) -> Self {
        arbitrary()
    }
}

impl InvokeResponseBody {
    /// The JSON value that this response holds: what its text denotes, or its
    /// bytes as an array of numbers.
    pub open spec fn json(self) -> Option<JsonView> {
        match self {
            InvokeResponseBody::Json(text) => json_parse(text@),
            InvokeResponseBody::Raw(bytes) => Some(bytes_view(bytes@)),
        }
    }

    /// Attempts to deserialize the response, given how a value of the wanted
    /// type is read from JSON text and from bytes.
    pub fn deserialize<T, E, J, B>(self, from_json: J, from_bytes: B) -> (result: Result<T, E>)
        where J: FnOnce(String) -> Result<T, E>, B: FnOnce(Vec<u8>) -> Result<T, E>
        requires
            self matches InvokeResponseBody::Json(text) ==> call_requires(from_json, (text,)),
            self matches InvokeResponseBody::Raw(bytes) ==> call_requires(from_bytes, (bytes,)),
        ensures
            match self {
                InvokeResponseBody::Json(text) => call_ensures(from_json, (text,), result),
                InvokeResponseBody::Raw(bytes) => call_ensures(from_bytes, (bytes,), result),
            },
    {
        match self {
            InvokeResponseBody::Json(text) => from_json(text),
            InvokeResponseBody::Raw(bytes) => from_bytes(bytes),
        }
    }

    /// Whether the error is one with which reading this response as a JSON value
    /// was refused. Bytes are never refused.
    pub open spec fn value_is_refused(self, error: serde_json::Error) -> bool {
        match self {
            InvokeResponseBody::Json(text) => text_is_refused(text@, error),
            InvokeResponseBody::Raw(_) => false,
        }
    }

    /// Attempts to deserialize the response to a JSON value.
    pub fn deserialize_value(self) -> (result: Result<serde_json::Value, IpcError>)
        ensures
            match self.json() {
                Some(tree) => yields(result, tree),
                None => result matches Err(IpcError::Json(error)) && self.value_is_refused(error),
            },
    {
        let result = match self {
            InvokeResponseBody::Json(text) => read_value(text.as_str()),
            InvokeResponseBody::Raw(bytes) => bytes_to_value(bytes),
        };
        match result {
            Ok(value) => Ok(value),
            Err(error) => Err(IpcError::Json(error)),
        }
    }

    /// The integer that this response holds, if its text is that of one that
    /// fits.
    pub open spec fn integer(self) -> Option<int> {
        match self {
            InvokeResponseBody::Json(text) => fitting_integer(json_parse(text@)),
            InvokeResponseBody::Raw(_) => None,
        }
    }

    /// Whether the error is one with which reading this response as an integer
    /// was refused.
    pub open spec fn integer_is_refused(self, error: serde_json::Error) -> bool {
        match self {
            InvokeResponseBody::Json(text) => integer_text_is_refused(text@, error),
            InvokeResponseBody::Raw(bytes) => integer_bytes_are_refused(bytes, error),
        }
    }

    /// Attempts to deserialize the response to an integer.
    pub fn deserialize_i64(self) -> (result: Result<i64, IpcError>)
        ensures
            match self.integer() {
                Some(i) => result matches Ok(n) && n == i,
                None => result matches Err(IpcError::Json(error)) && self.integer_is_refused(error),
            },
    {
        let result = match self {
            InvokeResponseBody::Json(text) => read_i64(text.as_str()),
            InvokeResponseBody::Raw(bytes) => refuse_i64(bytes),
        };
        match result {
            Ok(n) => Ok(n),
            Err(error) => Err(IpcError::Json(error)),
        }
    }
}

/// A JSON value that is sent as a response and deserialized arrives unchanged,
/// if it nests no deeper than can be read and its floating point numbers read
/// back.
pub proof fn law_response_reads_back(body: InvokeResponseBody, tree: JsonView)
    requires
        writes(body, tree),
        reads_back(tree, nesting_limit()),
    ensures
        body.json() == Some(tree),
{
}

/// A payload that is sent back and deserialized is the payload as JSON; bytes
/// always, JSON under the same conditions as any value.
pub proof fn law_payload_reads_back(payload: InvokeBody, body: InvokeResponseBody)
    requires
        sends_back(body, payload),
        payload is Json ==> reads_back(payload.json(), nesting_limit()),
    ensures
        body.json() == Some(payload.json()),
{
}

/// Marks a type as a response to an IPC call.
pub trait IpcResponse {
    /// Resolve the IPC response body.
    fn body(self) -> Result<InvokeResponseBody, IpcError>;
}

impl IpcResponse for InvokeResponseBody {
    fn body(self) -> (result: Result<InvokeResponseBody, IpcError>)
        ensures
            result matches Ok(body) && body == self,
    {
        Ok(self)
    }
}

/// The IPC response.
pub struct Response {
    body: InvokeResponseBody,
}

impl Response {
    /// The body that this response was defined with.
    pub closed spec fn payload(self) -> InvokeResponseBody {
        self.body
    }

    /// Defines a response with the given body.
    pub fn new<B: Into<InvokeResponseBody>>(body: B) -> (response: Self)
        ensures
            call_ensures(B::into, (body,), response.payload()),
    {
        Response { body: body.into() }
    }
}

impl IpcResponse for Response {
    fn body(self) -> (result: Result<InvokeResponseBody, IpcError>)
        ensures
            result matches Ok(body) && body == self.payload(),
    {
        Ok(self.body)
    }
}

/// The response of a command that returned a serializable value, given by what
/// serializing that value gave.
pub struct Serialized(pub Result<serde_json::Value, IpcError>);

impl IpcResponse for Serialized {
    fn body(self) -> (result: Result<InvokeResponseBody, IpcError>)
        ensures
            match self.0 {
                Ok(value) => result matches Ok(body) && writes(body, json_contents(value)),
                Err(error) => fails(result, error),
            },
    {
        let value = self.0?;
        match value_to_text(&value) {
            Ok(text) => Ok(InvokeResponseBody::from(text)),
            Err(error) => Err(IpcError::Json(error)),
        }
    }
}

} // verus!
