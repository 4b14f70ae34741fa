//! The two ways in which an invoke is answered.

use crate::body::{InvokeResponseBody, IpcResponse};
use crate::error::IpcError;
use crate::json::{
    build, describe_json_error, json_contents, json_error_says, JsonNode, JsonView,
};
use vstd::prelude::*;
use vstd::std_specs::convert::FromSpecImpl;

verus! {

#[verifier::external_type_specification]
#[verifier::external_body]
pub struct ExAnyhowError(anyhow::Error);

/// Formats an `anyhow::Error` with `{:#}`.
///
/// Nothing is promised of the text: it is made of what the errors in the chain
/// say of themselves. Formatting panics only where one of them reports that it
/// cannot be formatted, which a `Display` must not do of its own accord.
#[verifier::external_body]
fn anyhow_text(error: &anyhow::Error) -> (text: String) {
    format!("{error:#}")
}

/// Whether the text is one that formatting an `anyhow::Error` with `{:#}` gave.
pub closed spec fn anyhow_says(error: anyhow::Error, text: String) -> bool {
    call_ensures(anyhow_text, (&error,), text)
}

/// An error says only what formatting it gave.
proof fn law_text_is_of_its_error(error: anyhow::Error, text: String)
    ensures
        anyhow_says(error, text) ==> call_ensures(anyhow_text, (&error,), text),
{
}

/// The conversion of a type to itself.
///
/// `From<T>` for `T` of the standard library returns its argument unchanged.
pub assume_specification<Any>[ <Any as std::convert::From<Any>>::from ](value: Any) -> (same: Any)
    ensures
        same == value,
;

/// Error response from an invoke message.
#[derive(Debug)]
pub struct InvokeError(pub serde_json::Value);

impl InvokeError {
    /// Whether this error is the given message.
    pub open spec fn says(self, message: Seq<char>) -> bool {
        json_contents(self.0) == JsonView::String(message)
    }

    /// Create an [`InvokeError`] of the message of an error.
    pub fn from_error(message: String) -> (error: Self)
        ensures
            error.says(message@),
    {
        InvokeError(build(JsonNode::String(message)))
    }

    /// Create an [`InvokeError`] as a string of the [`anyhow::Error`] message.
    pub fn from_anyhow(error: anyhow::Error) -> (invoke_error: Self)
        ensures
            exists|message: String| #[trigger]
                anyhow_says(error, message) && invoke_error.says(message@),
    {
        let message = anyhow_text(&error);
        assert(anyhow_says(error, message));
        Self::from_error(message)
    }
}

/// What serializing a value with `serde_json::to_value` gave becomes the error,
/// be it the value or the message of why it could not be serialized.
impl From<Result<serde_json::Value, serde_json::Error>> for InvokeError {
    fn from(value: Result<serde_json::Value, serde_json::Error>) -> (error: Self)
        ensures
            match value {
                Ok(v) => error == InvokeError(v),
                Err(e) => exists|message: String| #[trigger]
                    json_error_says(e, message) && error.says(message@),
            },
    {
        match value {
            Ok(v) => InvokeError(v),
            Err(e) => Self::from_error(describe_json_error(&e)),
        }
    }
}

impl FromSpecImpl<Result<serde_json::Value, serde_json::Error>> for InvokeError {
    open spec fn obeys_from_spec() -> bool {
        false
    }

    open spec fn from_spec(value: Result<serde_json::Value, serde_json::Error>) -> Self {
        arbitrary()
    }
}

impl From<IpcError> for InvokeError {
    fn from(error: IpcError) -> (invoke_error: Self)
        ensures
            exists|message: String| #[trigger]
                error.says(message) && invoke_error.says(message@),
    {
        Self::from_error(error.message())
    }
}

impl FromSpecImpl<IpcError> for InvokeError {
    open spec fn obeys_from_spec() -> bool {
        false
    }

    open spec fn from_spec(error: IpcError) -> Self {
        arbitrary()
    }
}

/// Response from a message passed to the resolver.
#[derive(Debug)]
pub enum InvokeResponse {
    /// Resolve the promise.
    Resolve(InvokeResponseBody),
    /// Reject the promise.
    Reject(InvokeError),
}

/// Whether a response is the right one for a body that was resolved, or that
/// could not be.
pub open spec fn responds(
    response: InvokeResponse,
    body: Result<InvokeResponseBody, IpcError>,
) -> bool {
    match body {
        Ok(b) => response == InvokeResponse::Resolve(b),
        Err(e) => response matches InvokeResponse::Reject(error) && exists|message: String|
            #[trigger]
            e.says(message) && error.says(message@),
    }
}

/// Whether a response is the right one for the result of a command: for its body
/// if it succeeded, else the rejection with its error.
pub open spec fn answers<T: IpcResponse, E: Into<InvokeError>>(
    response: InvokeResponse,
    result: Result<T, E>,
) -> bool {
    match result {
        Ok(value) => exists|body: Result<InvokeResponseBody, IpcError>| #[trigger]
            call_ensures(T::body, (value,), body) && responds(response, body),
        Err(err) => exists|error: InvokeError| #[trigger]
            call_ensures(E::into, (err,), error) && response == InvokeResponse::Reject(error),
    }
}

impl InvokeResponse {
    /// The response for a body that was resolved, or that could not be.
    pub fn from_body(body: Result<InvokeResponseBody, IpcError>) -> (response: Self)
        ensures
            responds(response, body),
    {
        match body {
            Ok(value) => InvokeResponse::Resolve(value),
            Err(err) => InvokeResponse::Reject(InvokeError::from_error(err.message())),
        }
    }
}

impl<T: IpcResponse, E: Into<InvokeError>> From<Result<T, E>> for InvokeResponse {
    fn from(result: Result<T, E>) -> (response: Self)
        ensures
            answers(response, result),
    {
        match result {
            Ok(ok) => {
                let body = ok.body();
                Self::from_body(body)
            },
            Err(err) => InvokeResponse::Reject(err.into()),
        }
    }
}

impl<T: IpcResponse, E: Into<InvokeError>> FromSpecImpl<Result<T, E>> for InvokeResponse {
    open spec fn obeys_from_spec() -> bool {
        false
    }

    open spec fn from_spec(result: Result<T, E>) -> Self {
        arbitrary()
    }
}

impl From<InvokeError> for InvokeResponse {
    fn from(error: InvokeError) -> (response: Self) {
        InvokeResponse::Reject(error)
    }
}

impl FromSpecImpl<InvokeError> for InvokeResponse {
    open spec fn obeys_from_spec() -> bool {
        true
    }

    open spec fn from_spec(error: InvokeError) -> Self {
        InvokeResponse::Reject(error)
    }
}

} // verus!
