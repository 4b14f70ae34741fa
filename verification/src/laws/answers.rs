//! How an invoke is answered.

use crate::body::{InvokeResponseBody, IpcResponse};
use crate::error::IpcError;
use crate::json::{json_contents, json_error_says, JsonView};
use crate::resolver::{CallbackFn, InvokeResolver};
use crate::response::{anyhow_says, InvokeError, InvokeResponse};
use vstd::prelude::*;

verus! {

/// An error of a message is that message, as a JSON string.
pub proof fn law_error_of_message(message: String, error: InvokeError)
    requires
        call_ensures(InvokeError::from_error, (message,), error),
    ensures
        json_contents(error.0) == JsonView::String(message@),
{
}

/// An error of an `anyhow::Error` is what that error says with its causes.
pub proof fn law_error_of_anyhow(source: anyhow::Error, error: InvokeError)
    requires
        call_ensures(InvokeError::from_anyhow, (source,), error),
    ensures
        exists|message: String| #[trigger]
            anyhow_says(source, message) && json_contents(error.0) == JsonView::String(message@),
{
}

/// An error of a value is that value, as it is. Where the value could not be
/// serialized, it is what the reason says.
pub proof fn law_error_of_value(
    value: Result<serde_json::Value, serde_json::Error>,
    error: InvokeError,
)
    requires
        call_ensures(
            <InvokeError as From<Result<serde_json::Value, serde_json::Error>>>::from,
            (value,),
            error,
        ),
    ensures
        match value {
            Ok(v) => error.0 == v,
            Err(reason) => exists|message: String| #[trigger]
                json_error_says(reason, message) && json_contents(error.0) == JsonView::String(
                    message@,
                ),
        },
{
}

/// An error of this crate becomes its message.
pub proof fn law_error_of_ipc_error(source: IpcError, error: InvokeError)
    requires
        call_ensures(<InvokeError as From<IpcError>>::from, (source,), error),
    ensures
        match source {
            IpcError::InvalidFloat => json_contents(error.0) == JsonView::String(
                "invalid floating point value"@,
            ),
            IpcError::InvalidMapKey => json_contents(error.0) == JsonView::String(
                "map key must be a string, number, bool, or null"@,
            ),
            IpcError::ValueBeforeKey => json_contents(error.0) == JsonView::String(
                "serialize_value called before serialize_key"@,
            ),
            IpcError::Json(inner) => exists|message: String| #[trigger]
                json_error_says(inner, message) && json_contents(error.0) == JsonView::String(
                    message@,
                ),
        },
{
}

/// A body resolves the promise, whatever body it is, and is the response itself.
/// An error rejects the promise with its message.
pub proof fn law_response_of_body(
    body: Result<InvokeResponseBody, IpcError>,
    response: InvokeResponse,
)
    requires
        call_ensures(InvokeResponse::from_body, (body,), response),
    ensures
        match body {
            Ok(b) => response == InvokeResponse::Resolve(b),
            Err(source) => response matches InvokeResponse::Reject(error) && match source {
                IpcError::InvalidFloat => json_contents(error.0) == JsonView::String(
                    "invalid floating point value"@,
                ),
                IpcError::InvalidMapKey => json_contents(error.0) == JsonView::String(
                    "map key must be a string, number, bool, or null"@,
                ),
                IpcError::ValueBeforeKey => json_contents(error.0) == JsonView::String(
                    "serialize_value called before serialize_key"@,
                ),
                IpcError::Json(inner) => exists|message: String| #[trigger]
                    json_error_says(inner, message) && json_contents(error.0) == JsonView::String(
                        message@,
                    ),
            },
        },
{
}

/// The promise of a command that succeeded is resolved with exactly the body of
/// what it returned, and is rejected only where that body is an error. The promise
/// of a command that failed is rejected with its error.
pub proof fn law_response_of_result<T: IpcResponse, E: Into<InvokeError>>(
    result: Result<T, E>,
    response: InvokeResponse,
)
    requires
        call_ensures(<InvokeResponse as From<Result<T, E>>>::from, (result,), response),
    ensures
        match (result, response) {
            (Ok(value), InvokeResponse::Resolve(body)) => call_ensures(
                T::body,
                (value,),
                Ok::<InvokeResponseBody, IpcError>(body),
            ),
            (Ok(value), InvokeResponse::Reject(error)) => exists|source: IpcError| #[trigger]
                call_ensures(T::body, (value,), Err::<InvokeResponseBody, IpcError>(source))
                    && match source {
                    IpcError::InvalidFloat => json_contents(error.0) == JsonView::String(
                        "invalid floating point value"@,
                    ),
                    IpcError::InvalidMapKey => json_contents(error.0) == JsonView::String(
                        "map key must be a string, number, bool, or null"@,
                    ),
                    IpcError::ValueBeforeKey => json_contents(error.0) == JsonView::String(
                        "serialize_value called before serialize_key"@,
                    ),
                    IpcError::Json(inner) => exists|message: String| #[trigger]
                        json_error_says(inner, message) && json_contents(error.0)
                            == JsonView::String(message@),
                },
            (Err(err), InvokeResponse::Reject(error)) => call_ensures(E::into, (err,), error),
            (Err(_), InvokeResponse::Resolve(_)) => false,
        },
{
}

/// A body that a command returned resolves the promise as it is.
pub proof fn law_returned_body_resolves(body: InvokeResponseBody, response: InvokeResponse)
    requires
        call_ensures(
            <InvokeResponse as From<Result<InvokeResponseBody, InvokeError>>>::from,
            (Ok::<InvokeResponseBody, InvokeError>(body),),
            response,
        ),
    ensures
        response == InvokeResponse::Resolve(body),
{
}

/// An error that a command returned rejects the promise as it is.
pub proof fn law_returned_error_rejects(error: InvokeError, response: InvokeResponse)
    requires
        call_ensures(
            <InvokeResponse as From<Result<InvokeResponseBody, InvokeError>>>::from,
            (Err::<InvokeResponseBody, InvokeError>(error),),
            response,
        ),
    ensures
        response == InvokeResponse::Reject(error),
{
}

/// An error alone rejects the promise as it is.
pub proof fn law_error_rejects(error: InvokeError, response: InvokeResponse)
    requires
        call_ensures(<InvokeResponse as From<InvokeError>>::from, (error,), response),
    ensures
        response == InvokeResponse::Reject(error),
{
}

/// The responder is taken out of its slot and called with the webview, the
/// command, the response, the success callback in the fourth place and the error
/// callback in the fifth, whichever callbacks they are.
pub proof fn law_return_result<W, F>(
    webview: W,
    responder: &mut Option<F>,
    response: InvokeResponse,
    cmd: String,
    success_callback: CallbackFn,
    error_callback: CallbackFn,
) where F: FnOnce(W, String, InvokeResponse, CallbackFn, CallbackFn)
    requires
        call_ensures(
            InvokeResolver::<W>::return_result::<F>,
            (webview, responder, response, cmd, success_callback, error_callback),
            (),
        ),
    ensures
        *final(responder) is None,
        *old(responder) matches Some(f) && call_ensures(
            f,
            (webview, cmd, response, success_callback, error_callback),
            (),
        ),
{
}

/// Whoever holds a slot with a responder that takes any response can answer, in
/// each of the ways that there are.
pub proof fn law_open_slots_can_be_answered<W, T: IpcResponse, F>(
    resolver: InvokeResolver<W>,
    responder: &mut Option<F>,
    webview: W,
    cmd: String,
    callbacks: (CallbackFn, CallbackFn),
    response: InvokeResponse,
    result: Result<T, InvokeError>,
    body: Result<InvokeResponseBody, InvokeError>,
    value: Result<serde_json::Value, serde_json::Error>,
    error: InvokeError,
    plain: T,
) where F: FnOnce(W, String, InvokeResponse, CallbackFn, CallbackFn)
    requires
        *old(responder) matches Some(f) && forall|
            args: (W, String, InvokeResponse, CallbackFn, CallbackFn),
        | #[trigger]
            call_requires(f, args),
    ensures
        call_requires(
            InvokeResolver::<W>::return_result::<F>,
            (webview, responder, response, cmd, callbacks.0, callbacks.1),
        ),
        call_requires(InvokeResolver::<W>::respond::<T, F>, (resolver, responder, result)),
        call_requires(InvokeResolver::<W>::respond_serialized::<F>, (resolver, responder, body)),
        call_requires(InvokeResolver::<W>::resolve::<T, F>, (resolver, responder, plain)),
        call_requires(InvokeResolver::<W>::reject::<F>, (resolver, responder, value)),
        call_requires(InvokeResolver::<W>::invoke_error::<F>, (resolver, responder, error)),
{
}

/// A resolver answers with a result that is already serialized as it is, on the
/// webview, command and callbacks that it was made with, each in its place.
pub proof fn law_respond_serialized<W, F>(
    webview: W,
    cmd: String,
    success_callback: CallbackFn,
    error_callback: CallbackFn,
    resolver: InvokeResolver<W>,
    responder: &mut Option<F>,
    result: Result<InvokeResponseBody, InvokeError>,
) where F: FnOnce(W, String, InvokeResponse, CallbackFn, CallbackFn)
    requires
        call_ensures(
            InvokeResolver::<W>::new,
            (webview, cmd, success_callback, error_callback),
            resolver,
        ),
        call_ensures(
            InvokeResolver::<W>::respond_serialized::<F>,
            (resolver, responder, result),
            (),
        ),
    ensures
        *final(responder) is None,
        *old(responder) matches Some(f) && match result {
            Ok(body) => call_ensures(
                f,
                (webview, cmd, InvokeResponse::Resolve(body), success_callback, error_callback),
                (),
            ),
            Err(error) => call_ensures(
                f,
                (webview, cmd, InvokeResponse::Reject(error), success_callback, error_callback),
                (),
            ),
        },
{
}

/// A resolver rejects with an error as it is, on the webview, command and callbacks
/// that it was made with, each in its place.
pub proof fn law_invoke_error<W, F>(
    webview: W,
    cmd: String,
    success_callback: CallbackFn,
    error_callback: CallbackFn,
    resolver: InvokeResolver<W>,
    responder: &mut Option<F>,
    error: InvokeError,
) where F: FnOnce(W, String, InvokeResponse, CallbackFn, CallbackFn)
    requires
        call_ensures(
            InvokeResolver::<W>::new,
            (webview, cmd, success_callback, error_callback),
            resolver,
        ),
        call_ensures(InvokeResolver::<W>::invoke_error::<F>, (resolver, responder, error), ()),
    ensures
        *final(responder) is None,
        *old(responder) matches Some(f) && call_ensures(
            f,
            (webview, cmd, InvokeResponse::Reject(error), success_callback, error_callback),
            (),
        ),
{
}

/// A resolver rejects with a value as it is, or with what the reason says for which
/// the value could not be serialized, on the webview, command and callbacks that it
/// was made with, each in its place.
pub proof fn law_reject<W, F>(
    webview: W,
    cmd: String,
    success_callback: CallbackFn,
    error_callback: CallbackFn,
    resolver: InvokeResolver<W>,
    responder: &mut Option<F>,
    value: Result<serde_json::Value, serde_json::Error>,
) where F: FnOnce(W, String, InvokeResponse, CallbackFn, CallbackFn)
    requires
        call_ensures(
            InvokeResolver::<W>::new,
            (webview, cmd, success_callback, error_callback),
            resolver,
        ),
        call_ensures(InvokeResolver::<W>::reject::<F>, (resolver, responder, value), ()),
    ensures
        *final(responder) is None,
        *old(responder) matches Some(f) && match value {
            Ok(v) => call_ensures(
                f,
                (
                    webview,
                    cmd,
                    InvokeResponse::Reject(InvokeError(v)),
                    success_callback,
                    error_callback,
                ),
                (),
            ),
            Err(reason) => exists|error: InvokeError, message: String|
                #![trigger json_error_says(reason, message), json_contents(error.0)]
                json_error_says(reason, message) && json_contents(error.0) == JsonView::String(
                    message@,
                ) && call_ensures(
                    f,
                    (webview, cmd, InvokeResponse::Reject(error), success_callback, error_callback),
                    (),
                ),
        },
{
}

/// A resolver answers a command that succeeded with exactly the body of what it
/// returned; with a rejection only where that body is an error; and a command that
/// failed with its error: on the webview, command and callbacks that the resolver
/// was made with, each in its place.
pub proof fn law_respond<W, T: IpcResponse, F>(
    webview: W,
    cmd: String,
    success_callback: CallbackFn,
    error_callback: CallbackFn,
    resolver: InvokeResolver<W>,
    responder: &mut Option<F>,
    value: Result<T, InvokeError>,
) where F: FnOnce(W, String, InvokeResponse, CallbackFn, CallbackFn)
    requires
        call_ensures(
            InvokeResolver::<W>::new,
            (webview, cmd, success_callback, error_callback),
            resolver,
        ),
        call_ensures(InvokeResolver::<W>::respond::<T, F>, (resolver, responder, value), ()),
    ensures
        *final(responder) is None,
        *old(responder) matches Some(f) && exists|response: InvokeResponse| #[trigger]
            call_ensures(f, (webview, cmd, response, success_callback, error_callback), ())
                && match (value, response) {
                (Ok(v), InvokeResponse::Resolve(body)) => call_ensures(
                    T::body,
                    (v,),
                    Ok::<InvokeResponseBody, IpcError>(body),
                ),
                (Ok(v), InvokeResponse::Reject(error)) => exists|source: IpcError| #[trigger]
                    call_ensures(T::body, (v,), Err::<InvokeResponseBody, IpcError>(source))
                        && match source {
                        IpcError::InvalidFloat => json_contents(error.0) == JsonView::String(
                            "invalid floating point value"@,
                        ),
                        IpcError::InvalidMapKey => json_contents(error.0) == JsonView::String(
                            "map key must be a string, number, bool, or null"@,
                        ),
                        IpcError::ValueBeforeKey => json_contents(error.0) == JsonView::String(
                            "serialize_value called before serialize_key"@,
                        ),
                        IpcError::Json(inner) => exists|message: String| #[trigger]
                            json_error_says(inner, message) && json_contents(error.0)
                                == JsonView::String(message@),
                    },
                (Err(e), InvokeResponse::Reject(error)) => error == e,
                (Err(_), InvokeResponse::Resolve(_)) => false,
            },
{
}

/// A resolver resolves with exactly the body of the value, and rejects only where
/// that body is an error: on the webview, command and callbacks that the resolver
/// was made with, each in its place.
pub proof fn law_resolve<W, T: IpcResponse, F>(
    webview: W,
    cmd: String,
    success_callback: CallbackFn,
    error_callback: CallbackFn,
    resolver: InvokeResolver<W>,
    responder: &mut Option<F>,
    value: T,
) where F: FnOnce(W, String, InvokeResponse, CallbackFn, CallbackFn)
    requires
        call_ensures(
            InvokeResolver::<W>::new,
            (webview, cmd, success_callback, error_callback),
            resolver,
        ),
        call_ensures(InvokeResolver::<W>::resolve::<T, F>, (resolver, responder, value), ()),
    ensures
        *final(responder) is None,
        *old(responder) matches Some(f) && exists|response: InvokeResponse| #[trigger]
            call_ensures(f, (webview, cmd, response, success_callback, error_callback), ())
                && match response {
                InvokeResponse::Resolve(body) => call_ensures(
                    T::body,
                    (value,),
                    Ok::<InvokeResponseBody, IpcError>(body),
                ),
                InvokeResponse::Reject(error) => exists|source: IpcError| #[trigger]
                    call_ensures(T::body, (value,), Err::<InvokeResponseBody, IpcError>(source))
                        && match source {
                        IpcError::InvalidFloat => json_contents(error.0) == JsonView::String(
                            "invalid floating point value"@,
                        ),
                        IpcError::InvalidMapKey => json_contents(error.0) == JsonView::String(
                            "map key must be a string, number, bool, or null"@,
                        ),
                        IpcError::ValueBeforeKey => json_contents(error.0) == JsonView::String(
                            "serialize_value called before serialize_key"@,
                        ),
                        IpcError::Json(inner) => exists|message: String| #[trigger]
                            json_error_says(inner, message) && json_contents(error.0)
                                == JsonView::String(message@),
                    },
            },
{
}

/// What a function returned is answered like what a command returned, on the
/// webview, command and callbacks that were given, each in its place.
pub proof fn law_return_closure<W, T: IpcResponse, G, F>(
    webview: W,
    responder: &mut Option<F>,
    f: G,
    cmd: String,
    success_callback: CallbackFn,
    error_callback: CallbackFn,
) where
    G: FnOnce() -> Result<T, InvokeError>,
    F: FnOnce(W, String, InvokeResponse, CallbackFn, CallbackFn),

    requires
        call_ensures(
            InvokeResolver::<W>::return_closure::<T, G, F>,
            (webview, responder, f, cmd, success_callback, error_callback),
            (),
        ),
    ensures
        *final(responder) is None,
        *old(responder) matches Some(called) && exists|
            value: Result<T, InvokeError>,
            response: InvokeResponse,
        |
            #![trigger call_ensures(f, (), value), call_ensures(called, (webview, cmd, response, success_callback, error_callback), ())]
            call_ensures(f, (), value) && call_ensures(
                called,
                (webview, cmd, response, success_callback, error_callback),
                (),
            ) && match (value, response) {
                (Ok(v), InvokeResponse::Resolve(body)) => call_ensures(
                    T::body,
                    (v,),
                    Ok::<InvokeResponseBody, IpcError>(body),
                ),
                (Ok(v), InvokeResponse::Reject(error)) => exists|source: IpcError| #[trigger]
                    call_ensures(T::body, (v,), Err::<InvokeResponseBody, IpcError>(source))
                        && match source {
                        IpcError::InvalidFloat => json_contents(error.0) == JsonView::String(
                            "invalid floating point value"@,
                        ),
                        IpcError::InvalidMapKey => json_contents(error.0) == JsonView::String(
                            "map key must be a string, number, bool, or null"@,
                        ),
                        IpcError::ValueBeforeKey => json_contents(error.0) == JsonView::String(
                            "serialize_value called before serialize_key"@,
                        ),
                        IpcError::Json(inner) => exists|message: String| #[trigger]
                            json_error_says(inner, message) && json_contents(error.0)
                                == JsonView::String(message@),
                    },
                (Err(e), InvokeResponse::Reject(error)) => error == e,
                (Err(_), InvokeResponse::Resolve(_)) => false,
            },
{
}

/// Whoever holds a slot with a responder that takes any response can answer with
/// what a function returns that can be called.
pub proof fn law_open_slots_take_closures<W, T: IpcResponse, G, F>(
    webview: W,
    responder: &mut Option<F>,
    f: G,
    cmd: String,
    success_callback: CallbackFn,
    error_callback: CallbackFn,
) where
    G: FnOnce() -> Result<T, InvokeError>,
    F: FnOnce(W, String, InvokeResponse, CallbackFn, CallbackFn),

    requires
        call_requires(f, ()),
        *old(responder) matches Some(called) && forall|
            args: (W, String, InvokeResponse, CallbackFn, CallbackFn),
        | #[trigger]
            call_requires(called, args),
    ensures
        call_requires(
            InvokeResolver::<W>::return_closure::<T, G, F>,
            (webview, responder, f, cmd, success_callback, error_callback),
        ),
{
}

/// The copy of a resolver answers like the resolver: on a copy of the webview, and
/// on the command and callbacks that the resolver was made with, each in its place.
pub proof fn law_resolver_clone<W: Clone, F>(
    webview: W,
    cmd: String,
    success_callback: CallbackFn,
    error_callback: CallbackFn,
    resolver: InvokeResolver<W>,
    copy: InvokeResolver<W>,
    responder: &mut Option<F>,
    error: InvokeError,
) where F: FnOnce(W, String, InvokeResponse, CallbackFn, CallbackFn)
    requires
        call_ensures(
            InvokeResolver::<W>::new,
            (webview, cmd, success_callback, error_callback),
            resolver,
        ),
        call_ensures(<InvokeResolver<W> as Clone>::clone, (&resolver,), copy),
        call_ensures(InvokeResolver::<W>::invoke_error::<F>, (copy, responder, error), ()),
    ensures
        *final(responder) is None,
        *old(responder) matches Some(f) && exists|other: W|
            #![trigger cloned(webview, other)]
            cloned(webview, other) && call_ensures(
                f,
                (other, cmd, InvokeResponse::Reject(error), success_callback, error_callback),
                (),
            ),
{
}

} // verus!
