//! What invoke messages and requests hand out.

use crate::body::InvokeBody;
use crate::json::json_contents;
use crate::message::{header_contents, InvokeMessage, Request};
use crate::response::InvokeError;
use std::sync::Arc;
use vstd::prelude::*;

verus! {

/// A message hands out the command, the payload and the headers that it was made
/// with.
pub proof fn law_message_content<W, S>(
    webview: W,
    state: Arc<S>,
    command: String,
    payload: InvokeBody,
    headers: http::HeaderMap,
    message: InvokeMessage<W, S>,
    given_command: &str,
    given_payload: &InvokeBody,
    given_headers: &http::HeaderMap,
)
    requires
        call_ensures(
            InvokeMessage::<W, S>::new,
            (webview, state, command, payload, headers),
            message,
        ),
        call_ensures(InvokeMessage::<W, S>::command, (&message,), given_command),
        call_ensures(InvokeMessage::<W, S>::payload, (&message,), given_payload),
        call_ensures(InvokeMessage::<W, S>::headers, (&message,), given_headers),
    ensures
        given_command@ == command@,
        *given_payload == payload,
        *given_headers == headers,
{
}

/// A message hands out the webview and the state that it was made with, or a copy
/// of the webview.
pub proof fn law_message_origin<W: Clone, S>(
    webview: W,
    state: Arc<S>,
    command: String,
    payload: InvokeBody,
    headers: http::HeaderMap,
    message: InvokeMessage<W, S>,
    copied_webview: W,
    given_webview: &W,
    shared_state: Arc<S>,
    given_state: &S,
)
    requires
        call_ensures(
            InvokeMessage::<W, S>::new,
            (webview, state, command, payload, headers),
            message,
        ),
        call_ensures(InvokeMessage::<W, S>::webview, (&message,), copied_webview),
        call_ensures(InvokeMessage::<W, S>::webview_ref, (&message,), given_webview),
        call_ensures(InvokeMessage::<W, S>::state, (&message,), shared_state),
        call_ensures(InvokeMessage::<W, S>::state_ref, (&message,), given_state),
    ensures
        cloned(webview, copied_webview),
        *given_webview == webview,
        shared_state == state,
        *given_state == *state,
{
}

/// The copy of a message hands out what the message does: the same command, state
/// and headers, an equal payload and a copy of the webview.
pub proof fn law_message_clone<W: Clone, S>(
    message: InvokeMessage<W, S>,
    copy: InvokeMessage<W, S>,
    commands: (&str, &str),
    payloads: (&InvokeBody, &InvokeBody),
    headers: (&http::HeaderMap, &http::HeaderMap),
    webviews: (&W, &W),
    states: (Arc<S>, Arc<S>),
)
    requires
        call_ensures(<InvokeMessage<W, S> as Clone>::clone, (&message,), copy),
        call_ensures(InvokeMessage::<W, S>::command, (&message,), commands.0),
        call_ensures(InvokeMessage::<W, S>::command, (&copy,), commands.1),
        call_ensures(InvokeMessage::<W, S>::payload, (&message,), payloads.0),
        call_ensures(InvokeMessage::<W, S>::payload, (&copy,), payloads.1),
        call_ensures(InvokeMessage::<W, S>::headers, (&message,), headers.0),
        call_ensures(InvokeMessage::<W, S>::headers, (&copy,), headers.1),
        call_ensures(InvokeMessage::<W, S>::webview_ref, (&message,), webviews.0),
        call_ensures(InvokeMessage::<W, S>::webview_ref, (&copy,), webviews.1),
        call_ensures(InvokeMessage::<W, S>::state, (&message,), states.0),
        call_ensures(InvokeMessage::<W, S>::state, (&copy,), states.1),
    ensures
        commands.0@ == commands.1@,
        match *payloads.0 {
            InvokeBody::Json(value) => *payloads.1 matches InvokeBody::Json(other)
                && json_contents(other) == json_contents(value),
            InvokeBody::Raw(bytes) => *payloads.1 matches InvokeBody::Raw(other) && other@
                == bytes@,
        },
        header_contents(*headers.0) == header_contents(*headers.1),
        cloned(*webviews.0, *webviews.1),
        states.0 == states.1,
{
}

/// The request of a message is always there, and refers to the payload and the
/// headers that the message was made with.
pub proof fn law_request_of_message<'a, W, S>(
    webview: W,
    state: Arc<S>,
    command: String,
    payload: InvokeBody,
    headers: http::HeaderMap,
    message: &'a InvokeMessage<W, S>,
    request: Result<Request<'a>, InvokeError>,
    body: &InvokeBody,
    given_headers: &http::HeaderMap,
)
    requires
        call_ensures(
            InvokeMessage::<W, S>::new,
            (webview, state, command, payload, headers),
            *message,
        ),
        call_ensures(Request::<'a>::from_command::<W, S>, (message,), request),
        request matches Ok(r) ==> call_ensures(Request::<'a>::body, (&r,), body),
        request matches Ok(r) ==> call_ensures(Request::<'a>::headers, (&r,), given_headers),
    ensures
        request is Ok,
        *body == payload,
        *given_headers == headers,
{
}

} // verus!
