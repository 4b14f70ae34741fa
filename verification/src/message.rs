//! Invoke messages and the requests that they carry.

use crate::body::InvokeBody;
use crate::resolver::InvokeResolver;
use crate::response::InvokeError;
use std::sync::Arc;
use vstd::prelude::*;

verus! {

#[verifier::external_type_specification]
#[verifier::external_body]
#[verifier::reject_recursive_types(T)]
pub struct ExHeaderMap<T>(http::HeaderMap<T>);

#[verifier::external_type_specification]
#[verifier::external_body]
pub struct ExHeaderValue(http::HeaderValue);

/// The headers in a `http::HeaderMap`: for each name its values, in order.
pub uninterp spec fn header_contents(headers: http::HeaderMap) -> Map<Seq<char>, Seq<Seq<u8>>>;

/// Calls `http::HeaderMap::clone`.
///
/// Trusted: the copy holds the same headers.
#[verifier::external_body]
fn clone_headers(headers: &http::HeaderMap) -> (copy: http::HeaderMap)
    ensures
        header_contents(copy) == header_contents(*headers),
{
    headers.clone()
}

/// What an invoke message holds.
pub struct MessageView<W, S> {
    pub webview: W,
    pub state: Arc<S>,
    pub command: Seq<char>,
    pub payload: InvokeBody,
    pub headers: http::HeaderMap,
}

/// An invoke message, from a webview of type `W` to an application whose state is
/// managed by an `S`.
#[derive(Debug)]
pub struct InvokeMessage<W, S> {
    /// The webview that received the invoke message.
    webview: W,
    /// Application managed state.
    state: Arc<S>,
    /// The IPC command.
    command: String,
    /// The JSON argument passed on the invoke message.
    payload: InvokeBody,
    /// The request headers.
    headers: http::HeaderMap,
}

impl<W, S> View for InvokeMessage<W, S> {
    type V = MessageView<W, S>;

    closed spec fn view(&self) -> MessageView<W, S> {
        MessageView {
            webview: self.webview,
            state: self.state,
            command: self.command@,
            payload: self.payload,
            headers: self.headers,
        }
    }
}

impl<W: Clone, S> Clone for InvokeMessage<W, S> {
    fn clone(&self) -> (copy: Self)
        ensures
            cloned(self@.webview, copy@.webview),
            copy@.state == self@.state,
            copy@.command == self@.command,
            copy@.payload@ == self@.payload@,
            header_contents(copy@.headers) == header_contents(self@.headers),
    {
        InvokeMessage {
            webview: self.webview.clone(),
            state: self.state.clone(),
            command: self.command.clone(),
            payload: self.payload.clone(),
            headers: clone_headers(&self.headers),
        }
    }
}

impl<W, S> InvokeMessage<W, S> {
    /// Create a new [`InvokeMessage`] from a payload sent by a webview.
    pub fn new(
        webview: W,
        state: Arc<S>,
        command: String,
        payload: InvokeBody,
        headers: http::HeaderMap,
    ) -> (message: Self)
        ensures
            message@ == (MessageView { webview, state, command: command@, payload, headers }),
    {
        InvokeMessage { webview, state, command, payload, headers }
    }

    /// The invoke command.
    pub fn command(&self) -> (command: &str)
        ensures
            command@ == self@.command,
    {
        self.command.as_str()
    }

    /// The webview that received the invoke.
    pub fn webview(&self) -> (webview: W) where W: Clone
        ensures
            cloned(self@.webview, webview),
    {
        self.webview.clone()
    }

    /// A reference to webview that received the invoke.
    pub fn webview_ref(&self) -> (webview: &W)
        ensures
            *webview == self@.webview,
    {
        &self.webview
    }

    /// A reference to the payload the invoke received.
    pub fn payload(&self) -> (payload: &InvokeBody)
        ensures
            *payload == self@.payload,
    {
        &self.payload
    }

    /// The state manager associated with the application.
    pub fn state(&self) -> (state: Arc<S>)
        ensures
            state == self@.state,
    {
        self.state.clone()
    }

    /// A reference to the state manager associated with application.
    pub fn state_ref(&self) -> (state: &S)
        ensures
            *state == *self@.state,
    {
        &self.state
    }

    /// The request headers.
    pub fn headers(&self) -> (headers: &http::HeaderMap)
        ensures
            *headers == self@.headers,
    {
        &self.headers
    }
}

/// The IPC request.
///
/// Includes the `body` and `headers` parameters of a command invocation. This
/// allows commands to accept raw bytes, on all platforms except Android.
#[derive(Debug)]
pub struct Request<'a> {
    body: &'a InvokeBody,
    headers: &'a http::HeaderMap,
}

/// What an IPC request refers to.
pub struct RequestView {
    pub body: InvokeBody,
    pub headers: http::HeaderMap,
}

impl<'a> View for Request<'a> {
    type V = RequestView;

    closed spec fn view(&self) -> RequestView {
        RequestView { body: *self.body, headers: *self.headers }
    }
}

impl<'a> Request<'a> {
    /// The request body.
    pub fn body(&self) -> (body: &InvokeBody)
        ensures
            *body == self@.body,
    {
        self.body
    }

    /// The request headers.
    pub fn headers(&self) -> (headers: &http::HeaderMap)
        ensures
            *headers == self@.headers,
    {
        self.headers
    }

    /// Returns the invoke [`Request`] of a message.
    pub fn from_command<W, S>(message: &'a InvokeMessage<W, S>) -> (result: Result<
        Self,
        InvokeError,
    >)
        ensures
            result matches Ok(request) && request@.body == message@.payload && request@.headers
                == message@.headers,
    {
        Ok(Request { body: message.payload(), headers: message.headers() })
    }
}

/// The message and resolver given to a custom command.
pub struct Invoke<W, S, C> {
    /// The message passed.
    pub message: InvokeMessage<W, S>,
    /// The resolver of the message.
    pub resolver: InvokeResolver<W>,
    /// Resolved ACL for this IPC invoke.
    pub acl: Option<Vec<C>>,
}

} // verus!
