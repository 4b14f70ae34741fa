//! The resolver of an invoke message, which hands its response to the responder.

use crate::body::{InvokeResponseBody, IpcResponse};
use crate::json::json_error_says;
use crate::response::{answers, InvokeError, InvokeResponse};
use vstd::prelude::*;

verus! {

/// The `Callback` type is the return value of the `transformCallback` JavaScript function.
#[derive(Debug, Clone, Copy, Eq, PartialEq, Hash, Structural)]
pub struct CallbackFn(pub u32);

/// Resolver of an invoke message, which came from a webview of type `W`.
///
/// The responder stands in a slot of its own, which the clones of a resolver
/// share. Whoever responds first takes it.
pub struct InvokeResolver<W> {
    webview: W,
    cmd: String,
    callback: CallbackFn,
    error: CallbackFn,
}

/// Whether the slot still holds a responder, and one that takes any response.
pub open spec fn is_open<W, F>(slot: Option<F>) -> bool where
    F: FnOnce(W, String, InvokeResponse, CallbackFn, CallbackFn),
 {
    slot matches Some(responder) && forall|
        args: (W, String, InvokeResponse, CallbackFn, CallbackFn),
    | #[trigger]
        call_requires(responder, args)
}

/// Whether the responder that stood in the slot was taken out of it and called
/// with the given response.
pub open spec fn is_answered<W, F>(
    before: Option<F>,
    after: Option<F>,
    webview: W,
    cmd: String,
    response: InvokeResponse,
    success_callback: CallbackFn,
    error_callback: CallbackFn,
) -> bool where F: FnOnce(W, String, InvokeResponse, CallbackFn, CallbackFn) {
    &&& after is None
    &&& before matches Some(responder)
    &&& call_ensures(responder, (webview, cmd, response, success_callback, error_callback), ())
}

/// A message is answered at most once: after a response the slot is no longer
/// open, whichever resolver is asked to respond.
pub proof fn law_answered_once<W, F>(
    before: Option<F>,
    after: Option<F>,
    webview: W,
    cmd: String,
    response: InvokeResponse,
    success_callback: CallbackFn,
    error_callback: CallbackFn,
) where F: FnOnce(W, String, InvokeResponse, CallbackFn, CallbackFn)
    requires
        is_answered(before, after, webview, cmd, response, success_callback, error_callback),
    ensures
        before is Some,
        !is_open::<W, F>(after),
{
}

impl<W: Clone> Clone for InvokeResolver<W> {
    fn clone(&self) -> (copy: Self)
        ensures
            cloned(self.webview(), copy.webview()),
            copy.cmd() == self.cmd(),
            copy.success_callback() == self.success_callback(),
            copy.error_callback() == self.error_callback(),
    {
        InvokeResolver {
            webview: self.webview.clone(),
            cmd: self.cmd.clone(),
            callback: self.callback,
            error: self.error,
        }
    }
}

impl<W> InvokeResolver<W> {
    /// The webview that the message came from.
    pub closed spec fn webview(self) -> W {
        self.webview
    }

    /// The command of the message.
    pub closed spec fn cmd(self) -> String {
        self.cmd
    }

    /// The callback of a response that resolves the promise.
    pub closed spec fn success_callback(self) -> CallbackFn {
        self.callback
    }

    /// The callback of a response that rejects the promise.
    pub closed spec fn error_callback(self) -> CallbackFn {
        self.error
    }

    /// Whether the responder in the slot was called with the given response to
    /// the message of this resolver.
    pub open spec fn answered<F>(
        self,
        before: Option<F>,
        after: Option<F>,
        response: InvokeResponse,
    ) -> bool where F: FnOnce(W, String, InvokeResponse, CallbackFn, CallbackFn) {
        is_answered(
            before,
            after,
            self.webview(),
            self.cmd(),
            response,
            self.success_callback(),
            self.error_callback(),
        )
    }

    pub fn new(webview: W, cmd: String, callback: CallbackFn, error: CallbackFn) -> (resolver: Self)
        ensures
            resolver.webview() == webview,
            resolver.cmd() == cmd,
            resolver.success_callback() == callback,
            resolver.error_callback() == error,
    {
        InvokeResolver { webview, cmd, callback, error }
    }

    /// Reply to the invoke promise with a value whose body is resolved.
    pub fn respond<T, F>(self, responder: &mut Option<F>, value: Result<T, InvokeError>) where
        T: IpcResponse,
        F: FnOnce(W, String, InvokeResponse, CallbackFn, CallbackFn),

        requires
            is_open::<W, F>(*old(responder)),
        ensures
            exists|response: InvokeResponse| #[trigger]
                self.answered(*old(responder), *final(responder), response) && answers(
                    response,
                    value,
                ),
    {
        let ghost resolver = self;
        let response = InvokeResponse::from(value);
        Self::return_result(
            self.webview,
            responder,
            response,
            self.cmd,
            self.callback,
            self.error,
        );
        assert(resolver.answered(*old(responder), *responder, response));
    }

    /// Reply to the invoke promise with a result that is already serialized.
    pub fn respond_serialized<F>(
        self,
        responder: &mut Option<F>,
        result: Result<InvokeResponseBody, InvokeError>,
    ) where F: FnOnce(W, String, InvokeResponse, CallbackFn, CallbackFn)
        requires
            is_open::<W, F>(*old(responder)),
        ensures
            match result {
                Ok(body) => self.answered(
                    *old(responder),
                    *final(responder),
                    InvokeResponse::Resolve(body),
                ),
                Err(e) => self.answered(
                    *old(responder),
                    *final(responder),
                    InvokeResponse::Reject(e),
                ),
            },
    {
        let response = match result {
            Ok(ok) => InvokeResponse::Resolve(ok),
            Err(err) => InvokeResponse::Reject(err),
        };
        Self::return_result(
            self.webview,
            responder,
            response,
            self.cmd,
            self.callback,
            self.error,
        )
    }

    /// Resolve the invoke promise with a value.
    pub fn resolve<T, F>(self, responder: &mut Option<F>, value: T) where
        T: IpcResponse,
        F: FnOnce(W, String, InvokeResponse, CallbackFn, CallbackFn),

        requires
            is_open::<W, F>(*old(responder)),
        ensures
            exists|response: InvokeResponse| #[trigger]
                self.answered(*old(responder), *final(responder), response) && answers::<
                    T,
                    InvokeError,
                >(response, Ok(value)),
    {
        self.respond(responder, Ok(value))
    }

    /// Reject the invoke promise with a value, given by what serializing it with
    /// `serde_json::to_value` gave.
    pub fn reject<F>(
        self,
        responder: &mut Option<F>,
        value: Result<serde_json::Value, serde_json::Error>,
    ) where F: FnOnce(W, String, InvokeResponse, CallbackFn, CallbackFn)
        requires
            is_open::<W, F>(*old(responder)),
        ensures
            match value {
                Ok(v) => self.answered(
                    *old(responder),
                    *final(responder),
                    InvokeResponse::Reject(InvokeError(v)),
                ),
                Err(e) => exists|error: InvokeError, message: String|
                    self.answered(
                        *old(responder),
                        *final(responder),
                        InvokeResponse::Reject(error),
                    ) && #[trigger] json_error_says(e, message) && #[trigger] error.says(message@),
            },
    {
        let ghost resolver = self;
        let error = InvokeError::from(value);
        let ghost sent = error;
        Self::return_result(
            self.webview,
            responder,
            InvokeResponse::from(error),
            self.cmd,
            self.callback,
            self.error,
        );
        assert(resolver.answered(*old(responder), *responder, InvokeResponse::Reject(sent)));
    }

    /// Reject the invoke promise with an [`InvokeError`].
    pub fn invoke_error<F>(self, responder: &mut Option<F>, error: InvokeError) where
        F: FnOnce(W, String, InvokeResponse, CallbackFn, CallbackFn),

        requires
            is_open::<W, F>(*old(responder)),
        ensures
            self.answered(*old(responder), *final(responder), InvokeResponse::Reject(error)),
    {
        Self::return_result(
            self.webview,
            responder,
            InvokeResponse::from(error),
            self.cmd,
            self.callback,
            self.error,
        )
    }

    /// Calls the given function and answers with its result.
    pub fn return_closure<T, G, F>(
        webview: W,
        responder: &mut Option<F>,
        f: G,
        cmd: String,
        success_callback: CallbackFn,
        error_callback: CallbackFn,
    ) where
        T: IpcResponse,
        G: FnOnce() -> Result<T, InvokeError>,
        F: FnOnce(W, String, InvokeResponse, CallbackFn, CallbackFn),

        requires
            is_open::<W, F>(*old(responder)),
            call_requires(f, ()),
        ensures
            exists|result: Result<T, InvokeError>, response: InvokeResponse|
                call_ensures(f, (), result) && #[trigger] answers(response, result) && is_answered(
                    *old(responder),
                    *final(responder),
                    webview,
                    cmd,
                    response,
                    success_callback,
                    error_callback,
                ),
    {
        let result = f();
        let response = InvokeResponse::from(result);
        Self::return_result(webview, responder, response, cmd, success_callback, error_callback)
    }

    /// Takes the responder out of the slot and hands it the response.
    pub fn return_result<F>(
        webview: W,
        responder: &mut Option<F>,
        response: InvokeResponse,
        cmd: String,
        success_callback: CallbackFn,
        error_callback: CallbackFn,
    ) where F: FnOnce(W, String, InvokeResponse, CallbackFn, CallbackFn)
        requires
            is_open::<W, F>(*old(responder)),
        ensures
            is_answered(
                *old(responder),
                *final(responder),
                webview,
                cmd,
                response,
                success_callback,
                error_callback,
            ),
    {
        let respond = responder.take().unwrap();
        respond(webview, cmd, response, success_callback, error_callback);
    }
}

} // verus!
