use ipc::body::{InvokeBody, InvokeResponseBody, IpcResponse, Response, Serialized};
use ipc::error::IpcError;
use ipc::message::{Invoke, InvokeMessage, Request};
use ipc::resolver::{CallbackFn, InvokeResolver};
use ipc::response::{InvokeError, InvokeResponse};
use serde::de::IntoDeserializer;
use serde::Deserialize;
use serde_json::Value;
use std::cell::RefCell;
use std::sync::Arc;

fn read<T: serde::de::DeserializeOwned>(body: InvokeResponseBody) -> serde_json::Result<T> {
    body.deserialize(
        |json| serde_json::from_str(&json),
        |bytes| T::deserialize(bytes.into_deserializer()),
    )
}

fn json_error() -> serde_json::Error {
    serde_json::from_str::<Value>("]").unwrap_err()
}

fn is_json(body: &InvokeResponseBody, expected: &str) -> bool {
    matches!(body, InvokeResponseBody::Json(text) if text == expected)
}

fn is_raw(body: &InvokeResponseBody, expected: &[u8]) -> bool {
    matches!(body, InvokeResponseBody::Raw(bytes) if bytes == expected)
}

fn text(s: &str) -> Value {
    Value::String(s.to_string())
}

#[test]
fn deserialize_invoke_response_body() {
    let json = InvokeResponseBody::Json("[1, 123, 1231]".to_string());
    assert_eq!(read::<Vec<u16>>(json).unwrap(), vec![1, 123, 1231]);

    let json = InvokeResponseBody::Json("\"string value\"".to_string());
    assert_eq!(read::<String>(json).unwrap(), "string value");

    let json = InvokeResponseBody::Json("\"string value\"".to_string());
    assert!(read::<Vec<u16>>(json).is_err());

    let values = vec![1, 2, 3, 4, 5, 6, 1];
    let raw = InvokeResponseBody::Raw(values.clone());
    assert_eq!(read::<Vec<u8>>(raw).unwrap(), values);
}

#[test]
fn deserialize_to_a_json_value() {
    let json = InvokeResponseBody::Json("[1, 123, 1231]".to_string());
    assert_eq!(
        json.deserialize_value().unwrap(),
        Value::Array(vec![Value::from(1), Value::from(123), Value::from(1231)])
    );
    let raw = InvokeResponseBody::Raw(vec![7, 0]);
    assert_eq!(
        raw.deserialize_value().unwrap(),
        Value::Array(vec![Value::from(7), Value::from(0)])
    );
    let bad = InvokeResponseBody::Json("[1,".to_string());
    let error = bad.deserialize_value().unwrap_err();
    assert!(matches!(error, IpcError::Json(_)));
    assert_eq!(error.message(), "EOF while parsing a value at line 1 column 3");
}

#[test]
fn deserialize_to_an_integer() {
    let read = |text: &str| InvokeResponseBody::Json(text.to_string()).deserialize_i64();
    assert_eq!(read(" 12 ").unwrap(), 12);
    assert_eq!(read("-9223372036854775808").unwrap(), i64::MIN);
    assert_eq!(read("9223372036854775807").unwrap(), i64::MAX);
    for text in [
        "9223372036854775808",
        "-9223372036854775809",
        "1.0",
        "-0",
        "1e2",
        "\"1\"",
        "[1]",
        "null",
        "1 2",
        "",
    ] {
        assert!(matches!(read(text), Err(IpcError::Json(_))));
    }
    assert_eq!(
        read("true").unwrap_err().message(),
        "invalid type: boolean `true`, expected i64 at line 1 column 4"
    );
    for bytes in [vec![], vec![1], vec![1, 2]] {
        let error = InvokeResponseBody::Raw(bytes).deserialize_i64().unwrap_err();
        assert_eq!(error.message(), "invalid type: sequence, expected i64");
    }
}

#[test]
fn responses_read_back() {
    let mut value = Value::Array(vec![
        Value::Null,
        Value::Bool(true),
        Value::from(u64::MAX),
        Value::from(i64::MIN),
        text("tab\t quote\" \u{1f600}"),
    ]);
    for _ in 0..126 {
        value = Value::Array(vec![value]);
    }
    let body = Serialized(Ok(value.clone())).body().unwrap();
    assert_eq!(body.deserialize_value().unwrap(), value);

    // One level more is written, and not read.
    let deeper = Value::Array(vec![value]);
    let body = InvokeResponseBody::from(InvokeBody::from(deeper));
    assert!(body.deserialize_value().is_err());
}

#[test]
fn payloads_read_back() {
    for payload in [InvokeBody::from(text("x")), InvokeBody::from(vec![0u8, 200])] {
        let response = InvokeResponseBody::from(payload.clone());
        assert_eq!(response.deserialize_value().unwrap(), payload.into_json());
    }
}

#[test]
fn bodies_convert() {
    assert!(matches!(InvokeBody::default(), InvokeBody::Json(Value::Null)));
    assert!(matches!(InvokeBody::from(vec![1u8, 2]), InvokeBody::Raw(bytes) if bytes == vec![1, 2]));
    assert_eq!(InvokeBody::from(text("x")).into_json(), text("x"));
    assert_eq!(
        InvokeBody::from(vec![1u8, 255]).into_json(),
        Value::Array(vec![Value::from(1), Value::from(255)])
    );
    assert!(is_json(&InvokeResponseBody::from(InvokeBody::from(text("a\nb"))), "\"a\\nb\""));
    assert!(is_raw(&InvokeResponseBody::from(InvokeBody::from(vec![3u8])), &[3]));
    assert!(is_json(&InvokeResponseBody::from("[]".to_string()).clone(), "[]"));
    assert!(is_raw(&InvokeResponseBody::from(vec![9u8]).clone(), &[9]));
    let copy = InvokeBody::from(text("x")).clone();
    assert_eq!(copy.into_json(), text("x"));
}

#[test]
fn responses_have_the_body_that_they_were_made_with() {
    assert!(is_json(&Response::new("1".to_string()).body().unwrap(), "1"));
    assert!(is_raw(&Response::new(vec![1u8]).body().unwrap(), &[1]));
    assert!(is_json(&Response::new(InvokeBody::default()).body().unwrap(), "null"));
    assert!(is_raw(&InvokeResponseBody::Raw(vec![2]).body().unwrap(), &[2]));
    assert!(is_json(&Serialized(Ok(Value::from(5))).body().unwrap(), "5"));
    assert!(matches!(
        Serialized(Err(IpcError::InvalidMapKey)).body(),
        Err(IpcError::InvalidMapKey)
    ));
}

#[test]
fn errors_become_messages() {
    assert_eq!(InvokeError::from_error("broken".to_string()).0, text("broken"));
    let chain = anyhow::Error::msg("inner").context("outer");
    assert_eq!(InvokeError::from_anyhow(chain).0, text("outer: inner"));
    assert_eq!(InvokeError::from(Ok(Value::from(3))).0, Value::from(3));
    assert_eq!(
        InvokeError::from(Err(json_error())).0,
        text("expected value at line 1 column 1")
    );
    assert_eq!(
        InvokeError::from(IpcError::InvalidFloat).0,
        text("invalid floating point value")
    );
}

#[test]
fn results_become_responses() {
    let ok: Result<Response, InvokeError> = Ok(Response::new("1".to_string()));
    assert!(matches!(InvokeResponse::from(ok), InvokeResponse::Resolve(body) if is_json(&body, "1")));
    let failed: Result<Serialized, InvokeError> = Ok(Serialized(Err(IpcError::ValueBeforeKey)));
    assert!(matches!(
        InvokeResponse::from(failed),
        InvokeResponse::Reject(InvokeError(e)) if e == text("serialize_value called before serialize_key")
    ));
    let err: Result<Response, IpcError> = Err(IpcError::InvalidFloat);
    assert!(matches!(
        InvokeResponse::from(err),
        InvokeResponse::Reject(InvokeError(e)) if e == text("invalid floating point value")
    ));
    let error = InvokeError(Value::from(8));
    assert!(matches!(
        InvokeResponse::from(error),
        InvokeResponse::Reject(InvokeError(e)) if e == Value::from(8)
    ));
    assert!(matches!(
        InvokeResponse::from_body(Err(IpcError::Json(json_error()))),
        InvokeResponse::Reject(InvokeError(e)) if e == text("expected value at line 1 column 1")
    ));
}

type Call = (u8, String, InvokeResponse, CallbackFn, CallbackFn);

fn resolver() -> InvokeResolver<u8> {
    InvokeResolver::new(5, "greet".to_string(), CallbackFn(1), CallbackFn(2))
}

fn record<A>(act: A) -> Call
where
    A: FnOnce(&mut Option<Box<dyn FnOnce(u8, String, InvokeResponse, CallbackFn, CallbackFn) + '_>>),
{
    let calls: RefCell<Vec<Call>> = RefCell::new(Vec::new());
    {
        let responder: Box<dyn FnOnce(u8, String, InvokeResponse, CallbackFn, CallbackFn) + '_> =
            Box::new(|webview, cmd, response, ok, err| {
                calls.borrow_mut().push((webview, cmd, response, ok, err));
            });
        let mut slot = Some(responder);
        act(&mut slot);
        assert!(slot.is_none());
    }
    let mut calls = calls.into_inner();
    assert_eq!(calls.len(), 1);
    let call = calls.remove(0);
    assert_eq!((call.0, call.1.as_str(), call.3, call.4), (5, "greet", CallbackFn(1), CallbackFn(2)));
    call
}

#[test]
fn resolvers_call_the_responder_once() {
    let call = record(|slot| resolver().resolve(slot, Response::new("1".to_string())));
    assert!(matches!(call.2, InvokeResponse::Resolve(body) if is_json(&body, "1")));

    let call = record(|slot| {
        resolver().clone().respond(slot, Ok(Serialized(Err(IpcError::InvalidFloat))))
    });
    assert!(matches!(
        call.2,
        InvokeResponse::Reject(InvokeError(e)) if e == text("invalid floating point value")
    ));

    let call = record(|slot| {
        resolver().respond::<Response, _>(slot, Err(InvokeError(Value::from(1))))
    });
    assert!(matches!(call.2, InvokeResponse::Reject(InvokeError(e)) if e == Value::from(1)));

    let call = record(|slot| {
        resolver().respond_serialized(slot, Ok(InvokeResponseBody::Raw(vec![4])))
    });
    assert!(matches!(call.2, InvokeResponse::Resolve(body) if is_raw(&body, &[4])));

    let call = record(|slot| {
        resolver().respond_serialized(slot, Err(InvokeError(Value::Null)))
    });
    assert!(matches!(call.2, InvokeResponse::Reject(InvokeError(Value::Null))));

    let call = record(|slot| resolver().reject(slot, serde_json::to_value("no")));
    assert!(matches!(call.2, InvokeResponse::Reject(InvokeError(e)) if e == text("no")));

    let call = record(|slot| resolver().reject(slot, Err(json_error())));
    assert!(matches!(
        call.2,
        InvokeResponse::Reject(InvokeError(e)) if e == text("expected value at line 1 column 1")
    ));

    let call = record(|slot| resolver().invoke_error(slot, InvokeError(Value::Bool(true))));
    assert!(matches!(call.2, InvokeResponse::Reject(InvokeError(Value::Bool(true)))));

    let call = record(|slot| {
        InvokeResolver::return_closure(
            5,
            slot,
            || Ok(Response::new(vec![1u8])),
            "greet".to_string(),
            CallbackFn(1),
            CallbackFn(2),
        )
    });
    assert!(matches!(call.2, InvokeResponse::Resolve(body) if is_raw(&body, &[1])));
}

#[test]
fn messages_hand_out_what_they_hold() {
    let mut headers = http::HeaderMap::new();
    headers.append("accept", http::HeaderValue::from_static("a"));
    headers.append("accept", http::HeaderValue::from_static("b"));
    let state = Arc::new("state".to_string());
    let message = InvokeMessage::new(
        5u8,
        state.clone(),
        "greet".to_string(),
        InvokeBody::from(text("payload")),
        headers.clone(),
    );
    for message in [&message, &message.clone()] {
        assert_eq!(message.command(), "greet");
        assert_eq!(message.webview(), 5);
        assert_eq!(*message.webview_ref(), 5);
        assert!(Arc::ptr_eq(&message.state(), &state));
        assert_eq!(message.state_ref(), "state");
        assert_eq!(*message.headers(), headers);
        assert_eq!(message.payload().clone().into_json(), text("payload"));
        let request = Request::from_command(message).unwrap();
        assert_eq!(*request.headers(), headers);
        assert_eq!(request.body().clone().into_json(), text("payload"));
    }
    let invoke: Invoke<u8, String, u8> = Invoke { message, resolver: resolver(), acl: None };
    assert_eq!(invoke.message.command(), "greet");
    assert!(invoke.acl.is_none());
}
