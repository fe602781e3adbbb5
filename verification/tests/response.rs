use rpc_dispatch::dispatcher::{handle_mmrpc, response_from_dispatcher_error};
use rpc_dispatch::envelope::{Defect, ProtocolVersion};
use rpc_dispatch::errors::{
    DispatcherError, STATUS_BAD_REQUEST, STATUS_FORBIDDEN, STATUS_INTERNAL_ERROR,
};
use rpc_dispatch::response::{build, encode, written, EncodeError, Failure, Response, STATUS_OK};
use rpc_dispatch::task::TaskError;
use serde_json::Value;

fn json(text: &str) -> Value {
    serde_json::from_str(text).unwrap()
}

fn failure() -> Failure {
    Failure {
        status: 404,
        error_type: "NoSuchCoin".to_string(),
        message: "No such coin: XYZ".to_string(),
        path: "withdraw".to_string(),
        trace: "withdraw:12]".to_string(),
        data: json(r#"{"coin":"XYZ"}"#),
    }
}

#[test]
fn success_carries_the_payload_as_it_is() {
    let payload = json(r#"{"tx_hex":"00ff","fee":{"amount":"0.1"},"list":[1,-2,3.5,null,true]}"#);
    let response = build(Ok(payload.clone()), ProtocolVersion::V2, Some(json("7")));
    assert_eq!(response.status, STATUS_OK);
    assert_eq!(response.status, 200);
    assert_eq!(
        response.body,
        json(r#"{"mmrpc":"2.0","id":7,"result":{"tx_hex":"00ff","fee":{"amount":"0.1"},"list":[1,-2,3.5,null,true]}}"#)
    );
    assert_eq!(response.body.get("result"), Some(&payload));
    assert_eq!(response.body.get("error"), None);
}

#[test]
fn response_without_correlation_id_carries_null() {
    let response = build(Ok(json(r#""ok""#)), ProtocolVersion::V2, None);
    assert_eq!(response.body, json(r#"{"mmrpc":"2.0","id":null,"result":"ok"}"#));
}

#[test]
fn failure_has_the_same_envelope() {
    let response = build(Err(failure()), ProtocolVersion::V2, Some(json(r#""req-1""#)));
    assert_eq!(response.status, 404);
    assert_eq!(
        response.body,
        json(
            r#"{"mmrpc":"2.0","id":"req-1","error":"No such coin: XYZ","error_path":"withdraw","error_trace":"withdraw:12]","error_type":"NoSuchCoin","error_data":{"coin":"XYZ"}}"#
        )
    );
    assert_eq!(response.body.get("result"), None);
}

#[test]
fn handler_outcome_is_wrapped_with_version_and_id() {
    let ok = handle_mmrpc(ProtocolVersion::V2, Some(json("3")), Ok(json("[1,2]")));
    assert_eq!(ok.status, 200);
    assert_eq!(ok.body, json(r#"{"mmrpc":"2.0","id":3,"result":[1,2]}"#));
    let err = handle_mmrpc(ProtocolVersion::V2, Some(json("3")), Err(failure()));
    assert_eq!(err.status, 404);
    assert_eq!(err.body.get("id"), Some(&json("3")));
    assert_eq!(err.body.get("mmrpc"), Some(&json(r#""2.0""#)));
    assert_eq!(err.body.get("error_type"), Some(&json(r#""NoSuchCoin""#)));
}

#[test]
fn body_is_written_as_compact_json() {
    let response = build(Ok(json(r#"{"b":1,"a":[true,null]}"#)), ProtocolVersion::V2, Some(json("7")));
    assert_eq!(
        response.to_bytes().unwrap(),
        br#"{"id":7,"mmrpc":"2.0","result":{"a":[true,null],"b":1}}"#.to_vec()
    );
    let plain = Response { status: 200, body: json(r#""success""#) };
    assert_eq!(plain.to_bytes().unwrap(), br#""success""#.to_vec());
}

#[test]
fn outcome_is_encoded_as_bytes() {
    assert_eq!(
        encode(Ok(json(r#"{"task_id":3}"#)), ProtocolVersion::V2, None).unwrap(),
        br#"{"id":null,"mmrpc":"2.0","result":{"task_id":3}}"#.to_vec()
    );
    assert_eq!(
        encode(Err(DispatcherError::NoSuchMethod.failure()), ProtocolVersion::V2, Some(json("1"))).unwrap(),
        br#"{"error":"No such method","error_data":null,"error_path":"","error_trace":"","error_type":"NoSuchMethod","id":1,"mmrpc":"2.0"}"#.to_vec()
    );
}

#[test]
fn writer_outcome_is_taken_over() {
    assert_eq!(written(Ok(b"[1,2]".to_vec())), Ok(b"[1,2]".to_vec()));
    assert_eq!(written(Ok(Vec::new())), Ok(Vec::new()));
    let error = serde_json::from_str::<Value>("{").unwrap_err();
    assert_eq!(written(Err(error)), Err(EncodeError));
}

#[test]
fn writing_twice_gives_the_same_bytes() {
    let response = build(Ok(json(r#"{"z":[1.5,-3,"a"],"a":{"k":null}}"#)), ProtocolVersion::V2, None);
    let first = response.to_bytes();
    assert_eq!(first, response.to_bytes());
    assert_eq!(
        first,
        Ok(br#"{"id":null,"mmrpc":"2.0","result":{"a":{"k":null},"z":[1.5,-3,"a"]}}"#.to_vec())
    );
}

#[test]
fn every_error_has_its_status_code() {
    let forbidden = [
        DispatcherError::LocalHostOnly,
        DispatcherError::Banned,
        DispatcherError::CredentialMissing,
        DispatcherError::IncorrectCredential,
    ];
    for error in forbidden {
        assert_eq!(error.status_code(), STATUS_FORBIDDEN);
        assert_eq!(error.status_code(), 403);
    }
    let bad = [
        DispatcherError::NoSuchMethod,
        DispatcherError::MalformedRequest(Defect::BadVersion),
        DispatcherError::MalformedRequest(Defect::UnsupportedVersion),
        DispatcherError::MalformedRequest(Defect::BadMethod),
        DispatcherError::MalformedRequest(Defect::BadCredential),
        DispatcherError::MalformedRequest(Defect::BadParams),
        DispatcherError::Task(TaskError::UnknownTask),
        DispatcherError::Task(TaskError::AlreadyTerminal),
        DispatcherError::Task(TaskError::NotAwaitingAction),
    ];
    for error in bad {
        assert_eq!(error.status_code(), STATUS_BAD_REQUEST);
        assert_eq!(error.status_code(), 400);
    }
    assert_eq!(DispatcherError::OutOfTaskIds.status_code(), STATUS_INTERNAL_ERROR);
    assert_eq!(DispatcherError::OutOfTaskIds.status_code(), 500);
}

#[test]
fn every_error_has_its_kind() {
    assert_eq!(DispatcherError::LocalHostOnly.kind(), "LocalHostOnly");
    assert_eq!(DispatcherError::Banned.kind(), "Banned");
    assert_eq!(DispatcherError::CredentialMissing.kind(), "CredentialMissing");
    assert_eq!(DispatcherError::IncorrectCredential.kind(), "IncorrectCredential");
    assert_eq!(DispatcherError::NoSuchMethod.kind(), "NoSuchMethod");
    assert_eq!(DispatcherError::MalformedRequest(Defect::BadMethod).kind(), "MalformedRequest");
    assert_eq!(DispatcherError::Task(TaskError::UnknownTask).kind(), "UnknownTask");
    assert_eq!(DispatcherError::Task(TaskError::AlreadyTerminal).kind(), "AlreadyTerminal");
    assert_eq!(DispatcherError::Task(TaskError::NotAwaitingAction).kind(), "NotAwaitingAction");
    assert_eq!(DispatcherError::OutOfTaskIds.kind(), "OutOfTaskIds");
    assert_eq!(DispatcherError::NoSuchMethod.message(), "No such method");
}

#[test]
fn dispatcher_error_becomes_a_response() {
    let response =
        response_from_dispatcher_error(DispatcherError::Banned, ProtocolVersion::V2, Some(json("9")));
    assert_eq!(response.status, 403);
    assert_eq!(
        response.body,
        json(
            r#"{"mmrpc":"2.0","id":9,"error":"Your ip is banned.","error_path":"","error_trace":"","error_type":"Banned","error_data":null}"#
        )
    );
    let failure = DispatcherError::NoSuchMethod.failure();
    assert_eq!(failure.status, 400);
    assert_eq!(failure.error_type, "NoSuchMethod");
    assert_eq!(failure.message, "No such method");
    assert_eq!(failure.path, "");
    assert_eq!(failure.trace, "");
    assert_eq!(failure.data, Value::Null);
}
