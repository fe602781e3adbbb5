//! The response builder: one envelope for every outcome.
//!
//! A response is a JSON object that carries the protocol version and the
//! correlation id of its request, and either `result` or the members of an
//! error: `error`, `error_path`, `error_trace`, `error_type`, `error_data`.

use vstd::prelude::*;
use crate::envelope::{optional_data, ProtocolVersion};
use crate::json::{
    json_data, json_from_map, json_from_str, json_map_insert, json_map_new, json_null,
    json_text, json_to_vec, JsonData,
};

verus! {

/// The status of a response that carries a result.
pub const STATUS_OK: u16 = 200;

/// An error as the caller gets to see it.
#[derive(Debug)]
pub struct Failure {
    /// The status code of the response.
    pub status: u16,
    /// The kind of the error, for machines.
    pub error_type: String,
    /// The error in words.
    pub message: String,
    /// Where the error passed on its way up.
    pub path: String,
    /// The same in detail.
    pub trace: String,
    /// What the error carries besides.
    pub data: serde_json::Value,
}

/// An error as the contracts see it.
pub struct FailureData {
    pub status: u16,
    pub error_type: Seq<char>,
    pub message: Seq<char>,
    pub path: Seq<char>,
    pub trace: Seq<char>,
    pub data: JsonData,
}

impl View for Failure {
    type V = FailureData;

    open spec fn view(&self) -> FailureData {
        FailureData {
            status: self.status,
            error_type: self.error_type@,
            message: self.message@,
            path: self.path@,
            trace: self.trace@,
            data: json_data(self.data),
        }
    }
}

/// A response: the status code and the envelope.
#[derive(Debug)]
pub struct Response {
    pub status: u16,
    pub body: serde_json::Value,
}

/// A response as the contracts see it.
pub struct ResponseData {
    pub status: u16,
    pub body: JsonData,
}

impl View for Response {
    type V = ResponseData;

    open spec fn view(&self) -> ResponseData {
        ResponseData { status: self.status, body: json_data(self.body) }
    }
}

/// The body of a response could not be written as JSON text.
#[derive(Clone, Copy, Debug, PartialEq, Eq, Structural)]
pub struct EncodeError;

/// What writing a body as JSON text comes to: the text, or the error where
/// the JSON writer gives up.
pub open spec fn wire_bytes(body: JsonData) -> Result<Seq<u8>, EncodeError> {
    match json_text(body) {
        Some(text) => Ok(text),
        None => Err(EncodeError),
    }
}

/// The outcome of writing, by the bytes written.
pub open spec fn bytes_data(r: Result<Vec<u8>, EncodeError>) -> Result<Seq<u8>, EncodeError> {
    match r {
        Ok(bytes) => Ok(bytes@),
        Err(e) => Err(e),
    }
}

/// What the dispatcher makes of what the JSON writer returned: the bytes as
/// they are, and `EncodeError` in place of the writer's own error.
pub fn written(outcome: Result<Vec<u8>, serde_json::Error>) -> (r: Result<Vec<u8>, EncodeError>)
    ensures
        match outcome {
            Ok(bytes) => r == Ok::<Vec<u8>, EncodeError>(bytes),
            Err(_) => r == Err::<Vec<u8>, EncodeError>(EncodeError),
        },
{
    match outcome {
        Ok(bytes) => Ok(bytes),
        Err(_) => Err(EncodeError),
    }
}

impl Response {
    /// The body as compact JSON text, in UTF-8: the bytes that go on the
    /// wire. It is the JSON writer that says whether the text can be
    /// written; what it says goes by the content of the body alone.
    pub fn to_bytes(&self) -> (r: Result<Vec<u8>, EncodeError>)
        ensures
            bytes_data(r) == wire_bytes(self@.body),
    {
        written(json_to_vec(&self.body))
    }
}

/// What stands for a correlation id in a response: the id itself, or null
/// where the request had none.
pub open spec fn id_member(id: Option<JsonData>) -> JsonData {
    match id {
        Some(id) => id,
        None => JsonData::Null,
    }
}

/// The two members that every response has.
pub open spec fn envelope_members(version: ProtocolVersion, id: Option<JsonData>) -> Map<
    Seq<char>,
    JsonData,
> {
    Map::<Seq<char>, JsonData>::empty().insert(
        "mmrpc"@,
        JsonData::String(version.wire_text()),
    ).insert("id"@, id_member(id))
}

/// The response to a request that succeeded with `payload`.
pub open spec fn success_response(
    payload: JsonData,
    version: ProtocolVersion,
    id: Option<JsonData>,
) -> ResponseData {
    ResponseData {
        status: STATUS_OK,
        body: JsonData::Object(envelope_members(version, id).insert("result"@, payload)),
    }
}

/// The response to a request that failed with `failure`.
pub open spec fn failure_response(
    failure: FailureData,
    version: ProtocolVersion,
    id: Option<JsonData>,
) -> ResponseData {
    ResponseData {
        status: failure.status,
        body: JsonData::Object(
            envelope_members(version, id).insert("error"@, JsonData::String(failure.message)).insert(
                "error_path"@,
                JsonData::String(failure.path),
            ).insert("error_trace"@, JsonData::String(failure.trace)).insert(
                "error_type"@,
                JsonData::String(failure.error_type),
            ).insert("error_data"@, failure.data),
        ),
    }
}

/// The content of a handler's outcome.
pub open spec fn outcome_data(result: Result<serde_json::Value, Failure>) -> Result<
    JsonData,
    FailureData,
> {
    match result {
        Ok(payload) => Ok(json_data(payload)),
        Err(failure) => Err(failure@),
    }
}

/// The response to a request with the given outcome.
pub open spec fn response_to(
    outcome: Result<JsonData, FailureData>,
    version: ProtocolVersion,
    id: Option<JsonData>,
) -> ResponseData {
    match outcome {
        Ok(payload) => success_response(payload, version, id),
        Err(failure) => failure_response(failure, version, id),
    }
}

/// Wraps the outcome of a request into a response that carries the version
/// and the correlation id of the request. A result is carried as it is; of
/// an error, its status code and its five members.
pub fn build(
    result: Result<serde_json::Value, Failure>,
    version: ProtocolVersion,
    id: Option<serde_json::Value>,
) -> (response: Response)
    ensures
        response@ == response_to(outcome_data(result), version, optional_data(id)),
{
    let mut members = json_map_new();
    json_map_insert(&mut members, "mmrpc", json_from_str(version.as_str()));
    let id = match id {
        Some(id) => id,
        None => json_null(),
    };
    json_map_insert(&mut members, "id", id);
    match result {
        Ok(payload) => {
            json_map_insert(&mut members, "result", payload);
            Response { status: STATUS_OK, body: json_from_map(members) }
        },
        Err(failure) => {
            let Failure { status, error_type, message, path, trace, data } = failure;
            json_map_insert(&mut members, "error", json_from_str(message.as_str()));
            json_map_insert(&mut members, "error_path", json_from_str(path.as_str()));
            json_map_insert(&mut members, "error_trace", json_from_str(trace.as_str()));
            json_map_insert(&mut members, "error_type", json_from_str(error_type.as_str()));
            json_map_insert(&mut members, "error_data", data);
            Response { status, body: json_from_map(members) }
        },
    }
}

/// Wraps the outcome of a request into a response and writes it as the
/// bytes that go on the wire.
pub fn encode(
    result: Result<serde_json::Value, Failure>,
    version: ProtocolVersion,
    id: Option<serde_json::Value>,
) -> (r: Result<Vec<u8>, EncodeError>)
    ensures
        bytes_data(r) == wire_bytes(
            response_to(outcome_data(result), version, optional_data(id)).body,
        ),
{
    build(result, version, id).to_bytes()
}

} // verus!
