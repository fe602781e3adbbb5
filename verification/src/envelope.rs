//! The request envelope and its decoding.
//!
//! On the wire a request is a JSON object
//! `{ "mmrpc": "2.0", "method": <string>, "params": <value>, "id": <value>,
//! "userpass": <string> }`, of which `params`, `id` and `userpass` may be
//! left out.

use vstd::prelude::*;
use crate::json::{json_as_str, json_clone, json_data, json_get, json_is_null, JsonData};
use crate::text::str_eq;

verus! {

/// The versions of the protocol. Only one is spoken; a request of any other
/// is refused.
#[derive(Clone, Copy, Debug, PartialEq, Eq, Structural)]
pub enum ProtocolVersion {
    V2,
}

impl ProtocolVersion {
    /// The text that stands for the version on the wire.
    pub open spec fn wire_text(self) -> Seq<char> {
        match self {
            ProtocolVersion::V2 => "2.0"@,
        }
    }

    /// The text that stands for the version on the wire.
    pub fn as_str(self) -> (s: &'static str)
        ensures
            s@ == self.wire_text(),
    {
        match self {
            ProtocolVersion::V2 => "2.0",
        }
    }
}

/// What is wrong with a request that cannot be decoded.
#[derive(Clone, Copy, Debug, PartialEq, Eq, Structural)]
pub enum Defect {
    /// `mmrpc` is absent or no string, or the request is no object at all.
    BadVersion,
    /// `mmrpc` is a string other than that of a version that is spoken.
    UnsupportedVersion,
    /// `method` is absent, no string or empty.
    BadMethod,
    /// `userpass` is neither absent, null nor a string.
    BadCredential,
    /// `params` lacks a member that the method needs, or holds it with the
    /// wrong type.
    BadParams,
}

/// Why a request could not be decoded.
#[derive(Clone, Copy, Debug, PartialEq, Eq, Structural)]
pub enum DecodeError {
    MalformedRequest(Defect),
}

/// A decoded request.
#[derive(Debug)]
pub struct RequestEnvelope {
    pub protocol_version: ProtocolVersion,
    /// The full method name, its segments separated by `::`.
    pub method: String,
    /// The parameters, which only the handler reads.
    pub params: serde_json::Value,
    /// What the caller sent to tell its requests apart; the response carries
    /// it back.
    pub correlation_id: Option<serde_json::Value>,
    pub credential: Option<String>,
}

/// A decoded request, as the contracts see it.
pub struct EnvelopeData {
    pub protocol_version: ProtocolVersion,
    pub method: Seq<char>,
    pub params: JsonData,
    pub correlation_id: Option<JsonData>,
    pub credential: Option<Seq<char>>,
}

/// The content of an optional JSON value.
pub open spec fn optional_data(v: Option<serde_json::Value>) -> Option<JsonData> {
    match v {
        Some(v) => Some(json_data(v)),
        None => None,
    }
}

/// The text of an optional string.
pub open spec fn optional_text(s: Option<String>) -> Option<Seq<char>> {
    match s {
        Some(s) => Some(s@),
        None => None,
    }
}

impl View for RequestEnvelope {
    type V = EnvelopeData;

    open spec fn view(&self) -> EnvelopeData {
        EnvelopeData {
            protocol_version: self.protocol_version,
            method: self.method@,
            params: json_data(self.params),
            correlation_id: optional_data(self.correlation_id),
            credential: optional_text(self.credential),
        }
    }
}

/// The version that a raw request names.
pub open spec fn version_of(raw: JsonData) -> Result<ProtocolVersion, Defect> {
    match raw.member("mmrpc"@) {
        Some(JsonData::String(text)) => if text == ProtocolVersion::V2.wire_text() {
            Ok(ProtocolVersion::V2)
        } else {
            Err(Defect::UnsupportedVersion)
        },
        _ => Err(Defect::BadVersion),
    }
}

/// The method that a raw request names.
pub open spec fn method_of(raw: JsonData) -> Result<Seq<char>, Defect> {
    match raw.member("method"@) {
        Some(JsonData::String(text)) => if text.len() > 0 {
            Ok(text)
        } else {
            Err(Defect::BadMethod)
        },
        _ => Err(Defect::BadMethod),
    }
}

/// The credential that a raw request carries: none when `userpass` is absent
/// or null.
pub open spec fn credential_of(raw: JsonData) -> Result<Option<Seq<char>>, Defect> {
    match raw.member("userpass"@) {
        None => Ok(None),
        Some(JsonData::Null) => Ok(None),
        Some(JsonData::String(text)) => Ok(Some(text)),
        Some(_) => Err(Defect::BadCredential),
    }
}

/// The parameters of a raw request: null when it has none.
pub open spec fn params_of(raw: JsonData) -> JsonData {
    match raw.member("params"@) {
        Some(params) => params,
        None => JsonData::Null,
    }
}

/// The correlation id of a raw request: none when `id` is absent or null.
pub open spec fn correlation_id_of(raw: JsonData) -> Option<JsonData> {
    match raw.member("id"@) {
        Some(JsonData::Null) => None,
        other => other,
    }
}

/// What decoding makes of a raw request. The fields are examined in the
/// order version, method, credential, and the first defect found is the one
/// reported.
pub open spec fn decoded(raw: JsonData) -> Result<EnvelopeData, DecodeError> {
    match version_of(raw) {
        Err(defect) => Err(DecodeError::MalformedRequest(defect)),
        Ok(protocol_version) => match method_of(raw) {
            Err(defect) => Err(DecodeError::MalformedRequest(defect)),
            Ok(method) => match credential_of(raw) {
                Err(defect) => Err(DecodeError::MalformedRequest(defect)),
                Ok(credential) => Ok(
                    EnvelopeData {
                        protocol_version,
                        method,
                        params: params_of(raw),
                        correlation_id: correlation_id_of(raw),
                        credential,
                    },
                ),
            },
        },
    }
}

/// What `decode` answers for a raw request.
pub open spec fn decode_outcome(
    r: Result<RequestEnvelope, DecodeError>,
) -> Result<EnvelopeData, DecodeError> {
    match r {
        Ok(envelope) => Ok(envelope@),
        Err(e) => Err(e),
    }
}

fn read_version(raw: &serde_json::Value) -> (r: Result<ProtocolVersion, Defect>)
    ensures
        r == version_of(json_data(*raw)),
{
    match json_get(raw, "mmrpc") {
        None => Err(Defect::BadVersion),
        Some(v) => match json_as_str(v) {
            None => Err(Defect::BadVersion),
            Some(text) => if str_eq(text, ProtocolVersion::V2.as_str()) {
                Ok(ProtocolVersion::V2)
            } else {
                Err(Defect::UnsupportedVersion)
            },
        },
    }
}

fn read_method(raw: &serde_json::Value) -> (r: Result<String, Defect>)
    ensures
        match r {
            Ok(method) => method_of(json_data(*raw)) == Ok::<Seq<char>, Defect>(method@),
            Err(defect) => method_of(json_data(*raw)) == Err::<Seq<char>, Defect>(defect),
        },
{
    match json_get(raw, "method") {
        None => Err(Defect::BadMethod),
        Some(v) => match json_as_str(v) {
            None => Err(Defect::BadMethod),
            Some(text) => if text.is_empty() {
                Err(Defect::BadMethod)
            } else {
                Ok(text.to_owned())
            },
        },
    }
}

fn read_credential(raw: &serde_json::Value) -> (r: Result<Option<String>, Defect>)
    ensures
        match r {
            Ok(credential) => credential_of(json_data(*raw)) == Ok::<Option<Seq<char>>, Defect>(
                optional_text(credential),
            ),
            Err(defect) => credential_of(json_data(*raw)) == Err::<Option<Seq<char>>, Defect>(
                defect,
            ),
        },
{
    match json_get(raw, "userpass") {
        None => Ok(None),
        Some(v) => if json_is_null(v) {
            Ok(None)
        } else {
            match json_as_str(v) {
                Some(text) => Ok(Some(text.to_owned())),
                None => Err(Defect::BadCredential),
            }
        },
    }
}

fn read_params(raw: &serde_json::Value) -> (params: serde_json::Value)
    ensures
        json_data(params) == params_of(json_data(*raw)),
{
    match json_get(raw, "params") {
        Some(v) => json_clone(v),
        None => crate::json::json_null(),
    }
}

pub(crate) fn read_correlation_id(raw: &serde_json::Value) -> (id: Option<serde_json::Value>)
    ensures
        optional_data(id) == correlation_id_of(json_data(*raw)),
{
    match json_get(raw, "id") {
        None => None,
        Some(v) => if json_is_null(v) {
            None
        } else {
            Some(json_clone(v))
        },
    }
}

/// Decodes a raw request. It fails with `MalformedRequest` exactly when a
/// required field is absent or a field has the wrong type, and names the
/// first such defect.
pub fn decode(raw: &serde_json::Value) -> (r: Result<RequestEnvelope, DecodeError>)
    ensures
        decode_outcome(r) == decoded(json_data(*raw)),
        r matches Ok(envelope) ==> envelope.method@.len() > 0,
{
    let protocol_version = match read_version(raw) {
        Ok(version) => version,
        Err(defect) => {
            return Err(DecodeError::MalformedRequest(defect));
        },
    };
    let method = match read_method(raw) {
        Ok(method) => method,
        Err(defect) => {
            return Err(DecodeError::MalformedRequest(defect));
        },
    };
    let credential = match read_credential(raw) {
        Ok(credential) => credential,
        Err(defect) => {
            return Err(DecodeError::MalformedRequest(defect));
        },
    };
    Ok(
        RequestEnvelope {
            protocol_version,
            method,
            params: read_params(raw),
            correlation_id: read_correlation_id(raw),
            credential,
        },
    )
}

} // verus!
