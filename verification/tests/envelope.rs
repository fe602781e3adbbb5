use rpc_dispatch::envelope::{decode, DecodeError, Defect, ProtocolVersion};
use serde_json::Value;

fn json(text: &str) -> Value {
    serde_json::from_str(text).unwrap()
}

fn defect(text: &str) -> Defect {
    match decode(&json(text)) {
        Err(DecodeError::MalformedRequest(defect)) => defect,
        Ok(envelope) => panic!("{:?}", envelope),
    }
}

#[test]
fn full_request_is_decoded() {
    let raw = json(
        r#"{"mmrpc":"2.0","method":"task::withdraw::init","params":{"coin":"KMD","amount":"1.5"},"id":42,"userpass":"secret"}"#,
    );
    let envelope = decode(&raw).unwrap();
    assert_eq!(envelope.protocol_version, ProtocolVersion::V2);
    assert_eq!(envelope.method, "task::withdraw::init");
    assert_eq!(envelope.params, json(r#"{"coin":"KMD","amount":"1.5"}"#));
    assert_eq!(envelope.correlation_id, Some(json("42")));
    assert_eq!(envelope.credential, Some("secret".to_string()));
}

#[test]
fn optional_fields_may_be_absent() {
    let envelope = decode(&json(r#"{"mmrpc":"2.0","method":"version"}"#)).unwrap();
    assert_eq!(envelope.method, "version");
    assert_eq!(envelope.params, Value::Null);
    assert_eq!(envelope.correlation_id, None);
    assert_eq!(envelope.credential, None);
}

#[test]
fn null_stands_for_absent() {
    let envelope =
        decode(&json(r#"{"mmrpc":"2.0","method":"version","params":null,"id":null,"userpass":null}"#))
            .unwrap();
    assert_eq!(envelope.params, Value::Null);
    assert_eq!(envelope.correlation_id, None);
    assert_eq!(envelope.credential, None);
}

#[test]
fn correlation_id_may_be_any_value() {
    let envelope = decode(&json(r#"{"mmrpc":"2.0","method":"version","id":"abc"}"#)).unwrap();
    assert_eq!(envelope.correlation_id, Some(json(r#""abc""#)));
    let envelope = decode(&json(r#"{"mmrpc":"2.0","method":"version","id":[1,{"a":2}]}"#)).unwrap();
    assert_eq!(envelope.correlation_id, Some(json(r#"[1,{"a":2}]"#)));
}

#[test]
fn empty_credential_is_a_credential() {
    let envelope = decode(&json(r#"{"mmrpc":"2.0","method":"version","userpass":""}"#)).unwrap();
    assert_eq!(envelope.credential, Some(String::new()));
}

#[test]
fn values_that_are_no_object_are_malformed() {
    for text in ["null", "true", "17", r#""2.0""#, "[]", r#"[{"mmrpc":"2.0","method":"version"}]"#] {
        assert_eq!(defect(text), Defect::BadVersion, "{}", text);
    }
}

#[test]
fn version_must_be_a_string() {
    assert_eq!(defect(r#"{"method":"version"}"#), Defect::BadVersion);
    assert_eq!(defect(r#"{"mmrpc":2.0,"method":"version"}"#), Defect::BadVersion);
    assert_eq!(defect(r#"{"mmrpc":null,"method":"version"}"#), Defect::BadVersion);
    assert_eq!(defect(r#"{"mmrpc":["2.0"],"method":"version"}"#), Defect::BadVersion);
}

#[test]
fn other_versions_are_refused() {
    assert_eq!(defect(r#"{"mmrpc":"1.0","method":"version"}"#), Defect::UnsupportedVersion);
    assert_eq!(defect(r#"{"mmrpc":"2","method":"version"}"#), Defect::UnsupportedVersion);
    assert_eq!(defect(r#"{"mmrpc":"","method":"version"}"#), Defect::UnsupportedVersion);
    assert_eq!(defect(r#"{"mmrpc":"2.0 ","method":"version"}"#), Defect::UnsupportedVersion);
}

#[test]
fn method_must_be_a_string_with_text() {
    assert_eq!(defect(r#"{"mmrpc":"2.0"}"#), Defect::BadMethod);
    assert_eq!(defect(r#"{"mmrpc":"2.0","method":""}"#), Defect::BadMethod);
    assert_eq!(defect(r#"{"mmrpc":"2.0","method":7}"#), Defect::BadMethod);
    assert_eq!(defect(r#"{"mmrpc":"2.0","method":null}"#), Defect::BadMethod);
    assert_eq!(defect(r#"{"mmrpc":"2.0","Method":"version"}"#), Defect::BadMethod);
}

#[test]
fn credential_must_be_a_string() {
    assert_eq!(defect(r#"{"mmrpc":"2.0","method":"version","userpass":7}"#), Defect::BadCredential);
    assert_eq!(
        defect(r#"{"mmrpc":"2.0","method":"version","userpass":["secret"]}"#),
        Defect::BadCredential
    );
    assert_eq!(defect(r#"{"mmrpc":"2.0","method":"version","userpass":false}"#), Defect::BadCredential);
}

#[test]
fn the_first_defect_is_reported() {
    assert_eq!(defect(r#"{"userpass":7}"#), Defect::BadVersion);
    assert_eq!(defect(r#"{"mmrpc":"3.0","method":""}"#), Defect::UnsupportedVersion);
    assert_eq!(defect(r#"{"mmrpc":"2.0","userpass":7}"#), Defect::BadMethod);
}

#[test]
fn version_text() {
    assert_eq!(ProtocolVersion::V2.as_str(), "2.0");
}
