//! Reading and writing a public key block as JSON.

use activity_extensions::extensions::security::PublicKeyValues;
use activitystreams::iri_string::types::IriString;
use serde_json::Value;

fn json(text: &str) -> Value {
    serde_json::from_str(text).unwrap()
}

fn iri(text: &str) -> IriString {
    text.parse().unwrap()
}

fn sample() -> PublicKeyValues {
    PublicKeyValues {
        id: iri("https://x/key"),
        owner: iri("https://x/actor"),
        public_key_pem: String::from("PEM"),
    }
}

#[test]
fn reads_an_object_of_the_three_members() {
    let value = json(r#"{"id":"https://x/key","owner":"https://x/actor","publicKeyPem":"PEM"}"#);
    let values = PublicKeyValues::from_value(&value).unwrap();
    assert_eq!(values.id.as_str(), "https://x/key");
    assert_eq!(values.owner.as_str(), "https://x/actor");
    assert_eq!(values.public_key_pem, "PEM");
}

#[test]
fn reads_past_members_that_it_does_not_know() {
    let value = json(
        r#"{"type":"Key","id":"https://x/key","owner":"https://x/actor","publicKeyPem":"PEM","n":[1,{"a":null}]}"#,
    );
    let values = PublicKeyValues::from_value(&value).unwrap();
    assert_eq!(values.id.as_str(), "https://x/key");
    assert_eq!(values.owner.as_str(), "https://x/actor");
    assert_eq!(values.public_key_pem, "PEM");
}

#[test]
fn reads_an_array_of_the_three_fields_in_order() {
    let value = json(r#"["https://x/key","https://x/actor","PEM"]"#);
    let values = PublicKeyValues::from_value(&value).unwrap();
    assert_eq!(values.id.as_str(), "https://x/key");
    assert_eq!(values.owner.as_str(), "https://x/actor");
    assert_eq!(values.public_key_pem, "PEM");
}

#[test]
fn rejects_an_array_of_another_length() {
    assert!(PublicKeyValues::from_value(&json(r#"["https://x/key","https://x/actor"]"#)).is_none());
    assert!(PublicKeyValues::from_value(
        &json(r#"["https://x/key","https://x/actor","PEM","more"]"#)
    )
    .is_none());
    assert!(PublicKeyValues::from_value(&json("[]")).is_none());
}

#[test]
fn rejects_an_object_that_lacks_a_member() {
    assert!(PublicKeyValues::from_value(
        &json(r#"{"owner":"https://x/actor","publicKeyPem":"PEM"}"#)
    )
    .is_none());
    assert!(PublicKeyValues::from_value(&json(r#"{"id":"https://x/key","publicKeyPem":"PEM"}"#))
        .is_none());
    assert!(PublicKeyValues::from_value(
        &json(r#"{"id":"https://x/key","owner":"https://x/actor"}"#)
    )
    .is_none());
    assert!(PublicKeyValues::from_value(&json("{}")).is_none());
}

#[test]
fn rejects_a_member_that_is_not_a_string() {
    assert!(PublicKeyValues::from_value(
        &json(r#"{"id":7,"owner":"https://x/actor","publicKeyPem":"PEM"}"#)
    )
    .is_none());
    assert!(PublicKeyValues::from_value(
        &json(r#"{"id":"https://x/key","owner":null,"publicKeyPem":"PEM"}"#)
    )
    .is_none());
    assert!(PublicKeyValues::from_value(
        &json(r#"{"id":"https://x/key","owner":"https://x/actor","publicKeyPem":["PEM"]}"#)
    )
    .is_none());
}

#[test]
fn rejects_an_identifier_or_owner_that_is_no_iri() {
    assert!(PublicKeyValues::from_value(
        &json(r#"{"id":"not an iri","owner":"https://x/actor","publicKeyPem":"PEM"}"#)
    )
    .is_none());
    assert!(PublicKeyValues::from_value(
        &json(r#"{"id":"https://x/key","owner":"/relative","publicKeyPem":"PEM"}"#)
    )
    .is_none());
}

#[test]
fn accepts_any_text_as_the_key() {
    let value = json(r#"{"id":"https://x/key","owner":"https://x/actor","publicKeyPem":""}"#);
    assert_eq!(PublicKeyValues::from_value(&value).unwrap().public_key_pem, "");
    let value =
        json(r#"{"id":"https://x/key","owner":"https://x/actor","publicKeyPem":"not an iri"}"#);
    assert_eq!(PublicKeyValues::from_value(&value).unwrap().public_key_pem, "not an iri");
}

#[test]
fn rejects_what_is_neither_object_nor_array() {
    assert!(PublicKeyValues::from_value(&Value::Null).is_none());
    assert!(PublicKeyValues::from_value(&json("true")).is_none());
    assert!(PublicKeyValues::from_value(&json("12")).is_none());
    assert!(PublicKeyValues::from_value(&json(r#""https://x/key""#)).is_none());
}

#[test]
fn writes_an_object_of_the_three_members_and_no_other() {
    let value = sample().to_value();
    assert_eq!(
        value,
        json(r#"{"id":"https://x/key","owner":"https://x/actor","publicKeyPem":"PEM"}"#)
    );
    assert_eq!(value.as_object().unwrap().len(), 3);
}

#[test]
fn what_is_written_reads_back_as_it_was() {
    let values = PublicKeyValues {
        id: iri("urn:example:key#main"),
        owner: iri("https://example.com/users/\u{e9}milie"),
        public_key_pem: String::from("-----BEGIN PUBLIC KEY-----\nabc\n-----END PUBLIC KEY-----\n"),
    };
    let read = PublicKeyValues::from_value(&values.to_value()).unwrap();
    assert_eq!(read.id, values.id);
    assert_eq!(read.owner, values.owner);
    assert_eq!(read.public_key_pem, values.public_key_pem);
}

#[test]
fn a_canonical_value_is_written_back_as_it_was_read() {
    let value = json(r#"{"publicKeyPem":"PEM","owner":"https://x/actor","id":"https://x/key"}"#);
    assert_eq!(PublicKeyValues::from_value(&value).unwrap().to_value(), value);
}

#[test]
fn a_value_with_more_members_is_written_back_without_them() {
    let value =
        json(r#"{"id":"https://x/key","owner":"https://x/actor","publicKeyPem":"PEM","x":1}"#);
    let written = PublicKeyValues::from_value(&value).unwrap().to_value();
    assert_ne!(written, value);
    assert_eq!(
        written,
        json(r#"{"id":"https://x/key","owner":"https://x/actor","publicKeyPem":"PEM"}"#)
    );
}

#[test]
fn a_clone_holds_the_same_fields() {
    let values = sample();
    let clone = values.clone();
    assert_eq!(clone.id, values.id);
    assert_eq!(clone.owner, values.owner);
    assert_eq!(clone.public_key_pem, values.public_key_pem);
    assert_eq!(clone.to_value(), values.to_value());
    assert_eq!(
        format!("{:?}", clone),
        "PublicKeyValues { id: RiString(\"https://x/key\"), owner: RiString(\"https://x/actor\"), public_key_pem: \"PEM\" }"
    );
}
