use aliapis::sign::{credentials_from_pair, Credentials, RequestHeader, SignError};
use ordermap::OrderMap;

const FIXTURE_HOST: &str = "example.aliyuncs.com";
const FIXTURE_DATE: &str = "2024-01-01T00:00:00Z";
const FIXTURE_NONCE: &str = "00000000-0000-0000-0000-000000000000";
const EMPTY_SHA256: &str = "e3b0c44298fc1c149afbf4c8996fb92427ae41e4649b934ca495991b7852b855";

fn fixture_descriptor() -> RequestHeader {
    RequestHeader::new_with(
        FIXTURE_HOST.to_string(),
        "DescribeDomains".to_string(),
        "2015-01-09".to_string(),
        FIXTURE_DATE.to_string(),
        FIXTURE_NONCE.to_string(),
        OrderMap::new(),
    )
}

fn header_value(r: &RequestHeader, key: &str) -> Option<String> {
    r.headers().into_iter().find(|(k, _)| k == key).map(|(_, v)| v)
}

#[test]
fn end_to_end_canonical_request_matches_fixture() {
    let (creq, _rest) = fixture_descriptor().canonical_request_text();
    let expected = format!(
        "GET\n/\n\n\
         host:example.aliyuncs.com\n\
         x-acs-action:DescribeDomains\n\
         x-acs-content-sha256:{EMPTY_SHA256}\n\
         x-acs-date:2024-01-01T00:00:00Z\n\
         x-acs-signature-nonce:00000000-0000-0000-0000-000000000000\n\
         x-acs-version:2015-01-09\n\n\
         host;x-acs-action;x-acs-content-sha256;x-acs-date;x-acs-signature-nonce;x-acs-version\n\
         {EMPTY_SHA256}"
    );
    assert_eq!(creq, expected);
}

#[test]
fn end_to_end_authorization_matches_fixture() {
    let creds = Credentials::new("testid".to_string(), "testsecret".to_string());
    let signed = fixture_descriptor().sign(&creds).unwrap();
    let auth = header_value(&signed, "Authorization").unwrap();
    assert_eq!(
        auth,
        "ACS3-HMAC-SHA256 Credential=testid,\
         SignedHeaders=host;x-acs-action;x-acs-content-sha256;x-acs-date;x-acs-signature-nonce;x-acs-version,\
         Signature=d64fc3f610935f2ec2f941d40c08ef30f12a0b8e19086bf093c836e8083ef872"
    );
}

#[test]
fn empty_body_digest_header_is_the_empty_string_digest() {
    let creds = Credentials::new("id".to_string(), "secret".to_string());
    let signed = fixture_descriptor().sign(&creds).unwrap();
    assert_eq!(header_value(&signed, "x-acs-content-sha256").unwrap(), EMPTY_SHA256);
}

#[test]
fn signing_is_deterministic() {
    let creds = Credentials::new("testid".to_string(), "testsecret".to_string());
    let a = fixture_descriptor().sign(&creds).unwrap();
    let b = fixture_descriptor().sign(&creds).unwrap();
    assert_eq!(header_value(&a, "Authorization").unwrap(), header_value(&b, "Authorization").unwrap());
}

#[test]
fn signature_changes_with_the_body() {
    let creds = Credentials::new("testid".to_string(), "testsecret".to_string());
    let a = fixture_descriptor().sign(&creds).unwrap();
    let b = fixture_descriptor().set_body("{}".to_string()).sign(&creds).unwrap();
    assert_ne!(header_value(&a, "Authorization").unwrap(), header_value(&b, "Authorization").unwrap());
}

#[test]
fn authorization_is_replaced_not_duplicated() {
    let creds = Credentials::new("id".to_string(), "secret".to_string());
    let before = fixture_descriptor();
    let count_before = before.header_count();
    let signed = before.sign(&creds).unwrap();
    // the body digest header is added; the Authorization overwrite adds nothing
    assert_eq!(signed.header_count(), count_before + 1);
    let auth_entries = signed
        .headers()
        .into_iter()
        .filter(|(k, _)| k == "Authorization")
        .count();
    assert_eq!(auth_entries, 1);
}

#[test]
fn signing_keeps_headers_in_ascending_key_order() {
    let creds = Credentials::new("id".to_string(), "secret".to_string());
    let signed = fixture_descriptor().sign(&creds).unwrap();
    let keys: Vec<String> = signed.headers().into_iter().map(|(k, _)| k).collect();
    let mut sorted = keys.clone();
    sorted.sort();
    assert_eq!(keys, sorted);
}

#[test]
fn missing_secret_fails_before_anything_is_sent() {
    let r = credentials_from_pair(Some("id".to_string()), None);
    assert_eq!(r.unwrap_err(), SignError::MissingAccessKeySecret);
}

#[test]
fn missing_id_fails_before_anything_is_sent() {
    let r = credentials_from_pair(None, Some("secret".to_string()));
    assert_eq!(r.unwrap_err(), SignError::MissingAccessKeyId);
}

#[test]
fn both_missing_reports_the_secret_first() {
    let r = credentials_from_pair(None, None);
    assert_eq!(r.unwrap_err(), SignError::MissingAccessKeySecret);
}

#[test]
fn present_credentials_are_assembled() {
    let c = credentials_from_pair(Some("id".to_string()), Some("secret".to_string())).unwrap();
    assert_eq!(c.access_key_id, "id");
    assert_eq!(c.access_key_secret, "secret");
}

#[test]
fn control_characters_in_a_header_are_refused() {
    let creds = Credentials::new("id".to_string(), "secret".to_string());
    let bad = fixture_descriptor().set_accept_encoding("gzip\r\nx-forged:1");
    match bad.sign(&creds) {
        Err(SignError::ForbiddenHeader { key }) => assert_eq!(key, "Accept-Encoding"),
        other => panic!("expected a forbidden-header error, got {other:?}"),
    }
}

#[test]
fn error_messages_name_the_failure() {
    assert_eq!(SignError::MissingAccessKeyId.message(), "access key id is not set");
    assert_eq!(SignError::MissingAccessKeySecret.message(), "access key secret is not set");
    let e = SignError::ForbiddenHeader { key: "X".to_string() };
    assert_eq!(e.message(), "forbidden character in header X");
}

#[test]
fn fresh_descriptor_has_the_default_shape() {
    let r = RequestHeader::new(
        "example.aliyuncs.com".to_string(),
        "DescribeDomains".to_string(),
        "2015-01-09".to_string(),
        OrderMap::new(),
    );
    assert_eq!(r.http_method(), "GET");
    assert_eq!(r.canonical_uri(), "/");
    assert_eq!(r.host(), "example.aliyuncs.com");
    assert_eq!(r.body(), "");
    let keys: Vec<String> = r.headers().into_iter().map(|(k, _)| k).collect();
    assert_eq!(
        keys,
        vec![
            "Authorization".to_string(),
            "host".to_string(),
            "x-acs-action".to_string(),
            "x-acs-date".to_string(),
            "x-acs-signature-nonce".to_string(),
            "x-acs-version".to_string(),
        ]
    );
    assert_eq!(header_value(&r, "Authorization").unwrap(), "");
    assert_eq!(header_value(&r, "x-acs-action").unwrap(), "DescribeDomains");
    // the nonce is a hyphenated UUID
    assert_eq!(header_value(&r, "x-acs-signature-nonce").unwrap().len(), 36);
}

#[test]
fn setters_shape_the_descriptor() {
    let r = fixture_descriptor()
        .set_method("post")
        .set_uri("/logstores/x/logs")
        .set_body("payload".to_string())
        .set_accept_encoding("gzip");
    assert_eq!(r.http_method(), "POST");
    assert_eq!(r.canonical_uri(), "/logstores/x/logs");
    assert_eq!(r.body(), "payload");
    assert_eq!(header_value(&r, "Accept-Encoding").unwrap(), "gzip");
}
