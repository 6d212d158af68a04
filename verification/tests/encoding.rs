use aliapis::digest::{hmac_sha256_hex, sha256_hex};
use aliapis::encode::percent_encode;
use aliapis::sign::RequestHeader;
use aliapis::text::{
    bool_to_string, i64_to_string, str_contains_sub, str_has_prefix, to_ascii_lower,
    to_ascii_upper, u64_to_string,
};
use ordermap::OrderMap;

#[test]
fn substituted_encoding_of_the_profile_characters() {
    // space becomes %20; underscore, hyphen, period and tilde stay literal
    assert_eq!(percent_encode("a b_c-d.e~"), "a%20b_c-d.e~");
}

#[test]
fn reserved_characters_are_percent_encoded_uppercase() {
    assert_eq!(percent_encode("a/b?c=d&e"), "a%2Fb%3Fc%3Dd%26e");
    assert_eq!(percent_encode("+"), "%2B");
}

#[test]
fn multibyte_characters_encode_per_utf8_byte() {
    assert_eq!(percent_encode("\u{00e9}"), "%C3%A9");
}

#[test]
fn encoding_applies_to_the_canonical_query() {
    let mut params = OrderMap::new();
    params.insert_sorted("key one".to_string(), "a b_c-d.e~".to_string());
    let r = RequestHeader::new_with(
        "example.aliyuncs.com".to_string(),
        "DescribeDomains".to_string(),
        "2015-01-09".to_string(),
        "2024-01-01T00:00:00Z".to_string(),
        "00000000-0000-0000-0000-000000000000".to_string(),
        params,
    );
    assert_eq!(r.canonical_query_string(), "key%20one=a%20b_c-d.e~");
}

#[test]
fn sha256_of_the_empty_string_is_the_known_constant() {
    assert_eq!(
        sha256_hex(""),
        "e3b0c44298fc1c149afbf4c8996fb92427ae41e4649b934ca495991b7852b855"
    );
}

#[test]
fn sha256_of_abc_is_the_known_constant() {
    assert_eq!(
        sha256_hex("abc"),
        "ba7816bf8f01cfea414140de5dae2223b00361a396177a9cb410ff61f20015ad"
    );
}

#[test]
fn hmac_sha256_matches_the_published_test_vector() {
    // RFC 4231, test case 2
    assert_eq!(
        hmac_sha256_hex("Jefe", "what do ya want for nothing?"),
        "5bdcc146bf60754e6a042426089575c75a003f089d2739839dec58b964ec3843"
    );
}

#[test]
fn ascii_case_mapping_leaves_other_characters_alone() {
    assert_eq!(to_ascii_upper("post"), "POST");
    assert_eq!(to_ascii_upper("X-Acs-Date_9~\u{00e9}"), "X-ACS-DATE_9~\u{00e9}");
    assert_eq!(to_ascii_lower("X-Acs-Date"), "x-acs-date");
}

#[test]
fn prefix_and_substring_search() {
    assert!(str_has_prefix("x-acs-action", "x-acs-"));
    assert!(!str_has_prefix("x-ac", "x-acs-"));
    assert!(str_contains_sub("content-type", "host") == false);
    assert!(str_contains_sub("my-host-header", "host"));
    assert!(str_contains_sub("anything", ""));
    assert!(!str_contains_sub("ho", "host"));
}

#[test]
fn decimal_formatting() {
    assert_eq!(u64_to_string(0), "0");
    assert_eq!(u64_to_string(1234567890), "1234567890");
    assert_eq!(u64_to_string(u64::MAX), "18446744073709551615");
    assert_eq!(i64_to_string(0), "0");
    assert_eq!(i64_to_string(-1), "-1");
    assert_eq!(i64_to_string(i64::MIN), "-9223372036854775808");
    assert_eq!(i64_to_string(i64::MAX), "9223372036854775807");
    assert_eq!(bool_to_string(true), "true");
    assert_eq!(bool_to_string(false), "false");
}
