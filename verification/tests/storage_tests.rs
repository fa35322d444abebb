//! Tests of key prefixing, the wire format, and id generation.

use rsession::RandKey;
use rsession::SessionData;
use rsession::encode_session_data;
use rsession::prefixed_key;
use rsession::session_data_from_payload;

#[test]
fn prefix_is_prepended() {
    assert_eq!(prefixed_key("app_session:", "abc"), "app_session:abc");
}

#[test]
fn empty_prefix_keeps_the_key() {
    assert_eq!(prefixed_key("", "abc"), "abc");
}

#[test]
fn encode_produces_a_json_object() {
    let mut data = SessionData::new();
    data.insert("count", "2".to_owned());
    let payload = encode_session_data(&data);
    assert_eq!(payload, "{\"count\":\"2\"}");
}

#[test]
fn encode_empty_data_is_the_empty_object() {
    let data = SessionData::new();
    assert_eq!(encode_session_data(&data), "{}");
}

#[test]
fn encode_then_decode_round_trips() {
    let mut data = SessionData::new();
    data.insert("a", "1".to_owned());
    data.insert("b", "two".to_owned());
    data.insert("c", "{\"nested\":3}".to_owned());
    let payload = encode_session_data(&data);
    let back = session_data_from_payload(&payload).unwrap();
    assert_eq!(back.len(), 3);
    assert_eq!(back.get("a").unwrap().as_str(), "1");
    assert_eq!(back.get("b").unwrap().as_str(), "two");
    assert_eq!(back.get("c").unwrap().as_str(), "{\"nested\":3}");
}

#[test]
fn decode_rejects_non_objects() {
    assert!(session_data_from_payload("[1,2]").is_none());
    assert!(session_data_from_payload("not json").is_none());
    assert!(session_data_from_payload("{\"a\":1}").is_none());
}

#[test]
fn decode_accepts_the_empty_object() {
    let back = session_data_from_payload("{}").unwrap();
    assert_eq!(back.len(), 0);
}

#[test]
fn data_bag_insert_remove_clear() {
    let mut data = SessionData::new();
    assert!(data.is_empty());
    data.insert("k", "v".to_owned());
    data.insert("k", "w".to_owned());
    assert_eq!(data.len(), 1);
    assert_eq!(data.get("k").unwrap().as_str(), "w");
    assert!(data.contains_key("k"));
    data.remove("k");
    assert!(!data.contains_key("k"));
    data.insert("a", "1".to_owned());
    data.clear();
    assert!(data.is_empty());
}

#[test]
fn data_bag_duplicate_is_equal_and_independent() {
    let mut data = SessionData::new();
    data.insert("k", "v".to_owned());
    let mut copy = data.duplicate();
    assert_eq!(copy.get("k").unwrap().as_str(), "v");
    copy.insert("k", "w".to_owned());
    assert_eq!(data.get("k").unwrap().as_str(), "v");
}

#[test]
fn uuid_ids_are_36_characters() {
    assert_eq!(RandKey::UuidV4.generate().len(), 36);
    assert_eq!(RandKey::UuidV7.generate().len(), 36);
}

#[test]
fn uuid_v4_ids_differ_between_draws() {
    assert_ne!(RandKey::UuidV4.generate(), RandKey::UuidV4.generate());
}

#[test]
fn hashed_ids_are_64_hex_characters() {
    let id = RandKey::RandomSha256(100).generate();
    assert_eq!(id.len(), 64);
    assert!(id.chars().all(|c| c.is_ascii_hexdigit()));
}

#[test]
fn random_ids_have_the_configured_length() {
    let id = RandKey::Random(100).generate();
    assert_eq!(id.len(), 100);
    assert!(id.chars().all(|c| c.is_ascii_digit()));
}

#[test]
fn random_ids_at_the_configuration_bounds() {
    assert_eq!(RandKey::Random(64).generate().len(), 64);
    assert_eq!(RandKey::Random(1024).generate().len(), 1024);
}

#[test]
fn random_ids_differ_between_draws() {
    assert_ne!(RandKey::Random(64).generate(), RandKey::Random(64).generate());
}

#[test]
fn default_rand_key_is_hashed() {
    assert!(matches!(RandKey::default(), RandKey::RandomSha256(32)));
}
