use std::collections::BTreeMap;

use xyncer::codec::{decode, encode};
use xyncer::payload::{bare, hello, identify, invalid_session, ready};
use xyncer::{ErrorCode, OP};

fn one_field<T>(tag: u8, field: T) -> BTreeMap<u8, (T,)> {
    let mut m = BTreeMap::new();
    m.insert(tag, (field,));
    m
}

#[test]
fn unit_data_matches_messagepack() {
    assert_eq!(encode(&bare(OP::Heartbeat)), rmp_serde::to_vec(&(1u8, 0u8, 1u8)).unwrap());
    assert_eq!(encode(&bare(OP::ReIdentify)), rmp_serde::to_vec(&(3u8, 0u8, 3u8)).unwrap());
    assert_eq!(encode(&bare(OP::HeartbeatAck)), rmp_serde::to_vec(&(6u8, 0u8, 6u8)).unwrap());
}

#[test]
fn hello_matches_messagepack() {
    for n in [0u8, 60, 127, 128, 255] {
        let expected = rmp_serde::to_vec(&(5u8, 0u8, one_field(5, n))).unwrap();
        assert_eq!(encode(&hello(n)), expected);
    }
}

#[test]
fn strings_match_messagepack() {
    for len in [0usize, 3, 31, 32, 200, 255, 256, 300, 65535, 65536, 70000] {
        let text = "z".repeat(len);
        let expected = rmp_serde::to_vec(&(2u8, 0u8, one_field(2, text.clone()))).unwrap();
        assert_eq!(encode(&identify(text)), expected, "length {}", len);
    }
    let expected = rmp_serde::to_vec(&(0u8, 1u8, one_field(0, String::new()))).unwrap();
    assert_eq!(encode(&ready()), expected);
}

#[test]
fn invalid_session_matches_messagepack() {
    let d = ErrorCode::AuthenticationFailed.populate();
    let mut m = BTreeMap::new();
    m.insert(4u8, (3u8, d.description.clone(), d.explanation.clone()));
    let expected = rmp_serde::to_vec(&(4u8, 0u8, m)).unwrap();
    assert_eq!(encode(&invalid_session(ErrorCode::AuthenticationFailed)), expected);
}

#[test]
fn messagepack_reader_understands_encoding() {
    let bytes = encode(&identify("pässwörd".to_string()));
    let (op, event, data): (u8, u8, BTreeMap<u8, (String,)>) =
        rmp_serde::from_slice(&bytes).unwrap();
    assert_eq!((op, event), (2, 0));
    assert_eq!(data[&2].0, "pässwörd");

    let written = rmp_serde::to_vec(&(2u8, 0u8, one_field(2, "pässwörd".to_string()))).unwrap();
    assert_eq!(decode(&written), Ok(identify("pässwörd".to_string())));
}
