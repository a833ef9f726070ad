use xyncer::codec::{decode, encodable, encode};
use xyncer::payload::{bare, hello, identify, invalid_session, ready};
use xyncer::{
    DispatchData, ErrorCode, Event, HelloData, IdentifyData, InvalidSessionData, Payload,
    PayloadData, OP,
};

const ALL_CODES: [ErrorCode; 5] = [
    ErrorCode::UnknownError,
    ErrorCode::UnknownOP,
    ErrorCode::DecodeError,
    ErrorCode::AuthenticationFailed,
    ErrorCode::SessionTimeout,
];

fn every_payload() -> Vec<Payload> {
    let mut all = Vec::new();
    for event in [Event::Empty, Event::Ready] {
        all.push(Payload::new(event, PayloadData::Dispatch(DispatchData { data: String::new() })));
        all.push(Payload::new(
            event,
            PayloadData::Dispatch(DispatchData { data: "window 42".to_string() }),
        ));
        all.push(Payload::new(event, PayloadData::Heartbeat));
        all.push(Payload::new(
            event,
            PayloadData::Identify(IdentifyData { passphrase: "aB3xZ".to_string() }),
        ));
        all.push(Payload::new(event, PayloadData::ReIdentify));
        for code in ALL_CODES {
            all.push(Payload::new(event, PayloadData::InvalidSession(code.populate())));
        }
        for n in [0u8, 1, 60, 127, 128, 200, 255] {
            all.push(Payload::new(event, PayloadData::Hello(HelloData { heartbeat_interval: n })));
        }
        all.push(Payload::new(event, PayloadData::HeartbeatAck));
    }
    all
}

#[test]
fn round_trip_every_kind() {
    for p in every_payload() {
        assert!(encodable(&p));
        let bytes = encode(&p);
        assert_eq!(decode(&bytes), Ok(p.clone()), "payload {:?}", p);
    }
}

#[test]
fn round_trip_string_length_boundaries() {
    for len in [0usize, 1, 31, 32, 255, 256, 65535, 65536, 70000] {
        let text = "x".repeat(len);
        let p = Payload::new(Event::Empty, PayloadData::Dispatch(DispatchData { data: text }));
        let bytes = encode(&p);
        assert_eq!(decode(&bytes), Ok(p));
    }
}

#[test]
fn string_headers_take_shortest_form() {
    let with_len = |len: usize| {
        let p = identify("y".repeat(len));
        encode(&p)
    };
    assert_eq!(with_len(31)[6], 0xa0 + 31);
    assert_eq!(&with_len(32)[6..8], &[0xd9, 32]);
    assert_eq!(&with_len(255)[6..8], &[0xd9, 255]);
    assert_eq!(&with_len(256)[6..9], &[0xda, 1, 0]);
    assert_eq!(&with_len(65535)[6..9], &[0xda, 0xff, 0xff]);
    assert_eq!(&with_len(65536)[6..11], &[0xdb, 0, 1, 0, 0]);
}

#[test]
fn round_trip_non_ascii_text() {
    let p = identify("héllo ✓ 🚀 ünïcödé".to_string());
    let bytes = encode(&p);
    assert_eq!(decode(&bytes), Ok(p));
}

#[test]
fn exact_wire_bytes() {
    assert_eq!(encode(&bare(OP::Heartbeat)), vec![0x93, 1, 0, 1]);
    assert_eq!(encode(&bare(OP::ReIdentify)), vec![0x93, 3, 0, 3]);
    assert_eq!(encode(&bare(OP::HeartbeatAck)), vec![0x93, 6, 0, 6]);
    assert_eq!(encode(&hello(60)), vec![0x93, 5, 0, 0x81, 5, 0x91, 60]);
    assert_eq!(encode(&hello(200)), vec![0x93, 5, 0, 0x81, 5, 0x91, 0xcc, 200]);
    assert_eq!(
        encode(&identify("abc".to_string())),
        vec![0x93, 2, 0, 0x81, 2, 0x91, 0xa3, b'a', b'b', b'c']
    );
    assert_eq!(encode(&ready()), vec![0x93, 0, 1, 0x81, 0, 0x91, 0xa0]);
    let timeout = encode(&invalid_session(ErrorCode::SessionTimeout));
    assert_eq!(&timeout[..8], &[0x93, 4, 0, 0x81, 4, 0x93, 4, 0xa0 + 15]);
    assert_eq!(&timeout[8..23], b"Session timeout");
}

#[test]
fn single_invalid_byte_is_decode_error() {
    assert_eq!(decode(&[0xc1]), Err(ErrorCode::DecodeError));
}

#[test]
fn empty_input_is_decode_error() {
    assert_eq!(decode(&[]), Err(ErrorCode::DecodeError));
}

#[test]
fn every_truncation_is_decode_error() {
    for p in every_payload() {
        let bytes = encode(&p);
        for k in 0..bytes.len() {
            assert_eq!(decode(&bytes[..k]), Err(ErrorCode::DecodeError), "{:?} cut at {}", p, k);
        }
    }
}

#[test]
fn trailing_bytes_are_decode_error() {
    let mut bytes = encode(&bare(OP::Heartbeat));
    bytes.push(0);
    assert_eq!(decode(&bytes), Err(ErrorCode::DecodeError));
}

#[test]
fn data_of_another_op_is_decode_error() {
    // Op code Heartbeat with the data of HeartbeatAck.
    assert_eq!(decode(&[0x93, 1, 0, 6]), Err(ErrorCode::DecodeError));
    // Op code Hello with Identify data.
    assert_eq!(decode(&[0x93, 5, 0, 0x81, 2, 0x91, 0xa1, b'a']), Err(ErrorCode::DecodeError));
}

#[test]
fn unknown_ordinals_are_decode_error() {
    assert_eq!(decode(&[0x93, 7, 0, 1]), Err(ErrorCode::DecodeError));
    assert_eq!(decode(&[0x93, 1, 2, 1]), Err(ErrorCode::DecodeError));
    assert_eq!(decode(&[0x93, 1, 0, 7]), Err(ErrorCode::DecodeError));
    assert_eq!(
        decode(&[0x93, 4, 0, 0x81, 4, 0x93, 5, 0xa0, 0xa0]),
        Err(ErrorCode::DecodeError)
    );
}

#[test]
fn longer_forms_than_needed_are_decode_error() {
    // 5 written as an 8-bit integer.
    assert_eq!(decode(&[0x93, 5, 0, 0x81, 5, 0x91, 0xcc, 5]), Err(ErrorCode::DecodeError));
    // A one-byte string written with a one-byte length.
    assert_eq!(decode(&[0x93, 2, 0, 0x81, 2, 0x91, 0xd9, 1, b'a']), Err(ErrorCode::DecodeError));
}

#[test]
fn invalid_utf8_is_decode_error() {
    assert_eq!(decode(&[0x93, 2, 0, 0x81, 2, 0x91, 0xa1, 0xff]), Err(ErrorCode::DecodeError));
    // A surrogate code point.
    assert_eq!(
        decode(&[0x93, 2, 0, 0x81, 2, 0x91, 0xa3, 0xed, 0xa0, 0x80]),
        Err(ErrorCode::DecodeError)
    );
}

#[test]
fn random_bytes_never_abort_and_only_encodings_decode() {
    let mut state: u64 = 0x9e37_79b9_7f4a_7c15;
    let mut next = || {
        state ^= state << 13;
        state ^= state >> 7;
        state ^= state << 17;
        state
    };
    for round in 0..20_000 {
        let len = (next() % 24) as usize;
        let mut bytes: Vec<u8> = (0..len).map(|_| next() as u8).collect();
        if round % 2 == 0 && len >= 3 {
            // Start like a payload so that deeper parts are reached too.
            bytes[0] = 0x93;
            bytes[1] %= 8;
            bytes[2] %= 3;
        }
        if let Ok(p) = decode(&bytes) {
            assert_eq!(encode(&p), bytes);
        }
    }
}

#[test]
fn populate_texts() {
    let d = ErrorCode::UnknownError.populate();
    assert_eq!(d.code, ErrorCode::UnknownError);
    assert_eq!(d.description, "Unknown error");
    assert_eq!(d.explanation, "We're not sure what went wrong. Try reconnecting?");
    let d = ErrorCode::UnknownOP.populate();
    assert_eq!(d.description, "Unknown OP code");
    assert_eq!(d.explanation, "The server received an unknown OP code. Try reconnecting?");
    let d = ErrorCode::DecodeError.populate();
    assert_eq!(d.description, "Decode error");
    assert_eq!(d.explanation, "The server received an invalid payload. Try reconnecting?");
    let d = ErrorCode::AuthenticationFailed.populate();
    assert_eq!(d.description, "Authentication failed");
    assert_eq!(d.explanation, "The server received an invalid passphrase too many times.");
    let d = ErrorCode::SessionTimeout.populate();
    assert_eq!(d.code, ErrorCode::SessionTimeout);
    assert_eq!(d.description, "Session timeout");
    assert_eq!(d.explanation, "You didn't send a heartbeat in time.");
}

#[test]
fn new_picks_op_code_from_data() {
    let p = Payload::new(Event::Ready, PayloadData::Hello(HelloData { heartbeat_interval: 9 }));
    assert_eq!(p.op_code, OP::Hello);
    assert_eq!(p.event_name, Event::Ready);
    let p = Payload::new(
        Event::Empty,
        PayloadData::InvalidSession(InvalidSessionData {
            code: ErrorCode::UnknownOP,
            description: "d".to_string(),
            explanation: "e".to_string(),
        }),
    );
    assert_eq!(p.op_code, OP::InvalidSession);
}
