//! The wire form of a `Payload`.
//!
//! A payload is written in MessagePack: an array of three items (op code,
//! event, data). Enum variants travel as their small ordinal; data with
//! fields is a one-entry map from the variant's ordinal to the array of its
//! fields, in declared order. Integers and string headers always take their
//! shortest form, so each payload has exactly one encoding and the decoder
//! accepts nothing else.
use vstd::prelude::*;
use vstd::utf8::*;

use crate::payload::{
    data_op, error_code_ordinal, event_ordinal, op_ordinal, DataModel, DispatchData, ErrorCode,
    Event, HelloData, IdentifyData, InvalidSessionData, Payload, PayloadData, PayloadModel, OP,
};

verus! {

broadcast use vstd::utf8::encode_utf8_valid_utf8, vstd::utf8::encode_utf8_decode_utf8;

/// MessagePack marker of a three-item array.
pub const ARRAY3: u8 = 0x93;

/// MessagePack marker of a one-item array.
pub const ARRAY1: u8 = 0x91;

/// MessagePack marker of a one-entry map.
pub const MAP1: u8 = 0x81;

/// MessagePack marker of an 8-bit unsigned integer.
pub const UINT8: u8 = 0xcc;

/// MessagePack base marker of a string shorter than 32 bytes.
pub const FIXSTR: u8 = 0xa0;

/// MessagePack marker of a string with a 1-byte length.
pub const STR8: u8 = 0xd9;

/// MessagePack marker of a string with a 2-byte length.
pub const STR16: u8 = 0xda;

/// MessagePack marker of a string with a 4-byte length.
pub const STR32: u8 = 0xdb;

/// A string can be written when its UTF-8 form has fewer than 2^32 bytes.
pub open spec fn fits(s: Seq<char>) -> bool {
    encode_utf8(s).len() < 0x1_0000_0000
}

/// Every string in the data can be written.
pub open spec fn data_fits(d: DataModel) -> bool {
    match d {
        DataModel::Dispatch { data } => fits(data),
        DataModel::Identify { passphrase } => fits(passphrase),
        DataModel::InvalidSession { description, explanation, .. } => fits(description) && fits(
            explanation,
        ),
        _ => true,
    }
}

impl PayloadModel {
    /// Every string in the payload can be written.
    pub open spec fn fits(self) -> bool {
        data_fits(self.data)
    }
}

/// The header of a string of `n` bytes.
pub open spec fn str_header(n: nat) -> Seq<u8> {
    if n < 32 {
        seq![(FIXSTR + n) as u8]
    } else if n < 256 {
        seq![STR8, n as u8]
    } else if n < 0x1_0000 {
        seq![STR16, (n / 256) as u8, (n % 256) as u8]
    } else {
        seq![
            STR32,
            (n / 0x100_0000) as u8,
            ((n / 0x1_0000) % 256) as u8,
            ((n / 256) % 256) as u8,
            (n % 256) as u8,
        ]
    }
}

/// A string: its header, then its UTF-8 bytes.
pub open spec fn encode_str(s: Seq<char>) -> Seq<u8> {
    str_header(encode_utf8(s).len()) + encode_utf8(s)
}

/// An 8-bit unsigned integer in its shortest form.
pub open spec fn encode_uint8(n: u8) -> Seq<u8> {
    if n < 128 {
        seq![n]
    } else {
        seq![UINT8, n]
    }
}

/// The data of a payload.
pub open spec fn encode_data(d: DataModel) -> Seq<u8> {
    match d {
        DataModel::Dispatch { data } => seq![MAP1, 0, ARRAY1] + encode_str(data),
        DataModel::Heartbeat => seq![1u8],
        DataModel::Identify { passphrase } => seq![MAP1, 2, ARRAY1] + encode_str(passphrase),
        DataModel::ReIdentify => seq![3u8],
        DataModel::InvalidSession { code, description, explanation } => seq![
            MAP1,
            4,
            ARRAY3,
            error_code_ordinal(code),
        ] + encode_str(description) + encode_str(explanation),
        DataModel::Hello { heartbeat_interval } => seq![MAP1, 5, ARRAY1] + encode_uint8(
            heartbeat_interval,
        ),
        DataModel::HeartbeatAck => seq![6u8],
    }
}

/// The wire form of a payload.
pub open spec fn encode_payload(m: PayloadModel) -> Seq<u8> {
    seq![ARRAY3, op_ordinal(m.op_code), event_ordinal(m.event_name)] + encode_data(m.data)
}

/// The `OP` of a wire ordinal below 7.
pub open spec fn op_of(n: u8) -> OP {
    if n == 0 {
        OP::Dispatch
    } else if n == 1 {
        OP::Heartbeat
    } else if n == 2 {
        OP::Identify
    } else if n == 3 {
        OP::ReIdentify
    } else if n == 4 {
        OP::InvalidSession
    } else if n == 5 {
        OP::Hello
    } else {
        OP::HeartbeatAck
    }
}

/// The `Event` of a wire ordinal below 2.
pub open spec fn event_of(n: u8) -> Event {
    if n == 0 {
        Event::Empty
    } else {
        Event::Ready
    }
}

/// The `ErrorCode` of a wire ordinal below 5.
pub open spec fn error_code_of(n: u8) -> ErrorCode {
    if n == 0 {
        ErrorCode::UnknownError
    } else if n == 1 {
        ErrorCode::UnknownOP
    } else if n == 2 {
        ErrorCode::DecodeError
    } else if n == 3 {
        ErrorCode::AuthenticationFailed
    } else {
        ErrorCode::SessionTimeout
    }
}

/// Reads a string header at `pos`: the string's length and where its bytes start.
pub open spec fn parse_str_header(b: Seq<u8>, pos: int) -> Option<(nat, int)> {
    if 0 <= pos < b.len() {
        let h = b[pos];
        if FIXSTR <= h < FIXSTR + 32 {
            Some(((h - FIXSTR) as nat, pos + 1))
        } else if h == STR8 && pos + 1 < b.len() && b[pos + 1] >= 32 {
            Some((b[pos + 1] as nat, pos + 2))
        } else if h == STR16 && pos + 2 < b.len() && b[pos + 1] != 0 {
            Some(((b[pos + 1] * 256 + b[pos + 2]) as nat, pos + 3))
        } else if h == STR32 && pos + 4 < b.len() && (b[pos + 1] != 0 || b[pos + 2] != 0) {
            Some(
                (
                    (b[pos + 1] * 0x100_0000 + b[pos + 2] * 0x1_0000 + b[pos + 3] * 256
                        + b[pos + 4]) as nat,
                    pos + 5,
                ),
            )
        } else {
            None
        }
    } else {
        None
    }
}

/// Reads a string at `pos`: its characters and where it ends.
pub open spec fn parse_str(b: Seq<u8>, pos: int) -> Option<(Seq<char>, int)> {
    match parse_str_header(b, pos) {
        Some((n, start)) => if start + n <= b.len() && valid_utf8(
            b.subrange(start, start + n),
        ) {
            Some((decode_utf8(b.subrange(start, start + n)), start + n))
        } else {
            None
        },
        None => None,
    }
}

/// Reads an 8-bit unsigned integer at `pos`.
pub open spec fn parse_uint8(b: Seq<u8>, pos: int) -> Option<(u8, int)> {
    if 0 <= pos < b.len() {
        if b[pos] < 128 {
            Some((b[pos], pos + 1))
        } else if b[pos] == UINT8 && pos + 1 < b.len() && b[pos + 1] >= 128 {
            Some((b[pos + 1], pos + 2))
        } else {
            None
        }
    } else {
        None
    }
}

/// Reads the data of a payload at `pos`.
#[verifier::opaque]
pub open spec fn parse_data(b: Seq<u8>, pos: int) -> Option<(DataModel, int)> {
    if 0 <= pos < b.len() {
        let h = b[pos];
        if h == 1 {
            Some((DataModel::Heartbeat, pos + 1))
        } else if h == 3 {
            Some((DataModel::ReIdentify, pos + 1))
        } else if h == 6 {
            Some((DataModel::HeartbeatAck, pos + 1))
        } else if h == MAP1 && pos + 2 < b.len() {
            let tag = b[pos + 1];
            let fields = b[pos + 2];
            if tag == 0 && fields == ARRAY1 {
                match parse_str(b, pos + 3) {
                    Some((s, e)) => Some((DataModel::Dispatch { data: s }, e)),
                    None => None,
                }
            } else if tag == 2 && fields == ARRAY1 {
                match parse_str(b, pos + 3) {
                    Some((s, e)) => Some((DataModel::Identify { passphrase: s }, e)),
                    None => None,
                }
            } else if tag == 4 && fields == ARRAY3 && pos + 3 < b.len() && b[pos + 3] < 5 {
                match parse_str(b, pos + 4) {
                    Some((d, e1)) => match parse_str(b, e1) {
                        Some((x, e2)) => Some(
                            (
                                DataModel::InvalidSession {
                                    code: error_code_of(b[pos + 3]),
                                    description: d,
                                    explanation: x,
                                },
                                e2,
                            ),
                        ),
                        None => None,
                    },
                    None => None,
                }
            } else if tag == 5 && fields == ARRAY1 {
                match parse_uint8(b, pos + 3) {
                    Some((n, e)) => Some((DataModel::Hello { heartbeat_interval: n }, e)),
                    None => None,
                }
            } else {
                None
            }
        } else {
            None
        }
    } else {
        None
    }
}

/// The payload that a whole byte sequence holds, if it holds one: a payload
/// that fills it exactly and whose data belongs to its op code.
pub open spec fn parse_payload(b: Seq<u8>) -> Option<PayloadModel> {
    if b.len() >= 3 && b[0] == ARRAY3 && b[1] < 7 && b[2] < 2 {
        match parse_data(b, 3) {
            Some((d, e)) => if e == b.len() && data_op(d) == op_of(b[1]) {
                Some(PayloadModel { op_code: op_of(b[1]), event_name: event_of(b[2]), data: d })
            } else {
                None
            },
            None => None,
        }
    } else {
        None
    }
}


// Proofs about the wire form.

proof fn lemma_split(b: Seq<u8>, pos: int, x: Seq<u8>, y: Seq<u8>)
    requires
        0 <= pos,
        pos + x.len() + y.len() <= b.len(),
        b.subrange(pos, pos + x.len() + y.len()) == x + y,
    ensures
        b.subrange(pos, pos + x.len()) == x,
        b.subrange(pos + x.len(), pos + x.len() + y.len()) == y,
{
    let all = b.subrange(pos, pos + x.len() + y.len());
    assert forall|i: int| 0 <= i < x.len() implies b.subrange(pos, pos + x.len())[i] == x[i] by {
        assert(all[i] == (x + y)[i]);
    }
    assert forall|i: int| 0 <= i < y.len() implies b.subrange(
        pos + x.len(),
        pos + x.len() + y.len(),
    )[i] == y[i] by {
        assert(all[x.len() + i] == (x + y)[x.len() + i]);
    }
    assert(b.subrange(pos, pos + x.len()) =~= x);
    assert(b.subrange(pos + x.len(), pos + x.len() + y.len()) =~= y);
}

proof fn lemma_join(b: Seq<u8>, pos: int, mid: int, end: int)
    requires
        0 <= pos <= mid <= end <= b.len(),
    ensures
        b.subrange(pos, end) == b.subrange(pos, mid) + b.subrange(mid, end),
{
    assert(b.subrange(pos, end) =~= b.subrange(pos, mid) + b.subrange(mid, end));
}

proof fn lemma_bytes(b: Seq<u8>, pos: int, x: Seq<u8>)
    requires
        0 <= pos,
        pos + x.len() <= b.len(),
        b.subrange(pos, pos + x.len()) == x,
    ensures
        forall|i: int| 0 <= i < x.len() ==> b[pos + i] == x[i],
{
    assert forall|i: int| 0 <= i < x.len() implies b[pos + i] == x[i] by {
        assert(b.subrange(pos, pos + x.len())[i] == b[pos + i]);
    }
}

proof fn lemma_str_header_round_trip(b: Seq<u8>, pos: int, n: nat)
    requires
        0 <= pos,
        n < 0x1_0000_0000,
        pos + str_header(n).len() <= b.len(),
        b.subrange(pos, pos + str_header(n).len()) == str_header(n),
    ensures
        parse_str_header(b, pos) == Some((n, pos + str_header(n).len())),
{
    let h = str_header(n);
    lemma_bytes(b, pos, h);
    if n < 32 {
        assert(b[pos] == h[0]);
    } else if n < 256 {
        assert(b[pos] == h[0] && b[pos + 1] == h[1]);
    } else if n < 0x1_0000 {
        assert(b[pos] == h[0] && b[pos + 1] == h[1] && b[pos + 2] == h[2]);
        assert(b[pos + 1] * 256 + b[pos + 2] == n);
    } else {
        assert(b[pos] == h[0] && b[pos + 1] == h[1] && b[pos + 2] == h[2] && b[pos + 3] == h[3]
            && b[pos + 4] == h[4]);
        assert(b[pos + 1] * 0x100_0000 + b[pos + 2] * 0x1_0000 + b[pos + 3] * 256 + b[pos + 4]
            == n);
    }
}

proof fn lemma_str_header_canonical(b: Seq<u8>, pos: int)
    requires
        parse_str_header(b, pos) is Some,
    ensures
        ({
            let (n, start) = parse_str_header(b, pos).unwrap();
            &&& 0 <= pos < start <= b.len()
            &&& n < 0x1_0000_0000
            &&& start == pos + str_header(n).len()
            &&& b.subrange(pos, start) == str_header(n)
        }),
{
    let (n, start) = parse_str_header(b, pos).unwrap();
    assert(b.subrange(pos, start) =~= str_header(n));
}

proof fn lemma_str_round_trip(b: Seq<u8>, pos: int, s: Seq<char>)
    requires
        0 <= pos,
        fits(s),
        pos + encode_str(s).len() <= b.len(),
        b.subrange(pos, pos + encode_str(s).len()) == encode_str(s),
    ensures
        parse_str(b, pos) == Some((s, pos + encode_str(s).len())),
{
    let u = encode_utf8(s);
    let h = str_header(u.len());
    lemma_split(b, pos, h, u);
    lemma_str_header_round_trip(b, pos, u.len());
}

proof fn lemma_str_canonical(b: Seq<u8>, pos: int)
    requires
        parse_str(b, pos) is Some,
    ensures
        ({
            let (s, e) = parse_str(b, pos).unwrap();
            &&& 0 <= pos < e <= b.len()
            &&& fits(s)
            &&& e == pos + encode_str(s).len()
            &&& b.subrange(pos, e) == encode_str(s)
        }),
{
    let (n, start) = parse_str_header(b, pos).unwrap();
    lemma_str_header_canonical(b, pos);
    let u = b.subrange(start, start + n);
    decode_utf8_encode_utf8(u);
    lemma_join(b, pos, start, start + n);
}

proof fn lemma_uint8_round_trip(b: Seq<u8>, pos: int, n: u8)
    requires
        0 <= pos,
        pos + encode_uint8(n).len() <= b.len(),
        b.subrange(pos, pos + encode_uint8(n).len()) == encode_uint8(n),
    ensures
        parse_uint8(b, pos) == Some((n, pos + encode_uint8(n).len())),
{
    let x = encode_uint8(n);
    lemma_bytes(b, pos, x);
    assert(b[pos] == x[0]);
    if n >= 128 {
        assert(b[pos + 1] == x[1]);
    }
}

proof fn lemma_uint8_canonical(b: Seq<u8>, pos: int)
    requires
        parse_uint8(b, pos) is Some,
    ensures
        ({
            let (n, e) = parse_uint8(b, pos).unwrap();
            &&& 0 <= pos < e <= b.len()
            &&& e == pos + encode_uint8(n).len()
            &&& b.subrange(pos, e) == encode_uint8(n)
        }),
{
    let (n, e) = parse_uint8(b, pos).unwrap();
    assert(b.subrange(pos, e) =~= encode_uint8(n));
}

proof fn lemma_data_round_trip(b: Seq<u8>, pos: int, d: DataModel)
    requires
        0 <= pos,
        data_fits(d),
        pos + encode_data(d).len() <= b.len(),
        b.subrange(pos, pos + encode_data(d).len()) == encode_data(d),
    ensures
        parse_data(b, pos) == Some((d, pos + encode_data(d).len())),
{
    reveal(parse_data);
    let enc = encode_data(d);
    match d {
        DataModel::Dispatch { data } => {
            let head = seq![MAP1, 0u8, ARRAY1];
            lemma_split(b, pos, head, encode_str(data));
            lemma_bytes(b, pos, head);
            lemma_str_round_trip(b, pos + 3, data);

        },
        DataModel::Identify { passphrase } => {
            let head = seq![MAP1, 2u8, ARRAY1];
            lemma_split(b, pos, head, encode_str(passphrase));
            lemma_bytes(b, pos, head);
            lemma_str_round_trip(b, pos + 3, passphrase);
        },
        DataModel::InvalidSession { code, description, explanation } => {
            let head = seq![MAP1, 4u8, ARRAY3, error_code_ordinal(code)];
            let ed = encode_str(description);
            let ex = encode_str(explanation);
            lemma_split(b, pos, head + ed, ex);
            lemma_split(b, pos, head, ed);
            lemma_bytes(b, pos, head);
            lemma_str_round_trip(b, pos + 4, description);
            lemma_str_round_trip(b, pos + 4 + ed.len(), explanation);
        },
        DataModel::Hello { heartbeat_interval } => {
            let head = seq![MAP1, 5u8, ARRAY1];
            lemma_split(b, pos, head, encode_uint8(heartbeat_interval));
            lemma_bytes(b, pos, head);
            lemma_uint8_round_trip(b, pos + 3, heartbeat_interval);
        },
        _ => {
            lemma_bytes(b, pos, enc);
            assert(b[pos] == enc[0]);
        },
    }
}

proof fn lemma_data_canonical(b: Seq<u8>, pos: int)
    requires
        parse_data(b, pos) is Some,
    ensures
        ({
            let (d, e) = parse_data(b, pos).unwrap();
            &&& 0 <= pos < e <= b.len()
            &&& data_fits(d)
            &&& e == pos + encode_data(d).len()
            &&& b.subrange(pos, e) == encode_data(d)
        }),
{
    reveal(parse_data);
    let (d, e) = parse_data(b, pos).unwrap();
    let h = b[pos];
    if h == 1 || h == 3 || h == 6 {
        assert(b.subrange(pos, e) =~= encode_data(d));
    } else {
        let tag = b[pos + 1];
        if tag == 0 || tag == 2 {
            lemma_str_canonical(b, pos + 3);
            lemma_join(b, pos, pos + 3, e);
            assert(b.subrange(pos, pos + 3) =~= seq![MAP1, tag, ARRAY1]);
        } else if tag == 4 {
            lemma_str_canonical(b, pos + 4);
            let (_, e1) = parse_str(b, pos + 4).unwrap();
            lemma_str_canonical(b, e1);
            lemma_join(b, pos, pos + 4, e1);
            lemma_join(b, pos, e1, e);
            assert(b.subrange(pos, pos + 4) =~= seq![MAP1, 4u8, ARRAY3, b[pos + 3]]);
        } else {
            lemma_uint8_canonical(b, pos + 3);
            lemma_join(b, pos, pos + 3, e);
            assert(b.subrange(pos, pos + 3) =~= seq![MAP1, 5u8, ARRAY1]);
        }
    }
}

proof fn lemma_ordinals(m: PayloadModel)
    ensures
        op_ordinal(m.op_code) < 7,
        op_of(op_ordinal(m.op_code)) == m.op_code,
        event_ordinal(m.event_name) < 2,
        event_of(event_ordinal(m.event_name)) == m.event_name,
{
}

/// Decoding an encoded payload gives the payload back: for every payload
/// whose data belongs to its op code, of every op code, event and data.
pub proof fn lemma_round_trip(m: PayloadModel)
    requires
        m.consistent(),
        m.fits(),
    ensures
        parse_payload(encode_payload(m)) == Some(m),
{
    let b = encode_payload(m);
    let head = seq![ARRAY3, op_ordinal(m.op_code), event_ordinal(m.event_name)];
    assert(b.subrange(0, b.len() as int) =~= b);
    lemma_split(b, 0, head, encode_data(m.data));
    lemma_data_round_trip(b, 3, m.data);
    lemma_ordinals(m);
    assert(b[0] == ARRAY3 && b[1] == op_ordinal(m.op_code) && b[2] == event_ordinal(m.event_name));
    assert(b.len() == 3 + encode_data(m.data).len());
}

/// The decoder accepts nothing but encodings: bytes that decode to a
/// payload are exactly that payload's encoding, and the payload is well formed.
pub proof fn lemma_decode_canonical(b: Seq<u8>)
    requires
        parse_payload(b) is Some,
    ensures
        encode_payload(parse_payload(b).unwrap()) == b,
        parse_payload(b).unwrap().consistent(),
        parse_payload(b).unwrap().fits(),
{
    let m = parse_payload(b).unwrap();
    lemma_data_canonical(b, 3);
    lemma_join(b, 0, 3, b.len() as int);
    assert(b.subrange(0, 3) =~= seq![ARRAY3, op_ordinal(m.op_code), event_ordinal(m.event_name)]);
    assert(b.subrange(0, b.len() as int) =~= b);
}

/// A strict prefix of an encoding (a truncated message) never decodes.
pub proof fn lemma_truncated_rejected(m: PayloadModel, k: int)
    requires
        m.consistent(),
        m.fits(),
        0 <= k < encode_payload(m).len(),
    ensures
        parse_payload(encode_payload(m).subrange(0, k)) is None,
{
    let b = encode_payload(m);
    let t = b.subrange(0, k);
    if parse_payload(t) is Some {
        lemma_data_canonical(t, 3);
        let (d2, e2) = parse_data(t, 3).unwrap();
        assert(e2 == k);
        assert(b.subrange(3, k) =~= t.subrange(3, k));
        lemma_data_round_trip(b, 3, d2);
        lemma_round_trip(m);
        let head = seq![ARRAY3, op_ordinal(m.op_code), event_ordinal(m.event_name)];
        lemma_split(b, 0, head, encode_data(m.data));
        assert(b.subrange(0, b.len() as int) =~= b);
        lemma_data_round_trip(b, 3, m.data);
    }
}


// Writing.

fn push_all(out: &mut Vec<u8>, bytes: &[u8])
    ensures
        final(out)@ == old(out)@ + bytes@,
{
    let ghost start = out@;
    let mut i: usize = 0;
    while i < bytes.len()
        invariant
            i <= bytes@.len(),
            out@ == start + bytes@.subrange(0, i as int),
        decreases bytes.len() - i,
    {
        out.push(bytes[i]);
        i = i + 1;
        assert(out@ =~= start + bytes@.subrange(0, i as int));
    }
    assert(bytes@.subrange(0, bytes@.len() as int) =~= bytes@);
}

fn write_str(out: &mut Vec<u8>, s: &str)
    requires
        fits(s@),
    ensures
        final(out)@ == old(out)@ + encode_str(s@),
{
    let ghost start = out@;
    let bytes = s.as_bytes();
    let n = bytes.len();
    if n < 32 {
        out.push(FIXSTR + n as u8);
    } else if n < 256 {
        out.push(STR8);
        out.push(n as u8);
    } else if n < 0x1_0000 {
        out.push(STR16);
        out.push((n / 256) as u8);
        out.push((n % 256) as u8);
    } else {
        out.push(STR32);
        out.push((n / 0x100_0000) as u8);
        out.push(((n / 0x1_0000) % 256) as u8);
        out.push(((n / 256) % 256) as u8);
        out.push((n % 256) as u8);
    }
    assert(out@ =~= start + str_header(n as nat));
    push_all(out, bytes);
    assert(out@ =~= start + encode_str(s@));
}

fn write_uint8(out: &mut Vec<u8>, n: u8)
    ensures
        final(out)@ == old(out)@ + encode_uint8(n),
{
    let ghost start = out@;
    if n < 128 {
        out.push(n);
    } else {
        out.push(UINT8);
        out.push(n);
    }
    assert(out@ =~= start + encode_uint8(n));
}

fn write_data(out: &mut Vec<u8>, d: &PayloadData)
    requires
        data_fits(d@),
    ensures
        final(out)@ == old(out)@ + encode_data(d@),
{
    let ghost start = out@;
    match d {
        PayloadData::Dispatch(x) => {
            out.push(MAP1);
            out.push(0);
            out.push(ARRAY1);
            write_str(out, x.data.as_str());
        },
        PayloadData::Heartbeat => {
            out.push(1);
        },
        PayloadData::Identify(x) => {
            out.push(MAP1);
            out.push(2);
            out.push(ARRAY1);
            write_str(out, x.passphrase.as_str());
        },
        PayloadData::ReIdentify => {
            out.push(3);
        },
        PayloadData::InvalidSession(x) => {
            out.push(MAP1);
            out.push(4);
            out.push(ARRAY3);
            out.push(error_code_to_ordinal(x.code));
            write_str(out, x.description.as_str());
            write_str(out, x.explanation.as_str());
        },
        PayloadData::Hello(x) => {
            out.push(MAP1);
            out.push(5);
            out.push(ARRAY1);
            write_uint8(out, x.heartbeat_interval);
        },
        PayloadData::HeartbeatAck => {
            out.push(6);
        },
    }
    assert(out@ =~= start + encode_data(d@));
}

fn op_to_ordinal(op: OP) -> (r: u8)
    ensures
        r == op_ordinal(op),
{
    match op {
        OP::Dispatch => 0,
        OP::Heartbeat => 1,
        OP::Identify => 2,
        OP::ReIdentify => 3,
        OP::InvalidSession => 4,
        OP::Hello => 5,
        OP::HeartbeatAck => 6,
    }
}

fn event_to_ordinal(e: Event) -> (r: u8)
    ensures
        r == event_ordinal(e),
{
    match e {
        Event::Empty => 0,
        Event::Ready => 1,
    }
}

fn error_code_to_ordinal(c: ErrorCode) -> (r: u8)
    ensures
        r == error_code_ordinal(c),
{
    match c {
        ErrorCode::UnknownError => 0,
        ErrorCode::UnknownOP => 1,
        ErrorCode::DecodeError => 2,
        ErrorCode::AuthenticationFailed => 3,
        ErrorCode::SessionTimeout => 4,
    }
}

/// Whether every string of the payload is short enough to be written
/// (under 4 GiB of UTF-8).
pub fn encodable(p: &Payload) -> (r: bool)
    ensures
        r == p@.fits(),
{
    match &p.data {
        PayloadData::Dispatch(x) => (x.data.as_str().as_bytes().len() as u64) < 0x1_0000_0000,
        PayloadData::Identify(x) => (x.passphrase.as_str().as_bytes().len() as u64) < 0x1_0000_0000,
        PayloadData::InvalidSession(x) => (x.description.as_str().as_bytes().len() as u64) < 0x1_0000_0000
            && (x.explanation.as_str().as_bytes().len() as u64) < 0x1_0000_0000,
        _ => true,
    }
}

/// Encodes a payload into its wire form.
pub fn encode(p: &Payload) -> (r: Vec<u8>)
    requires
        p@.fits(),
    ensures
        r@ == encode_payload(p@),
{
    let mut out: Vec<u8> = Vec::new();
    out.push(ARRAY3);
    out.push(op_to_ordinal(p.op_code));
    out.push(event_to_ordinal(p.event_name));
    write_data(&mut out, &p.data);
    assert(out@ =~= encode_payload(p@));
    out
}

// Reading.

/// Relies on std::str::from_utf8: it accepts exactly the well-formed UTF-8
/// byte sequences, and the text is then the characters that they encode.
#[verifier::external_body]
fn text_from_utf8(b: &[u8]) -> (r: Option<String>)
    ensures
        r is Some <==> valid_utf8(b@),
        r matches Some(s) ==> s@ == decode_utf8(b@),
{
    match std::str::from_utf8(b) {
        Ok(s) => Some(s.to_string()),
        Err(_) => None,
    }
}

fn read_str_header(b: &[u8], pos: usize) -> (r: Option<(usize, usize)>)
    ensures
        r is Some <==> parse_str_header(b@, pos as int) is Some,
        r matches Some((n, start)) ==> parse_str_header(b@, pos as int) == Some(
            (n as nat, start as int),
        ),
{
    if pos >= b.len() {
        return None;
    }
    let h = b[pos];
    let left = b.len() - pos;
    if FIXSTR <= h && h < FIXSTR + 32 {
        Some(((h - FIXSTR) as usize, pos + 1))
    } else if h == STR8 && left > 1 && b[pos + 1] >= 32 {
        Some((b[pos + 1] as usize, pos + 2))
    } else if h == STR16 && left > 2 && b[pos + 1] != 0 {
        Some((b[pos + 1] as usize * 256 + b[pos + 2] as usize, pos + 3))
    } else if h == STR32 && left > 4 && (b[pos + 1] != 0 || b[pos + 2] != 0) {
        let n = b[pos + 1] as usize * 0x100_0000 + b[pos + 2] as usize * 0x1_0000 + b[pos
            + 3] as usize * 256 + b[pos + 4] as usize;
        Some((n, pos + 5))
    } else {
        None
    }
}

fn read_str(b: &[u8], pos: usize) -> (r: Option<(String, usize)>)
    ensures
        r is Some <==> parse_str(b@, pos as int) is Some,
        r matches Some((s, end)) ==> parse_str(b@, pos as int) == Some((s@, end as int)),
{
    match read_str_header(b, pos) {
        None => None,
        Some((n, start)) => {
            if n > b.len() - start {
                return None;
            }
            let end = start + n;
            match text_from_utf8(&b[start..end]) {
                Some(s) => Some((s, end)),
                None => None,
            }
        },
    }
}

fn read_uint8(b: &[u8], pos: usize) -> (r: Option<(u8, usize)>)
    ensures
        r is Some <==> parse_uint8(b@, pos as int) is Some,
        r matches Some((n, end)) ==> parse_uint8(b@, pos as int) == Some((n, end as int)),
{
    if pos >= b.len() {
        None
    } else if b[pos] < 128 {
        Some((b[pos], pos + 1))
    } else if b[pos] == UINT8 && b.len() - pos > 1 && b[pos + 1] >= 128 {
        Some((b[pos + 1], pos + 2))
    } else {
        None
    }
}

fn op_from_ordinal(n: u8) -> (r: OP)
    ensures
        r == op_of(n),
{
    if n == 0 {
        OP::Dispatch
    } else if n == 1 {
        OP::Heartbeat
    } else if n == 2 {
        OP::Identify
    } else if n == 3 {
        OP::ReIdentify
    } else if n == 4 {
        OP::InvalidSession
    } else if n == 5 {
        OP::Hello
    } else {
        OP::HeartbeatAck
    }
}

fn event_from_ordinal(n: u8) -> (r: Event)
    ensures
        r == event_of(n),
{
    if n == 0 {
        Event::Empty
    } else {
        Event::Ready
    }
}

fn error_code_from_ordinal(n: u8) -> (r: ErrorCode)
    ensures
        r == error_code_of(n),
{
    if n == 0 {
        ErrorCode::UnknownError
    } else if n == 1 {
        ErrorCode::UnknownOP
    } else if n == 2 {
        ErrorCode::DecodeError
    } else if n == 3 {
        ErrorCode::AuthenticationFailed
    } else {
        ErrorCode::SessionTimeout
    }
}

fn read_data(b: &[u8], pos: usize) -> (r: Option<(PayloadData, usize)>)
    ensures
        r is Some <==> parse_data(b@, pos as int) is Some,
        r matches Some((d, end)) ==> parse_data(b@, pos as int) == Some((d@, end as int)),
{
    reveal(parse_data);
    if pos >= b.len() {
        return None;
    }
    let h = b[pos];
    if h == 1 {
        Some((PayloadData::Heartbeat, pos + 1))
    } else if h == 3 {
        Some((PayloadData::ReIdentify, pos + 1))
    } else if h == 6 {
        Some((PayloadData::HeartbeatAck, pos + 1))
    } else if h == MAP1 && b.len() - pos > 2 {
        let tag = b[pos + 1];
        let fields = b[pos + 2];
        if tag == 0 && fields == ARRAY1 {
            match read_str(b, pos + 3) {
                Some((s, e)) => Some((PayloadData::Dispatch(DispatchData { data: s }), e)),
                None => None,
            }
        } else if tag == 2 && fields == ARRAY1 {
            match read_str(b, pos + 3) {
                Some((s, e)) => Some((PayloadData::Identify(IdentifyData { passphrase: s }), e)),
                None => None,
            }
        } else if tag == 4 && fields == ARRAY3 && b.len() - pos > 3 && b[pos + 3] < 5 {
            match read_str(b, pos + 4) {
                Some((description, e1)) => match read_str(b, e1) {
                    Some((explanation, e2)) => {
                        let code = error_code_from_ordinal(b[pos + 3]);
                        Some(
                            (
                                PayloadData::InvalidSession(
                                    InvalidSessionData { code, description, explanation },
                                ),
                                e2,
                            ),
                        )
                    },
                    None => None,
                },
                None => None,
            }
        } else if tag == 5 && fields == ARRAY1 {
            match read_uint8(b, pos + 3) {
                Some((n, e)) => Some((PayloadData::Hello(HelloData { heartbeat_interval: n }), e)),
                None => None,
            }
        } else {
            None
        }
    } else {
        None
    }
}

fn data_op_of(d: &PayloadData) -> (r: OP)
    ensures
        r == data_op(d@),
{
    match d {
        PayloadData::Dispatch(_) => OP::Dispatch,
        PayloadData::Heartbeat => OP::Heartbeat,
        PayloadData::Identify(_) => OP::Identify,
        PayloadData::ReIdentify => OP::ReIdentify,
        PayloadData::InvalidSession(_) => OP::InvalidSession,
        PayloadData::Hello(_) => OP::Hello,
        PayloadData::HeartbeatAck => OP::HeartbeatAck,
    }
}

/// Decodes a payload from its wire form. Untrusted input is fine: on
/// anything but the exact encoding of a well-formed payload the result is
/// `Err(ErrorCode::DecodeError)`.
pub fn decode(b: &[u8]) -> (r: Result<Payload, ErrorCode>)
    ensures
        r is Ok <==> parse_payload(b@) is Some,
        r matches Ok(p) ==> parse_payload(b@) == Some(p@),
        r matches Err(e) ==> e == ErrorCode::DecodeError,
{
    if b.len() < 3 || b[0] != ARRAY3 || b[1] >= 7 || b[2] >= 2 {
        return Err(ErrorCode::DecodeError);
    }
    match read_data(b, 3) {
        Some((data, end)) => {
            let op_code = op_from_ordinal(b[1]);
            if end == b.len() && data_op_of(&data) == op_code {
                Ok(Payload { op_code, event_name: event_from_ordinal(b[2]), data })
            } else {
                Err(ErrorCode::DecodeError)
            }
        },
        None => Err(ErrorCode::DecodeError),
    }
}

} // verus!
