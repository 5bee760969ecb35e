//! Interface contract between the device agent and the host controller.
//!
//! Endpoints and topics are identified by string paths fixed at build time.
//! A reading travels on the wire as a 32-bit single-precision bit pattern;
//! the engine carries the raw bits and leaves the floating-point view to the
//! unverified edges. Payload codecs compose the primitive codecs of `wire`.

use vstd::prelude::*;

use crate::wire::{
    decode_le4, decode_varint_u32, encode_le4, encode_varint_u32, lemma_le4_round_trip,
    lemma_varint_round_trip, spec_decode_le4, spec_decode_varint, spec_le4, spec_varint,
};

verus! {

/// One temperature reading, immutable once constructed. `temp01_bits` is
/// the 32-bit single-precision bit pattern of the probe's reading.
#[derive(Clone, Copy, Debug, PartialEq, Eq, Structural)]
pub struct Measurement {
    pub temp01_bits: u32,
}

/// Parameters of a start request: the tick interval in milliseconds and a
/// reserved threshold (a single-precision bit pattern, currently unused).
#[derive(Clone, Copy, Debug, PartialEq, Eq, Structural)]
pub struct StartMeasuring {
    pub interval_ms: u32,
    pub threshold_bits: u32,
}

/// The string paths the wire protocol knows.
#[derive(Clone, Copy, Debug, PartialEq, Eq, Structural)]
pub enum PathId {
    /// "measuring/start": request to begin a continuous sampling session.
    Start,
    /// "measuring/stop": request to stop the running session.
    Stop,
    /// "measuring/data": the topic the session publishes measurements on.
    Data,
    /// "measurement": request for one single-shot measurement.
    Measure,
    /// "error": path of protocol error replies.
    Error,
}

/// The UTF-8 bytes of each path.
pub open spec fn path_bytes(p: PathId) -> Seq<u8> {
    match p {
        PathId::Start => seq![
            109, 101, 97, 115, 117, 114, 105, 110, 103, 47, 115, 116, 97, 114,
            116,
        ],
        PathId::Stop => seq![
            109, 101, 97, 115, 117, 114, 105, 110, 103, 47, 115, 116, 111, 112,
        ],
        PathId::Data => seq![
            109, 101, 97, 115, 117, 114, 105, 110, 103, 47, 100, 97, 116, 97,
        ],
        PathId::Measure => seq![
            109, 101, 97, 115, 117, 114, 101, 109, 101, 110, 116,
        ],
        PathId::Error => seq![101, 114, 114, 111, 114],
    }
}

/// Which path, if any, a byte string names.
pub open spec fn parse_path_spec(s: Seq<u8>) -> Option<PathId> {
    if s == path_bytes(PathId::Start) {
        Some(PathId::Start)
    } else if s == path_bytes(PathId::Stop) {
        Some(PathId::Stop)
    } else if s == path_bytes(PathId::Data) {
        Some(PathId::Data)
    } else if s == path_bytes(PathId::Measure) {
        Some(PathId::Measure)
    } else if s == path_bytes(PathId::Error) {
        Some(PathId::Error)
    } else {
        None
    }
}

/// Builds the byte string of a path.
pub fn encode_path(p: PathId) -> (r: Vec<u8>)
    ensures
        r@ == path_bytes(p),
{
    let mut v: Vec<u8> = Vec::new();
    match p {
        PathId::Start => {
            v.push(109);
            v.push(101);
            v.push(97);
            v.push(115);
            v.push(117);
            v.push(114);
            v.push(105);
            v.push(110);
            v.push(103);
            v.push(47);
            v.push(115);
            v.push(116);
            v.push(97);
            v.push(114);
            v.push(116);
        },
        PathId::Stop => {
            v.push(109);
            v.push(101);
            v.push(97);
            v.push(115);
            v.push(117);
            v.push(114);
            v.push(105);
            v.push(110);
            v.push(103);
            v.push(47);
            v.push(115);
            v.push(116);
            v.push(111);
            v.push(112);
        },
        PathId::Data => {
            v.push(109);
            v.push(101);
            v.push(97);
            v.push(115);
            v.push(117);
            v.push(114);
            v.push(105);
            v.push(110);
            v.push(103);
            v.push(47);
            v.push(100);
            v.push(97);
            v.push(116);
            v.push(97);
        },
        PathId::Measure => {
            v.push(109);
            v.push(101);
            v.push(97);
            v.push(115);
            v.push(117);
            v.push(114);
            v.push(101);
            v.push(109);
            v.push(101);
            v.push(110);
            v.push(116);
        },
        PathId::Error => {
            v.push(101);
            v.push(114);
            v.push(114);
            v.push(111);
            v.push(114);
        },
    }
    assert(v@ =~= path_bytes(p));
    v
}

/// True exactly when the two byte strings are equal.
pub fn bytes_eq(a: &Vec<u8>, b: &Vec<u8>) -> (r: bool)
    ensures
        r <==> a@ == b@,
{
    if a.len() != b.len() {
        return false;
    }
    let mut i: usize = 0;
    while i < a.len()
        invariant
            i <= a.len(),
            a@.len() == b@.len(),
            forall|k: int| 0 <= k < i ==> a@[k] == b@[k],
        decreases a.len() - i,
    {
        if a[i] != b[i] {
            return false;
        }
        i += 1;
    }
    assert(a@ =~= b@);
    true
}

/// Names the path a byte string spells, or `None` for an unknown path.
pub fn parse_path(s: &Vec<u8>) -> (r: Option<PathId>)
    ensures
        r == parse_path_spec(s@),
{
    if bytes_eq(s, &encode_path(PathId::Start)) {
        Some(PathId::Start)
    } else if bytes_eq(s, &encode_path(PathId::Stop)) {
        Some(PathId::Stop)
    } else if bytes_eq(s, &encode_path(PathId::Data)) {
        Some(PathId::Data)
    } else if bytes_eq(s, &encode_path(PathId::Measure)) {
        Some(PathId::Measure)
    } else if bytes_eq(s, &encode_path(PathId::Error)) {
        Some(PathId::Error)
    } else {
        None
    }
}

/// Wire encoding of a start request: the interval as a variable-length
/// integer, then the threshold bit pattern as four little-endian bytes.
pub open spec fn spec_encode_start(m: StartMeasuring) -> Seq<u8> {
    spec_varint(m.interval_ms) + spec_le4(m.threshold_bits)
}

/// Decoding of a start request payload. Bytes past the two fields are
/// ignored: a payload decoder consumes the prefix it needs.
pub open spec fn spec_decode_start(s: Seq<u8>) -> Option<StartMeasuring> {
    match spec_decode_varint(s, 0) {
        None => None,
        Some((v, j)) => match spec_decode_le4(s, j) {
            None => None,
            Some((t, _)) => Some(StartMeasuring { interval_ms: v, threshold_bits: t }),
        },
    }
}

/// Encodes a start request payload.
pub fn encode_start_measuring(m: &StartMeasuring) -> (r: Vec<u8>)
    ensures
        r@ == spec_encode_start(*m),
{
    let mut out: Vec<u8> = Vec::new();
    encode_varint_u32(m.interval_ms, &mut out);
    encode_le4(m.threshold_bits, &mut out);
    out
}

/// Decodes a start request payload; `None` on malformed bytes.
pub fn decode_start_measuring(buf: &Vec<u8>) -> (r: Option<StartMeasuring>)
    ensures
        r == spec_decode_start(buf@),
{
    match decode_varint_u32(buf, 0) {
        None => None,
        Some((v, j)) => match decode_le4(buf, j) {
            None => None,
            Some((t, _)) => Some(StartMeasuring { interval_ms: v, threshold_bits: t }),
        },
    }
}

/// A start request payload decodes back to the request it encodes, also
/// when trailing bytes follow it: a decoder consumes the prefix it needs.
pub proof fn lemma_start_round_trip(m: StartMeasuring, tail: Seq<u8>)
    ensures
        spec_decode_start(spec_encode_start(m) + tail) == Some(m),
        spec_decode_start(spec_encode_start(m)) == Some(m),
{
    let enc = spec_encode_start(m);
    let vi = spec_varint(m.interval_ms);
    let n = vi.len() as int;
    let s = enc + tail;
    assert(s.subrange(0, n) =~= vi);
    lemma_varint_round_trip(s, 0, m.interval_ms);
    assert(s.subrange(n, n + 4) =~= spec_le4(m.threshold_bits));
    lemma_le4_round_trip(s, n, m.threshold_bits);
    assert(enc + Seq::<u8>::empty() =~= enc);
    assert(enc.subrange(0, n) =~= vi);
    lemma_varint_round_trip(enc, 0, m.interval_ms);
    assert(enc.subrange(n, n + 4) =~= spec_le4(m.threshold_bits));
    lemma_le4_round_trip(enc, n, m.threshold_bits);
}

/// Wire encoding of a measurement: its bit pattern, little-endian.
pub open spec fn spec_encode_measurement(m: Measurement) -> Seq<u8> {
    spec_le4(m.temp01_bits)
}

/// Decoding of a measurement payload; bytes past the reading are ignored.
pub open spec fn spec_decode_measurement(s: Seq<u8>) -> Option<Measurement> {
    match spec_decode_le4(s, 0) {
        None => None,
        Some((t, _)) => Some(Measurement { temp01_bits: t }),
    }
}

/// Encodes a measurement payload.
pub fn encode_measurement(m: &Measurement) -> (r: Vec<u8>)
    ensures
        r@ == spec_encode_measurement(*m),
{
    let mut out: Vec<u8> = Vec::new();
    encode_le4(m.temp01_bits, &mut out);
    out
}

/// Decodes a measurement payload; `None` on malformed bytes.
pub fn decode_measurement(buf: &Vec<u8>) -> (r: Option<Measurement>)
    ensures
        r == spec_decode_measurement(buf@),
{
    match decode_le4(buf, 0) {
        None => None,
        Some((t, _)) => Some(Measurement { temp01_bits: t }),
    }
}

/// A measurement payload decodes back to the measurement it encodes, also
/// when trailing bytes follow it.
pub proof fn lemma_measurement_round_trip(m: Measurement, tail: Seq<u8>)
    ensures
        spec_decode_measurement(spec_encode_measurement(m) + tail) == Some(m),
        spec_decode_measurement(spec_encode_measurement(m)) == Some(m),
{
    let enc = spec_encode_measurement(m);
    let s = enc + tail;
    assert(s.subrange(0, 4) =~= spec_le4(m.temp01_bits));
    lemma_le4_round_trip(s, 0, m.temp01_bits);
    assert(enc.subrange(0, 4) =~= spec_le4(m.temp01_bits));
    lemma_le4_round_trip(enc, 0, m.temp01_bits);
}

/// Wire encoding of a boolean: one byte, 1 for true and 0 for false.
pub open spec fn spec_encode_bool(b: bool) -> Seq<u8> {
    seq![if b { 1u8 } else { 0u8 }]
}

/// Decoding of a boolean payload: the first byte must be 0 or 1; bytes past
/// it are ignored.
pub open spec fn spec_decode_bool(s: Seq<u8>) -> Option<bool> {
    if s.len() == 0 {
        None
    } else if s[0] == 0u8 {
        Some(false)
    } else if s[0] == 1u8 {
        Some(true)
    } else {
        None
    }
}

/// Encodes a boolean payload.
pub fn encode_bool(b: bool) -> (r: Vec<u8>)
    ensures
        r@ == spec_encode_bool(b),
{
    let mut out: Vec<u8> = Vec::new();
    if b {
        out.push(1u8);
    } else {
        out.push(0u8);
    }
    assert(out@ =~= spec_encode_bool(b));
    out
}

/// Decodes a boolean payload; `None` on malformed bytes.
pub fn decode_bool(buf: &Vec<u8>) -> (r: Option<bool>)
    ensures
        r == spec_decode_bool(buf@),
{
    if buf.len() == 0 {
        None
    } else {
        let b: u8 = buf[0];
        if b == 0 {
            Some(false)
        } else if b == 1 {
            Some(true)
        } else {
            None
        }
    }
}

/// A boolean payload decodes back to the boolean it encodes.
pub proof fn lemma_bool_round_trip(b: bool)
    ensures
        spec_decode_bool(spec_encode_bool(b)) == Some(b),
{
}

} // verus!
