//! Frame routing: the device side of the request/response protocol.
//!
//! The transport hands the dispatcher decoded frames — path, sequence
//! number, payload bytes. Each frame is routed by its path: the stop
//! request runs blocking, right here; the start request is handed back to
//! the shell to spawn the sampling session as its own task; the single-shot
//! measurement request is handed back for the shell to await inline. An
//! unknown path or an undecodable payload draws a protocol error reply and
//! never crashes the dispatcher. Every endpoint invocation produces exactly
//! one reply frame; topic publishes produce none.

use vstd::prelude::*;

use crate::icd::{
    decode_start_measuring, encode_bool, encode_measurement, encode_path, parse_path,
    parse_path_spec, path_bytes, spec_decode_start, spec_encode_bool, spec_encode_measurement,
    Measurement, PathId, StartMeasuring,
};
use crate::session::Device;

verus! {

/// A decoded transport frame: which endpoint or topic, the caller-chosen
/// correlation number, and the payload bytes.
#[derive(Debug)]
pub struct Frame {
    /// UTF-8 path naming the endpoint or topic.
    pub path: Vec<u8>,
    /// Correlates a reply to its request; for publishes, the session-local
    /// publish counter.
    pub seq_no: u32,
    /// Encoded request, reply or publish payload.
    pub payload: Vec<u8>,
}

/// Why a frame was rejected.
#[derive(Clone, Copy, Debug, PartialEq, Eq, Structural)]
pub enum ProtocolError {
    /// The frame's path names no registered endpoint.
    UnknownPath,
    /// The path was known but the payload bytes do not decode.
    BadPayload,
}

/// A reply payload, one per endpoint invocation.
#[derive(Clone, Copy, Debug, PartialEq, Eq, Structural)]
pub enum Reply {
    /// Unit reply to a start request, sent by the session task itself
    /// before its loop begins.
    StartAck,
    /// Boolean reply to a stop request: true acknowledges the stop.
    StopAck(bool),
    /// A single-shot measurement, carried directly in the reply.
    OneShot(Measurement),
    /// A structured protocol error; never fatal to the dispatcher.
    Protocol(ProtocolError),
}

/// What dispatching one frame asks the shell to do next.
#[derive(Clone, Copy, Debug, PartialEq, Eq, Structural)]
pub enum DispatchStep {
    /// A blocking handler finished (or the frame was rejected): send
    /// exactly this one reply, then process the next frame.
    Reply { seq_no: u32, reply: Reply },
    /// Spawn the sampling session as an independent task with these
    /// parameters; frame processing continues immediately.
    SpawnSession { seq_no: u32, req: StartMeasuring },
    /// Await one single-shot measurement inline and reply with it; frame
    /// processing waits until it finishes.
    MeasureOnce { seq_no: u32 },
}

/// What dispatching does to the control state and what step it yields. Only
/// the stop handler touches the state — it sets the cancellation flag; a
/// rejected frame changes nothing.
pub open spec fn spec_dispatch(d: Device, path: Seq<u8>, seq_no: u32, payload: Seq<u8>) -> (
    Device,
    DispatchStep,
) {
    match parse_path_spec(path) {
        Some(PathId::Start) => match spec_decode_start(payload) {
            Some(req) => (d, DispatchStep::SpawnSession { seq_no, req }),
            None => (
                d,
                DispatchStep::Reply {
                    seq_no,
                    reply: Reply::Protocol(ProtocolError::BadPayload),
                },
            ),
        },
        Some(PathId::Stop) => (
            Device { stop_requested: true, ..d },
            DispatchStep::Reply { seq_no, reply: Reply::StopAck(true) },
        ),
        Some(PathId::Measure) => (d, DispatchStep::MeasureOnce { seq_no }),
        _ => (
            d,
            DispatchStep::Reply { seq_no, reply: Reply::Protocol(ProtocolError::UnknownPath) },
        ),
    }
}

/// Routes one decoded frame. The stop request runs to completion here —
/// it sets the cooperative cancellation flag and acknowledges — while the
/// start and single-shot requests are handed back to the shell, and a
/// malformed or unknown frame draws a protocol error reply with the state
/// untouched.
pub fn dispatch_frame(dev: &mut Device, frame: &Frame) -> (step: DispatchStep)
    ensures
        (*final(dev), step) == spec_dispatch(
            *old(dev),
            frame.path@,
            frame.seq_no,
            frame.payload@,
        ),
{
    match parse_path(&frame.path) {
        Some(PathId::Start) => match decode_start_measuring(&frame.payload) {
            Some(req) => DispatchStep::SpawnSession { seq_no: frame.seq_no, req },
            None => DispatchStep::Reply {
                seq_no: frame.seq_no,
                reply: Reply::Protocol(ProtocolError::BadPayload),
            },
        },
        Some(PathId::Stop) => {
            let acked = dev.request_stop();
            DispatchStep::Reply { seq_no: frame.seq_no, reply: Reply::StopAck(acked) }
        },
        Some(PathId::Measure) => DispatchStep::MeasureOnce { seq_no: frame.seq_no },
        _ => DispatchStep::Reply {
            seq_no: frame.seq_no,
            reply: Reply::Protocol(ProtocolError::UnknownPath),
        },
    }
}

/// A rejected frame is harmless: whenever the path is unknown (including
/// the publish topic and the error path, which have no inbound handler) or
/// a start payload does not decode, dispatch leaves the control state
/// exactly as it was and yields one protocol error reply, so subsequent
/// valid requests are processed as if the bad frame had never arrived.
pub proof fn lemma_rejected_frame_preserves_state(
    d: Device,
    path: Seq<u8>,
    seq_no: u32,
    payload: Seq<u8>,
)
    ensures
        parse_path_spec(path) is None ==> spec_dispatch(d, path, seq_no, payload) == (
            d,
            DispatchStep::Reply { seq_no, reply: Reply::Protocol(ProtocolError::UnknownPath) },
        ),
        parse_path_spec(path) == Some(PathId::Start) && spec_decode_start(payload) is None
            ==> spec_dispatch(d, path, seq_no, payload) == (
            d,
            DispatchStep::Reply { seq_no, reply: Reply::Protocol(ProtocolError::BadPayload) },
        ),
{
}

/// The wire path a reply travels on: the endpoint's own path, or the error
/// path for protocol errors.
pub open spec fn reply_path(r: Reply) -> PathId {
    match r {
        Reply::StartAck => PathId::Start,
        Reply::StopAck(_) => PathId::Stop,
        Reply::OneShot(_) => PathId::Measure,
        Reply::Protocol(_) => PathId::Error,
    }
}

/// Wire encoding of a protocol error: one byte naming the rejection.
pub open spec fn spec_encode_protocol_error(e: ProtocolError) -> Seq<u8> {
    match e {
        ProtocolError::UnknownPath => seq![0u8],
        ProtocolError::BadPayload => seq![1u8],
    }
}

/// Wire encoding of each reply payload.
pub open spec fn spec_encode_reply_payload(r: Reply) -> Seq<u8> {
    match r {
        Reply::StartAck => Seq::empty(),
        Reply::StopAck(b) => spec_encode_bool(b),
        Reply::OneShot(m) => spec_encode_measurement(m),
        Reply::Protocol(e) => spec_encode_protocol_error(e),
    }
}

/// Encodes one reply into the frame the transport sends back: the reply's
/// path, the request's sequence number, the encoded payload.
pub fn encode_reply_frame(seq_no: u32, r: &Reply) -> (f: Frame)
    ensures
        f.path@ == path_bytes(reply_path(*r)),
        f.seq_no == seq_no,
        f.payload@ == spec_encode_reply_payload(*r),
{
    let path = encode_path(
        match r {
            Reply::StartAck => PathId::Start,
            Reply::StopAck(_) => PathId::Stop,
            Reply::OneShot(_) => PathId::Measure,
            Reply::Protocol(_) => PathId::Error,
        },
    );
    let payload: Vec<u8> = match r {
        Reply::StartAck => Vec::new(),
        Reply::StopAck(b) => encode_bool(*b),
        Reply::OneShot(m) => encode_measurement(m),
        Reply::Protocol(e) => {
            let mut v: Vec<u8> = Vec::new();
            match e {
                ProtocolError::UnknownPath => v.push(0u8),
                ProtocolError::BadPayload => v.push(1u8),
            }
            assert(v@ =~= spec_encode_protocol_error(*e));
            v
        },
    };
    Frame { path, seq_no, payload }
}

/// Encodes one publish of the measurement topic: the topic's path, the
/// session-local publish sequence number, the encoded measurement.
pub fn encode_publish_frame(seq: u32, m: &Measurement) -> (f: Frame)
    ensures
        f.path@ == path_bytes(PathId::Data),
        f.seq_no == seq,
        f.payload@ == spec_encode_measurement(*m),
{
    Frame { path: encode_path(PathId::Data), seq_no: seq, payload: encode_measurement(m) }
}

} // verus!
