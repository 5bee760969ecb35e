//! Host-side decisions of the controller client.
//!
//! The client issues correlated request/response calls over the transport
//! and subscribes to the measurement topic with a bounded delivery queue.
//! The transport itself lives in the unverified shell; here are the pure
//! parts: the device-discovery predicate, the request the client sends,
//! the interpretation of reply payloads, the error taxonomy that keeps
//! transport breakage apart from an endpoint's own failure, and the
//! subscription queue.

use vstd::prelude::*;

use crate::icd::{bytes_eq, spec_decode_bool, spec_decode_measurement, Measurement, StartMeasuring};

verus! {

/// How a call failed at the transport level: the wire reported an error,
/// the reply did not decode or correlate, or the connection closed.
#[derive(Clone, Copy, Debug, PartialEq, Eq, Structural)]
pub enum CommsError {
    /// The device or transport reported a wire-level error.
    Wire,
    /// The reply arrived but could not be decoded or correlated.
    BadResponse,
    /// The connection to the device is gone.
    Closed,
}

/// A failed call, keeping "the transport broke" (`Comms`) apart from "the
/// device answered with its own error" (`Endpoint`).
#[derive(Clone, Copy, Debug)]
pub enum Error<E> {
    /// The call never completed: a transport or protocol failure.
    Comms(CommsError),
    /// The device answered, with the endpoint's own error value.
    Endpoint(E),
}

impl<E> core::convert::From<CommsError> for Error<E> {
    /// A transport failure converts to the comms side of the taxonomy.
    fn from(value: CommsError) -> (r: Self) {
        Error::Comms(value)
    }
}

impl<E> vstd::std_specs::convert::FromSpecImpl<CommsError> for Error<E> {
    open spec fn obeys_from_spec() -> bool {
        true
    }

    open spec fn from_spec(value: CommsError) -> Self {
        Error::Comms(value)
    }
}

/// Lifts an endpoint's own result into the two-sided error taxonomy: a
/// success passes through, an endpoint failure becomes `Endpoint`.
pub fn flatten_result<T, E>(r: Result<T, E>) -> (out: Result<T, Error<E>>)
    ensures
        r matches Ok(v) ==> out matches Ok(w) && w == v,
        r matches Err(e) ==> out matches Err(err) && err matches Error::Endpoint(e2) && e2 == e,
{
    match r {
        Ok(v) => Ok(v),
        Err(e) => Err(Error::Endpoint(e)),
    }
}

/// The product identity string the device advertises: "measuring-device".
pub open spec fn product_name() -> Seq<u8> {
    seq![
        109u8, 101, 97, 115, 117, 114, 105, 110, 103, 45, 100, 101, 118, 105, 99, 101,
    ]
}

/// Builds the advertised product identity string.
pub fn product_name_bytes() -> (r: Vec<u8>)
    ensures
        r@ == product_name(),
{
    let mut v: Vec<u8> = Vec::new();
    v.push(109);
    v.push(101);
    v.push(97);
    v.push(115);
    v.push(117);
    v.push(114);
    v.push(105);
    v.push(110);
    v.push(103);
    v.push(45);
    v.push(100);
    v.push(101);
    v.push(118);
    v.push(105);
    v.push(99);
    v.push(101);
    assert(v@ =~= product_name());
    v
}

/// The discovery predicate: true exactly for the transport endpoint whose
/// advertised product identity matches the expected device name.
pub fn is_target_product(name: &Vec<u8>) -> (r: bool)
    ensures
        r <==> name@ == product_name(),
{
    bytes_eq(name, &product_name_bytes())
}

/// The start request the client sends for a chosen interval: the threshold
/// field is reserved and always sent as zero.
pub fn start_request(interval_ms: u32) -> (r: StartMeasuring)
    ensures
        r == (StartMeasuring { interval_ms, threshold_bits: 0 }),
{
    StartMeasuring { interval_ms, threshold_bits: 0 }
}

/// Interprets the reply payload of a stop call: the acknowledgement
/// boolean, or `BadResponse` when the payload does not decode.
pub fn parse_stop_response(payload: &Vec<u8>) -> (r: Result<bool, CommsError>)
    ensures
        match spec_decode_bool(payload@) {
            Some(b) => r matches Ok(b2) && b2 == b,
            None => r matches Err(e) && e == CommsError::BadResponse,
        },
{
    match crate::icd::decode_bool(payload) {
        Some(b) => Ok(b),
        None => Err(CommsError::BadResponse),
    }
}

/// Interprets the reply payload of a single-shot measurement call: the
/// measurement, or `BadResponse` when the payload does not decode.
pub fn parse_measurement_response(payload: &Vec<u8>) -> (r: Result<Measurement, CommsError>)
    ensures
        match spec_decode_measurement(payload@) {
            Some(m) => r matches Ok(m2) && m2 == m,
            None => r matches Err(e) && e == CommsError::BadResponse,
        },
{
    match crate::icd::decode_measurement(payload) {
        Some(m) => Ok(m),
        None => Err(CommsError::BadResponse),
    }
}

/// A topic subscription's delivery queue, bounded at the depth chosen when
/// subscribing. Payloads come out in publish order; a publish that meets a
/// full queue fails delivery for this subscriber only and changes nothing.
#[derive(Debug)]
pub struct Subscription {
    /// Payloads delivered and not yet received, oldest first.
    pub queued: Vec<Measurement>,
    /// The bound chosen when subscribing.
    pub depth: usize,
}

impl Subscription {
    /// The queue never holds more than its bound.
    pub open spec fn wf(self) -> bool {
        self.queued@.len() <= self.depth
    }

    /// Subscribes with a bounded queue of the given depth.
    pub fn new(depth: usize) -> (r: Subscription)
        ensures
            r.queued@ == Seq::<Measurement>::empty(),
            r.depth == depth,
            r.wf(),
    {
        Subscription { queued: Vec::new(), depth }
    }

    /// Delivers one published payload to this subscriber: appended in
    /// publish order, unless the queue is full, in which case the delivery
    /// fails and the queue is unchanged.
    pub fn offer(&mut self, m: Measurement) -> (delivered: bool)
        requires
            old(self).wf(),
        ensures
            final(self).wf(),
            final(self).depth == old(self).depth,
            delivered <==> old(self).queued@.len() < old(self).depth,
            delivered ==> final(self).queued@ == old(self).queued@.push(m),
            !delivered ==> *final(self) == *old(self),
    {
        if self.queued.len() < self.depth {
            self.queued.push(m);
            true
        } else {
            false
        }
    }

    /// Yields the oldest queued payload, or `None` when the queue is
    /// empty: payloads come out in the order they were published.
    pub fn recv(&mut self) -> (r: Option<Measurement>)
        requires
            old(self).wf(),
        ensures
            final(self).wf(),
            final(self).depth == old(self).depth,
            old(self).queued@.len() == 0 ==> r is None && *final(self) == *old(self),
            old(self).queued@.len() > 0 ==> r == Some(old(self).queued@[0])
                && final(self).queued@ == old(self).queued@.remove(0),
    {
        if self.queued.len() == 0 {
            None
        } else {
            Some(self.queued.remove(0))
        }
    }
}

} // verus!
