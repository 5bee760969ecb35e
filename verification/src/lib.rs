//! Command-driven sampling engine for a one-probe temperature measuring
//! device.
//!
//! The engine is the pure core of a device agent that talks to a host over a
//! request/response and publish/subscribe wire protocol: frame routing, the
//! cancellable periodic sampling session, the mutual-exclusion discipline for
//! the shared sensor bus, and the payload codecs. Everything here is plain
//! state-machine logic: the unverified shell owns the transport, the timer
//! and the sensor driver, and feeds their outcomes in as events.

pub mod client;
pub mod dispatch;
pub mod guard;
pub mod icd;
pub mod session;
pub mod wire;

use vstd::prelude::*;

verus! {

/// Value of eight bytes read most significant first: the form in which the
/// device's unique identifier is stored at bring-up.
pub open spec fn spec_u64_from_be(s: Seq<u8>) -> int {
    ((((((s[0] * 0x100 + s[1]) * 0x100 + s[2]) * 0x100 + s[3]) * 0x100 + s[4]) * 0x100 + s[5])
        * 0x100 + s[6]) * 0x100 + s[7]
}

/// Assembles the device's unique identifier from the eight bytes read out
/// of flash, most significant first.
pub fn unique_id_from_bytes(b: &Vec<u8>) -> (r: u64)
    requires
        b@.len() == 8,
    ensures
        r == spec_u64_from_be(b@),
{
    let mut r: u64 = b[0] as u64;
    r = r * 0x100 + b[1] as u64;
    r = r * 0x100 + b[2] as u64;
    r = r * 0x100 + b[3] as u64;
    r = r * 0x100 + b[4] as u64;
    r = r * 0x100 + b[5] as u64;
    r = r * 0x100 + b[6] as u64;
    r = r * 0x100 + b[7] as u64;
    r
}

/// Successor of a session-local sequence number, wrapping on overflow.
pub open spec fn wrap_inc(s: u32) -> u32 {
    if s == u32::MAX {
        0
    } else {
        (s + 1) as u32
    }
}

/// Computes the wrapping successor of a sequence number.
pub fn next_seq(s: u32) -> (r: u32)
    ensures
        r == wrap_inc(s),
{
    if s == u32::MAX {
        0
    } else {
        s + 1
    }
}

} // verus!
