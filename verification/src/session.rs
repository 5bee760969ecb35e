//! The continuous sampling session and the device's control state.
//!
//! The device runs a single cooperative state machine: a process-wide "stop
//! requested" flag, the hardware guard, and the session itself (idle, or
//! running with a session-local publish sequence number). The unverified
//! shell owns the timer, the sensor driver and the transport; each of their
//! outcomes is fed to a transition here as a plain event, and the
//! transitions decide everything: when the session starts, what each tick
//! publishes, when the loop exits, and how the control state is left for
//! the next start.
//!
//! One tick of the running loop goes: observe the stop flag at the tick
//! boundary (`tick_check`), sample (`sample_decision` on the driver's
//! outcome), publish, record the transport's verdict (`record_publish`).
//! The session holds the hardware guard for its whole lifetime, not
//! re-acquired per tick.

use vstd::arithmetic::div_mod::{lemma_add_mod_noop, lemma_mod_self_0, lemma_small_mod};
use vstd::prelude::*;

use crate::guard::{holds, spec_acquire, HwGuard, Task};
use crate::icd::Measurement;
use crate::{next_seq, wrap_inc};

verus! {

/// The sampling session: not started, or running with the sequence number
/// the next publish will carry.
#[derive(Clone, Copy, Debug, PartialEq, Eq, Structural)]
pub enum SessionState {
    /// No session runs; a start request may begin one.
    Idle,
    /// The periodic loop runs; `next_seq` numbers the next publish.
    Running { next_seq: u32 },
}

/// The device agent's whole control state.
#[derive(Clone, Copy, Debug, PartialEq, Eq, Structural)]
pub struct Device {
    /// The process-wide cooperative cancellation flag: set by a stop
    /// request, observed by the session at tick boundaries, reset by the
    /// session loop on exit.
    pub stop_requested: bool,
    /// Exclusive access to the sensor bus and probe.
    pub guard: HwGuard,
    /// The sampling session.
    pub session: SessionState,
}

/// The control state is well formed: a running session holds the hardware
/// guard for its whole lifetime.
pub open spec fn wf(d: Device) -> bool {
    d.session is Running ==> holds(d.guard, Task::Session)
}

/// A start request can succeed from here: no session runs, the hardware is
/// free, and no stale stop request would end the new session at its first
/// tick boundary.
pub open spec fn start_permitted(d: Device) -> bool {
    &&& d.session is Idle
    &&& d.guard is Free
    &&& !d.stop_requested
}

/// What the session loop leaves behind when it exits, by stop or by publish
/// failure: session idle, hardware released, stop flag reset.
pub open spec fn exit_state() -> Device {
    Device { stop_requested: false, guard: HwGuard::Free, session: SessionState::Idle }
}

/// What a tick-boundary check of the stop flag does: with the flag set the
/// loop exits and leaves the exit state; otherwise nothing changes and the
/// tick proceeds.
pub open spec fn spec_tick_check(d: Device) -> (Device, bool) {
    if d.stop_requested {
        (exit_state(), false)
    } else {
        (d, true)
    }
}

/// What recording the transport's publish verdict does: on success the
/// sequence number advances (wrapping) and the loop continues; on failure
/// the loop exits gracefully and leaves the exit state.
pub open spec fn spec_record_publish(d: Device, publish_ok: bool) -> (Device, bool) {
    if publish_ok {
        (
            Device {
                session: SessionState::Running {
                    next_seq: wrap_inc(d.session->next_seq),
                },
                ..d
            },
            false,
        )
    } else {
        (exit_state(), true)
    }
}

/// The step a tick takes once the sensor driver has answered.
#[derive(Clone, Copy, Debug, PartialEq, Eq, Structural)]
pub enum SampleStep {
    /// Publish this measurement under this session-local sequence number.
    Publish { seq: u32, m: Measurement },
    /// The bus or sensor transaction failed; the device treats that as
    /// fatal, so the shell must halt the process.
    Halt,
}

/// Outcome of a single-shot measurement once the sensor has answered.
#[derive(Clone, Copy, Debug, PartialEq, Eq, Structural)]
pub enum OneShotOutcome {
    /// Answer the request with this measurement.
    Reply(Measurement),
    /// The hardware transaction failed; fatal, as for the session.
    Halt,
}

impl Device {
    /// The state at bring-up: no stop requested, hardware free, no session.
    pub fn new() -> (r: Device)
        ensures
            r == (Device {
                stop_requested: false,
                guard: HwGuard::Free,
                session: SessionState::Idle,
            }),
            wf(r),
            start_permitted(r),
    {
        Device { stop_requested: false, guard: HwGuard::Free, session: SessionState::Idle }
    }

    /// The blocking stop handler: requests cooperative cancellation of the
    /// running session, touching nothing else, and acknowledges with true.
    pub fn request_stop(&mut self) -> (r: bool)
        ensures
            *final(self) == (Device { stop_requested: true, ..*old(self) }),
            wf(*old(self)) ==> wf(*final(self)),
            r == true,
    {
        self.stop_requested = true;
        true
    }

    /// The start handler's first step: try to take the hardware guard for
    /// the session. Granted exactly when the hardware is free; a caller
    /// that is not granted holds nothing and suspends.
    pub fn session_acquire(&mut self) -> (granted: bool)
        requires
            old(self).session is Idle,
        ensures
            granted <==> old(self).guard is Free,
            granted ==> *final(self) == (Device {
                guard: HwGuard::HeldBy(Task::Session),
                ..*old(self)
            }),
            !granted ==> *final(self) == *old(self),
            wf(*final(self)),
    {
        self.guard.acquire(Task::Session)
    }

    /// The start handler's second step: the reply to the start request has
    /// been attempted — only after the hardware was acquired — and
    /// `reply_ok` is the transport's verdict. On success the periodic loop
    /// may begin, with sequence numbers starting at 0; on failure the
    /// session aborts before running and releases the just-acquired
    /// hardware.
    pub fn session_confirm(&mut self, reply_ok: bool) -> (started: bool)
        requires
            old(self).session is Idle,
            holds(old(self).guard, Task::Session),
        ensures
            started == reply_ok,
            reply_ok ==> *final(self) == (Device {
                session: SessionState::Running { next_seq: 0 },
                ..*old(self)
            }),
            !reply_ok ==> *final(self) == (Device { guard: HwGuard::Free, ..*old(self) }),
            wf(*final(self)),
    {
        if reply_ok {
            self.session = SessionState::Running { next_seq: 0 };
            true
        } else {
            self.guard.release(Task::Session);
            false
        }
    }

    /// At a tick boundary the running session observes the stop flag. With
    /// the flag clear the tick proceeds and nothing changes; with the flag
    /// set the loop exits, the hardware is released, and the flag is reset
    /// so a subsequent start can succeed.
    pub fn tick_check(&mut self) -> (proceed: bool)
        requires
            wf(*old(self)),
            old(self).session is Running,
        ensures
            (*final(self), proceed) == spec_tick_check(*old(self)),
            proceed <==> !old(self).stop_requested,
            !proceed ==> start_permitted(*final(self)),
            wf(*final(self)),
    {
        if self.stop_requested {
            self.guard.release(Task::Session);
            self.session = SessionState::Idle;
            self.stop_requested = false;
            false
        } else {
            true
        }
    }

    /// Once the sensor driver has answered for this tick, decide the step:
    /// a successful conversion is published under the session's next
    /// sequence number; a failed transaction is fatal under the device's
    /// hardware-error policy, so the decision is to halt.
    pub fn sample_decision(&self, reading: Option<Measurement>) -> (r: SampleStep)
        requires
            self.session is Running,
        ensures
            reading matches Some(m) ==> r == (SampleStep::Publish {
                seq: self.session->next_seq,
                m,
            }),
            reading is None ==> r is Halt,
    {
        match reading {
            Some(m) => SampleStep::Publish { seq: self.next_publish_seq(), m },
            None => SampleStep::Halt,
        }
    }

    /// The sequence number the session's next publish will carry.
    pub fn next_publish_seq(&self) -> (r: u32)
        requires
            self.session is Running,
        ensures
            r == self.session->next_seq,
    {
        match self.session {
            SessionState::Running { next_seq } => next_seq,
            SessionState::Idle => 0,
        }
    }

    /// Record the transport's verdict on this tick's publish. On success
    /// the sequence number advances, wrapping on overflow, and the loop
    /// continues. On failure the loop exits gracefully — the dispatcher
    /// keeps running — releasing the hardware and resetting the stop flag
    /// so a subsequent start can succeed.
    pub fn record_publish(&mut self, publish_ok: bool) -> (ended: bool)
        requires
            wf(*old(self)),
            old(self).session is Running,
        ensures
            (*final(self), ended) == spec_record_publish(*old(self), publish_ok),
            ended == !publish_ok,
            publish_ok ==> final(self).session == (SessionState::Running {
                next_seq: wrap_inc(old(self).session->next_seq),
            }) && final(self).guard == old(self).guard && final(self).stop_requested == old(
                self,
            ).stop_requested,
            !publish_ok ==> start_permitted(*final(self)),
            wf(*final(self)),
    {
        if publish_ok {
            let s = self.next_publish_seq();
            self.session = SessionState::Running { next_seq: next_seq(s) };
            false
        } else {
            self.guard.release(Task::Session);
            self.session = SessionState::Idle;
            self.stop_requested = false;
            true
        }
    }

    /// The single-shot handler's first step: try to take the hardware guard
    /// for one measurement. While a session runs it holds the guard, so the
    /// one-shot caller is not granted and suspends: the two never touch the
    /// bus at once.
    pub fn one_shot_acquire(&mut self) -> (granted: bool)
        requires
            wf(*old(self)),
        ensures
            granted <==> old(self).guard is Free,
            granted ==> *final(self) == (Device {
                guard: HwGuard::HeldBy(Task::OneShot),
                ..*old(self)
            }),
            !granted ==> *final(self) == *old(self),
            old(self).session is Running ==> !granted,
            wf(*final(self)),
    {
        self.guard.acquire(Task::OneShot)
    }

    /// The single-shot handler's last step: the sensor has answered; the
    /// hardware is released immediately, and a successful reading becomes
    /// the reply while a failed transaction is fatal.
    pub fn one_shot_finish(&mut self, reading: Option<Measurement>) -> (r: OneShotOutcome)
        requires
            wf(*old(self)),
            holds(old(self).guard, Task::OneShot),
        ensures
            *final(self) == (Device { guard: HwGuard::Free, ..*old(self) }),
            reading matches Some(m) ==> r == OneShotOutcome::Reply(m),
            reading is None ==> r is Halt,
            wf(*final(self)),
    {
        self.guard.release(Task::OneShot);
        match reading {
            Some(m) => OneShotOutcome::Reply(m),
            None => OneShotOutcome::Halt,
        }
    }
}

/// The session state after `n` successful publishes from state `d`.
pub open spec fn run_publishes(d: Device, n: nat) -> Device
    decreases n,
{
    if n == 0 {
        d
    } else {
        spec_record_publish(run_publishes(d, (n - 1) as nat), true).0
    }
}

/// In a fresh session the `n`-th publish (counting from 0) carries sequence
/// number `n` modulo 2^32 — instantiated at each `k <= n`, the published
/// sequence numbers are 0, 1, 2, ... strictly increasing modulo wraparound
/// — and the loop keeps the guard and the stop flag untouched while it
/// publishes.
pub proof fn lemma_published_sequence_numbers(d: Device, n: nat)
    requires
        d.session == (SessionState::Running { next_seq: 0u32 }),
    ensures
        run_publishes(d, n).session == (SessionState::Running {
            next_seq: (n % 0x1_0000_0000) as u32,
        }),
        run_publishes(d, n).guard == d.guard,
        run_publishes(d, n).stop_requested == d.stop_requested,
    decreases n,
{
    let m = 0x1_0000_0000int;
    if n == 0 {
        lemma_small_mod(0, m as nat);
    } else {
        lemma_published_sequence_numbers(d, (n - 1) as nat);
        let prev = (n - 1) as nat % 0x1_0000_0000;
        lemma_add_mod_noop((n - 1) as int, 1, m);
        lemma_small_mod(1, m as nat);
        if prev == m - 1 {
            lemma_mod_self_0(m);
            assert(n % 0x1_0000_0000 == 0);
        } else {
            lemma_small_mod((prev + 1) as nat, m as nat);
            assert(n % 0x1_0000_0000 == prev + 1);
        }
    }
}

/// After a running session terminates — a stop observed at a tick boundary,
/// or a publish failure — the control state permits a subsequent start to
/// succeed: a start request's acquire is granted at once.
pub proof fn lemma_termination_permits_restart(d: Device)
    requires
        wf(d),
        d.session is Running,
    ensures
        d.stop_requested ==> start_permitted(spec_tick_check(d).0) && spec_acquire(
            spec_tick_check(d).0.guard,
            Task::Session,
        ).1,
        start_permitted(spec_record_publish(d, false).0),
        spec_acquire(spec_record_publish(d, false).0.guard, Task::Session).1,
{
}

/// Tick boundaries of a session started at `t0` with a positive interval
/// lie at `t0`, `t0 + interval`, `t0 + 2 * interval`, ...; this is the
/// first boundary at or after time `t`.
pub open spec fn next_tick_at(t0: nat, interval: nat, t: nat) -> int {
    t0 + interval * (((t - t0) + (interval - 1)) / (interval as int))
}

/// Cooperative cancellation latency is bounded by one tick interval: the
/// session observes the stop flag at each tick boundary, and for a stop
/// issued at time `t` the first boundary at or after `t` — where the loop
/// exit is reflected — lies no later than `t + interval`.
pub proof fn lemma_stop_latency(t0: nat, interval: nat, t: nat)
    requires
        interval > 0,
        t0 <= t,
    ensures
        (next_tick_at(t0, interval, t) - t0) % (interval as int) == 0,
        t <= next_tick_at(t0, interval, t) <= t + interval,
{
    let iv = interval as int;
    let d = (t - t0) as int;
    let k = (d + (iv - 1)) / iv;
    vstd::arithmetic::div_mod::lemma_fundamental_div_mod(d + (iv - 1), iv);
    let r = (d + (iv - 1)) % iv;
    assert(0 <= r < iv) by {
        vstd::arithmetic::div_mod::lemma_mod_bound(d + (iv - 1), iv);
    };
    assert(iv * k == d + (iv - 1) - r);
    assert(d <= iv * k <= d + (iv - 1));
    assert(next_tick_at(t0, interval, t) == t0 + iv * k);
    assert((iv * k) % iv == 0) by {
        vstd::arithmetic::div_mod::lemma_mod_multiples_basic(k, iv);
    };
    assert((next_tick_at(t0, interval, t) - t0) % iv == 0);
}

} // verus!
