//! Mutual exclusion for the shared sensor hardware.
//!
//! The device owns one 1-wire bus and one attached temperature probe. Every
//! task that touches the sensor — the long-running sampling session and the
//! short-lived one-shot handler — must first be granted the hardware guard,
//! which stands for holding both mutex handles (bus, then sensor, in that
//! fixed order, so lock ordering is acyclic). The guard is a state value:
//! the unverified shell suspends a task whose acquire was not granted and
//! retries when the holder releases.

use vstd::prelude::*;

verus! {

/// A task that may ask for exclusive access to the sensor hardware.
#[derive(Clone, Copy, Debug, PartialEq, Eq, Structural)]
pub enum Task {
    /// The continuous sampling session.
    Session,
    /// A short-lived single-shot measurement handler.
    OneShot,
}

/// The guard over the shared hardware: either free, or held by exactly one
/// task. Holding the guard stands for holding both the bus handle and the
/// sensor handle together.
#[derive(Clone, Copy, Debug, PartialEq, Eq, Structural)]
pub enum HwGuard {
    /// Nobody holds the hardware; an acquire will be granted.
    Free,
    /// The named task holds both hardware handles exclusively.
    HeldBy(Task),
}

/// True when the named task currently holds both hardware handles.
pub open spec fn holds(g: HwGuard, t: Task) -> bool {
    g == HwGuard::HeldBy(t)
}

/// What an acquire does: granted exactly when the guard is free, and then
/// the caller becomes the holder; otherwise the guard is unchanged and the
/// caller suspends.
pub open spec fn spec_acquire(g: HwGuard, t: Task) -> (HwGuard, bool) {
    if g is Free {
        (HwGuard::HeldBy(t), true)
    } else {
        (g, false)
    }
}

impl HwGuard {
    /// Tries to take exclusive access to the bus and sensor for task `t`.
    /// Returns true exactly when the guard was free; a caller that gets
    /// false holds nothing and must suspend and retry.
    pub fn acquire(&mut self, t: Task) -> (granted: bool)
        ensures
            (*final(self), granted) == spec_acquire(*old(self), t),
            granted <==> *old(self) is Free,
            granted ==> holds(*final(self), t),
            !granted ==> *final(self) == *old(self),
    {
        match *self {
            HwGuard::Free => {
                *self = HwGuard::HeldBy(t);
                true
            },
            HwGuard::HeldBy(_) => false,
        }
    }

    /// Releases the hardware handles held by task `t`; the guard is free
    /// again afterwards.
    pub fn release(&mut self, t: Task)
        requires
            holds(*old(self), t),
        ensures
            *final(self) is Free,
    {
        *self = HwGuard::Free;
    }
}

/// The guard is exclusive: no state of it has two distinct holders, so the
/// sampling session and a one-shot handler never read or write the bus at
/// the same time.
pub proof fn lemma_guard_exclusive(g: HwGuard, t1: Task, t2: Task)
    requires
        t1 != t2,
    ensures
        !(holds(g, t1) && holds(g, t2)),
{
}

/// While one task holds the guard, an acquire by a different task is not
/// granted and changes nothing: the waiter suspends and the holder keeps
/// exclusive access.
pub proof fn lemma_acquire_while_held(g: HwGuard, t1: Task, t2: Task)
    requires
        holds(g, t1),
        t1 != t2,
    ensures
        spec_acquire(g, t2).1 == false,
        spec_acquire(g, t2).0 == g,
        holds(spec_acquire(g, t2).0, t1),
{
}

} // verus!
