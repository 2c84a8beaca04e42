//! A monotonic three-state progress flag.

use vstd::prelude::*;

verus! {

/// Starting state: no initialization has begun.
pub const NOT_READY: u8 = 0;

/// One caller has won the right to perform the guarded work.
pub const IN_TRANSIT: u8 = 1;

/// The guarded work is finished and published.
pub const READY: u8 = 2;

/// A synchronization primitive that holds callers back until a value is
/// ready. The protocol: a caller first attempts `step(NOT_READY)`; on
/// success it alone may perform the guarded work, and must then publish
/// completion with `step(IN_TRANSIT)`. A caller that loses the first step
/// must not touch the guarded work and instead waits until `is()` reports
/// completion.
pub struct Ready {
    /// The current state: `NOT_READY`, `IN_TRANSIT` or `READY` under the
    /// protocol; `step` itself admits any forward edge.
    pub state: u8,
}

impl Ready {
    /// True when the flag has reached `READY`.
    pub open spec fn is_spec(self) -> bool {
        self.state == READY
    }

    /// The flag after an attempted transition out of `from`, paired with
    /// whether the transition was taken.
    pub open spec fn step_spec(self, from: u8) -> (Ready, bool) {
        if self.state == from {
            (Ready { state: (from + 1) as u8 }, true)
        } else {
            (self, false)
        }
    }

    /// Creates the flag in `NOT_READY`.
    pub fn new() -> (r: Ready)
        ensures
            r.state == NOT_READY,
    {
        Ready { state: NOT_READY }
    }

    /// Moves the flag to the next state if it currently is in state `from`;
    /// reports whether the transition was taken. Exactly one caller ever
    /// observes success for a given edge.
    pub fn step(&mut self, from: u8) -> (r: bool)
        requires
            from < 255,
        ensures
            (*final(self), r) == old(self).step_spec(from),
    {
        self.forward(from, from + 1)
    }

    /// Moves the flag to state `to` if it currently is in state `from`.
    fn forward(&mut self, from: u8, to: u8) -> (r: bool)
        ensures
            r == (old(self).state == from),
            r ==> final(self).state == to,
            !r ==> *final(self) == *old(self),
    {
        if self.state == from {
            self.state = to;
            true
        } else {
            false
        }
    }

    /// True when the flag has reached `READY`.
    pub fn is(&self) -> (r: bool)
        ensures
            r == self.is_spec(),
    {
        self.state == READY
    }
}

/// Law: a given edge is won at most once. After a successful `step(from)`,
/// a second `step(from)` on the resulting flag fails.
pub proof fn lemma_step_wins_once(r: Ready, from: u8)
    requires
        from < 255,
    ensures
        r.step_spec(from).1 ==> !r.step_spec(from).0.step_spec(from).1,
{
}

/// Law: the flag only moves forward, and `READY` is terminal under the
/// protocol — once reached, the two protocol edges leave it `READY`.
pub proof fn lemma_ready_monotonic(r: Ready, from: u8)
    requires
        from < 255,
    ensures
        r.step_spec(from).0.state >= r.state,
        from < READY && r.is_spec() ==> r.step_spec(from).0.is_spec(),
{
}

} // verus!
