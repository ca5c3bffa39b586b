//! The render gate: a two-permit counter that keeps simultaneous
//! image-drawing work from exhausting the processor.
//!
//! This module holds the permit counter; nothing else in the library
//! is ever written concurrently.  The process runs it behind an
//! asynchronous semaphore whose waiting is outside the verifier's
//! reach; each admission the semaphore grants corresponds to a
//! `try_acquire` that returns true, and each return of a permit —
//! after failures too — to a `release`.

use vstd::prelude::*;

verus! {

/// How many compositor invocations may run at once.
pub const GATE_CAPACITY: u32 = 2;

/// The admission accounting of the render gate.
pub struct RenderGate {
    /// How many compositor invocations hold a permit right now.
    pub in_flight: u32,
}

impl RenderGate {
    /// Permit holders never outnumber the capacity.
    pub open spec fn wf(&self) -> bool {
        self.in_flight <= GATE_CAPACITY
    }

    /// A fresh gate with every permit free.
    pub fn new() -> (g: RenderGate)
        ensures
            g.wf(),
            g.in_flight == 0,
    {
        RenderGate { in_flight: 0 }
    }

    /// Ask for a permit.  Admission is granted exactly when a permit is
    /// free; a denied caller's state is unchanged (the process suspends
    /// it until a permit frees up, then asks again).
    pub fn try_acquire(&mut self) -> (granted: bool)
        requires
            old(self).wf(),
        ensures
            final(self).wf(),
            granted <==> old(self).in_flight < GATE_CAPACITY,
            granted ==> final(self).in_flight == old(self).in_flight + 1,
            !granted ==> *final(self) == *old(self),
    {
        if self.in_flight < GATE_CAPACITY {
            self.in_flight = self.in_flight + 1;
            true
        } else {
            false
        }
    }

    /// Give a permit back.  Callers do this when leaving the guarded
    /// work, however they leave it, so a permit is never lost.
    pub fn release(&mut self)
        requires
            old(self).wf(),
            old(self).in_flight > 0,
        ensures
            final(self).wf(),
            final(self).in_flight == old(self).in_flight - 1,
    {
        self.in_flight = self.in_flight - 1;
    }
}

/// A well-formed gate's holder count never exceeds its two permits.
pub proof fn lemma_gate_bounded(g: RenderGate)
    requires
        g.wf(),
    ensures
        g.in_flight <= 2,
{
}

} // verus!
