//! Single-flight gate: a boolean flag guarding exclusive execution of gated
//! commands.
//!
//! Every gated operation must `acquire` before starting work and `release`
//! on every exit path of its worker; a worker that never releases denies all
//! future gated submissions.

use vstd::prelude::*;

verus! {

/// The single-flight exclusion primitive. `held` is true exactly while one
/// gated worker is running.
pub struct Gate {
    pub held: bool,
}

/// The flag after an `acquire`, whatever its prior state: held.
pub open spec fn gate_after_acquire(g: Gate) -> Gate {
    Gate { held: true }
}

/// Whether an `acquire` on `g` grants ownership: only on the not-held to
/// held transition.
pub open spec fn gate_acquire_grants(g: Gate) -> bool {
    !g.held
}

/// The flag after a `release`, whatever its prior state: not held.
pub open spec fn gate_after_release(g: Gate) -> Gate {
    Gate { held: false }
}

impl Gate {
    /// A fresh gate is not held.
    pub fn new() -> (g: Gate)
        ensures
            !g.held,
    {
        Gate { held: false }
    }

    /// Test-and-set: returns true only if the prior value was false, in
    /// which case the caller now owns exclusive execution rights. Returns
    /// false, changing nothing observable, if some caller already held it.
    pub fn acquire(&mut self) -> (granted: bool)
        ensures
            granted == gate_acquire_grants(*old(self)),
            *final(self) == gate_after_acquire(*old(self)),
    {
        let granted = !self.held;
        self.held = true;
        granted
    }

    /// Unconditionally resets the flag; idempotent.
    pub fn release(&mut self)
        ensures
            *final(self) == gate_after_release(*old(self)),
            !final(self).held,
    {
        self.held = false;
    }

    /// Read-only query of the flag.
    pub fn is_held(&self) -> (r: bool)
        ensures
            r == self.held,
    {
        self.held
    }
}

/// At most one caller owns exclusive rights at a time: once an `acquire`
/// has granted ownership, no further `acquire` can grant it until a
/// `release`,
/// and an `acquire` grants exactly on the not-held to held transition.
pub proof fn lemma_gate_single_flight(g: Gate)
    ensures
        gate_acquire_grants(g) == !g.held,
        !gate_acquire_grants(gate_after_acquire(g)),
        gate_acquire_grants(gate_after_release(g)),
{
}

/// `release` is idempotent: releasing an already-released gate leaves the
/// flag false and the state unchanged.
pub proof fn lemma_gate_release_idempotent(g: Gate)
    ensures
        !gate_after_release(g).held,
        gate_after_release(gate_after_release(g)) == gate_after_release(g),
{
}

} // verus!
