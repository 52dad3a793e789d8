//! Debouncing of the raw screen-lock probe.
//!
//! The lock-polling loop samples the probe once a second. The probe may fail
//! to answer; absence of lock information is treated as "not locked". Only a
//! change against the previously observed value is published into the shared
//! lock-state cell, so the cell is written exactly on lock and unlock edges.

use vstd::prelude::*;

verus! {

/// How a raw probe answer is read: an indeterminate answer counts as
/// "not locked", favoring continued tracking over a false pause.
pub open spec fn interpret_probe(probe: Option<bool>) -> bool {
    match probe {
        Some(locked) => locked,
        None => false,
    }
}

/// The state of the debouncing loop: the lock value observed at the previous
/// sample. Before the first sample the screen counts as unlocked.
#[derive(Clone, Copy, Debug)]
pub struct LockMonitor {
    pub last_observed: bool,
}

impl LockMonitor {
    /// A monitor that has seen no sample yet.
    pub fn new() -> (m: LockMonitor)
        ensures
            m.last_observed == false,
    {
        LockMonitor { last_observed: false }
    }

    /// Digest one probe sample. The result is the value to publish into the
    /// shared lock-state cell: `Some` exactly when the interpreted value is
    /// an edge against the previous observation, `None` when nothing changed
    /// and no write should occur.
    pub fn step(&mut self, probe: Option<bool>) -> (publish: Option<bool>)
        ensures
            final(self).last_observed == interpret_probe(probe),
            publish == if interpret_probe(probe) != old(self).last_observed {
                Some(interpret_probe(probe))
            } else {
                None::<bool>
            },
    {
        let observed = match probe {
            Some(locked) => locked,
            None => false,
        };
        let publish = if observed != self.last_observed {
            Some(observed)
        } else {
            None
        };
        self.last_observed = observed;
        publish
    }
}

} // verus!
